use vstd::prelude::*;
use vstd::std_specs::cmp::{PartialEqSpec, PartialEqSpecImpl};

verus! {

/// Core `Transaction` entity. `amount` is stored in minor units (cents) so
/// that no rounding ever happens.
#[derive(Debug)]
pub struct Transaction {
    pub id: String,
    pub amount: i64,
    pub description: String,
}

impl Transaction {
    /// Two transactions are the same when their identifiers, amounts and
    /// descriptions agree, character for character.
    pub open spec fn same_as(&self, other: &Transaction) -> bool {
        &&& self.id@ == other.id@
        &&& self.amount == other.amount
        &&& self.description@ == other.description@
    }
}

impl Clone for Transaction {
    /// A clone carries the very same fields.
    fn clone(&self) -> (res: Self)
        ensures
            res == *self,
    {
        Transaction { id: self.id.clone(), amount: self.amount, description: self.description.clone() }
    }
}

impl PartialEq for Transaction {
    /// True exactly when the identifiers, the amounts (as signed integers)
    /// and the descriptions (character for character) are all equal.
    fn eq(&self, other: &Self) -> (res: bool)
        ensures
            res == (self.id@ == other.id@ && self.amount == other.amount && self.description@
                == other.description@),
    {
        self.id == other.id && self.amount == other.amount && self.description == other.description
    }
}

impl PartialEqSpecImpl for Transaction {
    open spec fn obeys_eq_spec() -> bool {
        true
    }

    open spec fn eq_spec(&self, other: &Self) -> bool {
        self.same_as(other)
    }
}

impl Eq for Transaction {
}

/// Equality of transactions is an equivalence relation: reflexive, symmetric
/// and transitive.
pub proof fn lemma_transaction_eq_is_equivalence(a: Transaction, b: Transaction, c: Transaction)
    ensures
        a.same_as(&a),
        a.same_as(&b) ==> b.same_as(&a),
        a.same_as(&b) && b.same_as(&c) ==> a.same_as(&c),
{
}

/// `==` on transactions compares every field: it holds exactly when the
/// identifiers are the same strings, the amounts are the same signed integers
/// (a charge and a refund of the same size differ) and the descriptions are
/// the same strings, character for character.
pub proof fn lemma_transaction_eq_is_fieldwise(a: Transaction, b: Transaction)
    ensures
        PartialEqSpec::eq_spec(&a, &b) <==> (a.id@ == b.id@ && a.amount == b.amount && a.description@
            == b.description@),
        a.amount != b.amount ==> !PartialEqSpec::eq_spec(&a, &b),
        a.id@ != b.id@ ==> !PartialEqSpec::eq_spec(&a, &b),
        a.description@ != b.description@ ==> !PartialEqSpec::eq_spec(&a, &b),
{
}

/// A clone of a transaction is equal to it, and equality of transactions is
/// decided by their fields alone.
pub proof fn lemma_clone_is_equal(t: Transaction, cloned: Transaction)
    requires
        cloned == t,
    ensures
        t.same_as(&cloned),
        cloned.same_as(&t),
{
}

} // verus!
