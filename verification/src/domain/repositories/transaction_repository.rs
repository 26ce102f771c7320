use vstd::prelude::*;

use crate::domain::entities::transaction::Transaction;

verus! {

/// What a listing gives back, seen as mathematical values: the transactions
/// in order, or the error message.
pub open spec fn listing_view(r: Result<Vec<Transaction>, String>) -> Result<Seq<Transaction>, String> {
    match r {
        Ok(v) => Ok(v@),
        Err(e) => Err(e),
    }
}

/// Seam between the domain and the storage layer. An implementation may
/// name what its listing is (`listing`); where it does, its `list` hands
/// exactly that back. One that names nothing promises nothing of `list`.
pub trait TransactionRepository {
    /// The result that `list` gives for this repository in its current state,
    /// where the implementation states it.
    open spec fn listing(&self) -> Option<Result<Seq<Transaction>, String>> {
        None
    }

    fn list(&self) -> (r: Result<Vec<Transaction>, String>)
        ensures
            self.listing() matches Some(l) ==> listing_view(r) == l,
    ;
}

} // verus!
