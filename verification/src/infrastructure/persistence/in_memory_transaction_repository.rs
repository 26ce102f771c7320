use vstd::prelude::*;

use crate::domain::entities::transaction::Transaction;
use crate::domain::repositories::transaction_repository::{listing_view, TransactionRepository};

verus! {

/// In-memory implementation of `TransactionRepository`: the transactions are
/// held in a `Vec`, in the order in which they are listed.
pub struct InMemoryTransactionRepository {
    store: Vec<Transaction>,
}

impl View for InMemoryTransactionRepository {
    type V = Seq<Transaction>;

    closed spec fn view(&self) -> Seq<Transaction> {
        self.store@
    }
}

impl InMemoryTransactionRepository {
    /// A repository that holds no transaction.
    pub fn new() -> (repo: Self)
        ensures
            repo@ == Seq::<Transaction>::empty(),
    {
        InMemoryTransactionRepository { store: Vec::new() }
    }
}

impl Default for InMemoryTransactionRepository {
    fn default() -> (repo: Self)
        ensures
            repo@ == Seq::<Transaction>::empty(),
    {
        Self::new()
    }
}

impl TransactionRepository for InMemoryTransactionRepository {
    /// Listing an in-memory repository always succeeds with what it holds.
    open spec fn listing(&self) -> Option<Result<Seq<Transaction>, String>> {
        Some(Ok(self@))
    }

    fn list(&self) -> (r: Result<Vec<Transaction>, String>) {
        let copy = self.store.clone();
        Ok(copy)
    }
}

} // verus!
