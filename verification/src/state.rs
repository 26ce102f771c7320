use std::sync::Arc;
use vstd::prelude::*;

use crate::domain::entities::transaction::Transaction;
use crate::domain::repositories::transaction_repository::TransactionRepository;
use crate::infrastructure::persistence::in_memory_transaction_repository::InMemoryTransactionRepository;

verus! {

/// Application state, registered once with the IPC runtime. It holds the
/// repository that the commands read from, shared behind an `Arc`.
pub struct AppState {
    pub transaction_repo: Arc<InMemoryTransactionRepository>,
}

impl AppState {
    /// Fresh state: an empty in-memory repository, of its own (two states
    /// made by two calls share nothing).
    pub fn new() -> (s: Self)
        ensures
            s.transaction_repo@ == Seq::<Transaction>::empty(),
            s.transaction_repo.listing() == Some(Ok::<Seq<Transaction>, String>(Seq::empty())),
    {
        AppState { transaction_repo: Arc::new(InMemoryTransactionRepository::new()) }
    }
}

} // verus!
