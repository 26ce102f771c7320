use vstd::prelude::*;

use crate::domain::entities::transaction::Transaction;
use crate::domain::repositories::transaction_repository::{listing_view, TransactionRepository};

verus! {

/// Lists the transactions of a repository. The repository's answer is passed
/// through unchanged: its transactions in their order, or its error message.
/// It takes any repository, a `&dyn TransactionRepository` included.
pub fn list_transactions<R: TransactionRepository + ?Sized>(repo: &R) -> (r: Result<Vec<Transaction>, String>)
    ensures
        repo.listing() matches Some(l) ==> listing_view(r) == l,
{
    repo.list()
}

} // verus!
