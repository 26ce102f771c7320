use vstd::prelude::*;

use crate::domain::entities::transaction::Transaction;
use crate::domain::repositories::transaction_repository::{listing_view, TransactionRepository};
use crate::domain::use_cases::list_transactions::list_transactions;
use crate::errors::AppError;
use crate::infrastructure::persistence::in_memory_transaction_repository::InMemoryTransactionRepository;
use crate::state::AppState;

verus! {

/// What the `get_transactions` command answers for a given listing: the
/// transactions unchanged, or the repository's message inside
/// `AppError::Repository`.
pub open spec fn command_answer(l: Result<Seq<Transaction>, String>) -> Result<Seq<Transaction>, AppError> {
    match l {
        Ok(s) => Ok(s),
        Err(e) => Err(AppError::Repository(e)),
    }
}

/// The command adds no logic of its own: a successful listing is answered
/// with the same transactions in the same order, and a failed one with
/// `AppError::Repository` carrying the repository's message unchanged.
pub proof fn lemma_command_answer_preserves_listing(l: Result<Seq<Transaction>, String>)
    ensures
        match (l, command_answer(l)) {
            (Ok(s), Ok(t)) => s == t,
            (Err(e), Err(AppError::Repository(m))) => e == m,
            _ => false,
        },
{
}

/// The answer of a command, seen as mathematical values.
pub open spec fn answer_view(r: Result<Vec<Transaction>, AppError>) -> Result<Seq<Transaction>, AppError> {
    match r {
        Ok(v) => Ok(v@),
        Err(e) => Err(e),
    }
}

/// Maps a repository listing to the command's answer: a repository message
/// becomes `AppError::Repository` with that message.
pub fn to_command_answer(listed: Result<Vec<Transaction>, String>) -> (r: Result<Vec<Transaction>, AppError>)
    ensures
        answer_view(r) == command_answer(listing_view(listed)),
{
    match listed {
        Ok(v) => Ok(v),
        Err(e) => Err(AppError::Repository(e)),
    }
}

/// Body of the `get_transactions` IPC command: lists the state's
/// transactions through the use case and maps a repository error into
/// `AppError::Repository`.
pub fn get_transactions(state: &AppState) -> (r: Result<Vec<Transaction>, AppError>)
    ensures
        answer_view(r) == command_answer(state.transaction_repo.listing().unwrap()),
        r is Ok,
        answer_view(r) == Ok::<Seq<Transaction>, AppError>(state.transaction_repo@),
{
    let repo: &InMemoryTransactionRepository = &state.transaction_repo;
    to_command_answer(list_transactions(repo))
}

} // verus!
