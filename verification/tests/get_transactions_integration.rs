use cheesy_money_lib::commands::transaction::{get_transactions, to_command_answer};
use cheesy_money_lib::domain::entities::transaction::Transaction;
use cheesy_money_lib::domain::repositories::transaction_repository::TransactionRepository;
use cheesy_money_lib::domain::use_cases::list_transactions::list_transactions;
use cheesy_money_lib::errors::AppError;
use cheesy_money_lib::infrastructure::persistence::in_memory_transaction_repository::InMemoryTransactionRepository;
use cheesy_money_lib::state::AppState;

fn make_transaction(id: &str, amount: i64, description: &str) -> Transaction {
    Transaction {
        id: id.to_string(),
        amount,
        description: description.to_string(),
    }
}

#[test]
fn get_transactions_returns_ok_empty_vec_at_init() {
    let state = AppState::new();

    let result = get_transactions(&state);

    assert!(result.is_ok(), "expected Ok, got Err: {:?}", result.as_ref().err());
    assert_eq!(result.unwrap().len(), 0, "expected empty Vec<Transaction> at init");
}

#[test]
fn two_independent_app_instances_each_start_with_empty_state() {
    let state_a = AppState::new();
    let state_b = AppState::new();

    let result_a = get_transactions(&state_a);
    let result_b = get_transactions(&state_b);

    assert_eq!(result_a.unwrap().len(), 0);
    assert_eq!(result_b.unwrap().len(), 0);
}

#[test]
fn get_transactions_no_args_invocation_is_the_only_valid_call_shape() {
    let state = AppState::new();
    let result = get_transactions(&state);
    assert!(result.is_ok());
}

#[test]
fn command_answer_passes_transactions_through() {
    let t1 = make_transaction("tx-001", 1000, "Grocery shopping");
    let t2 = make_transaction("tx-002", -500, "Coffee refund");
    let answer = to_command_answer(Ok(vec![t1.clone(), t2.clone()]));
    assert_eq!(answer, Ok(vec![t1, t2]));
}

#[test]
fn command_answer_wraps_repository_error() {
    let answer = to_command_answer(Err("disk full".to_string()));
    assert_eq!(answer, Err(AppError::Repository("disk full".to_string())));
}

#[test]
fn command_answer_wraps_empty_repository_error() {
    let answer = to_command_answer(Err(String::new()));
    assert_eq!(answer, Err(AppError::Repository(String::new())));
}

#[test]
fn app_error_displays_repository_message() {
    let err = AppError::Repository("disk full".to_string());
    assert_eq!(err.to_string(), "repository error: disk full");
    let empty = AppError::Repository(String::new());
    assert_eq!(empty.to_string(), "repository error: ");
}

#[test]
fn app_error_equality_follows_message() {
    assert_eq!(
        AppError::Repository("a".to_string()),
        AppError::Repository("a".to_string())
    );
    assert_ne!(
        AppError::Repository("a".to_string()),
        AppError::Repository("b".to_string())
    );
}

#[test]
fn in_memory_repo_default_is_empty() {
    let repo = InMemoryTransactionRepository::default();
    assert_eq!(repo.list(), Ok(vec![]));
}

#[test]
fn list_transactions_over_in_memory_repo_is_empty_at_init() {
    let repo = InMemoryTransactionRepository::new();
    assert_eq!(list_transactions(&repo), Ok(vec![]));
}

#[test]
fn app_state_repository_is_empty_at_init() {
    let state = AppState::new();
    assert_eq!(state.transaction_repo.list(), Ok(vec![]));
}

#[test]
fn transaction_inequality_on_each_field() {
    let base = make_transaction("tx-1", 5, "lunch");
    assert_ne!(base, make_transaction("tx-2", 5, "lunch"));
    assert_ne!(base, make_transaction("tx-1", 6, "lunch"));
    assert_ne!(base, make_transaction("tx-1", 5, "dinner"));
    assert_eq!(base, make_transaction("tx-1", 5, "lunch"));
}

#[test]
fn transaction_equality_is_symmetric_and_clone_equal() {
    let a = make_transaction("tx-sym", -1, "refund");
    let b = a.clone();
    assert_eq!(a, b);
    assert_eq!(b, a);
    assert_eq!(b.id, "tx-sym");
    assert_eq!(b.amount, -1);
    assert_eq!(b.description, "refund");
}

#[test]
fn list_transactions_accepts_dyn_repository() {
    let repo = InMemoryTransactionRepository::new();
    let dyn_repo: &dyn TransactionRepository = &repo;
    assert_eq!(list_transactions(dyn_repo), Ok(vec![]));
}
