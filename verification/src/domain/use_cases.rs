pub mod list_transactions;
