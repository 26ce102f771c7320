pub mod transaction_repository;
