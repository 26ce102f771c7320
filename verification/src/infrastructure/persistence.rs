pub mod in_memory_transaction_repository;
