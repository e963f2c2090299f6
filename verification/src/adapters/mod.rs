pub mod csv_reader;
pub mod in_memory_account_repo;
pub mod in_memory_dispute_repo;
pub mod in_memory_transaction_repo;
