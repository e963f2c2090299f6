pub mod laws;
pub mod rejection;
pub mod transaction_manager;
pub mod use_cases;
