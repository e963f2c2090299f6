pub mod account;
pub mod amount;
pub mod transaction;
