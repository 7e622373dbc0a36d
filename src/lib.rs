pub mod account;
pub mod decimal;
pub mod engine;
pub mod laws;
pub mod transaction;
