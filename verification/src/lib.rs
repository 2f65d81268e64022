pub mod account;
pub mod address;
pub mod command;
pub mod error;
pub mod instruction;
pub mod source;
pub mod transaction;
