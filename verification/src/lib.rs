pub mod board;
pub mod contract;
pub mod error;
pub mod fairness;
pub mod msg;

pub use crate::error::ContractError;
