//! The registry: bases, neighborhoods, spaces, the resale marketplace and the
//! voucher economy.

pub mod instruction;
pub mod processor;
pub mod state;
