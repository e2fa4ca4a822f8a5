//! The lease market: fixed-term rental of spaces.

pub mod instruction;
pub mod processor;
pub mod state;
