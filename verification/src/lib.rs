//! Settlement and state-integrity rules for a shared, coordinate-addressed
//! world: an unbounded grid of ownable spaces grouped into fixed-size
//! neighborhoods, each with a multi-frame color canvas, a resale marketplace
//! and a fixed-term lease market.
//!
//! Every operation is a function from a snapshot of the records it was handed
//! to either a rejection or the ordered list of ledger effects and record
//! writes that the execution host must then carry out atomically.

pub mod address;
pub mod color;
pub mod error;
pub mod grid;
pub mod holding;
pub mod host;
pub mod key;
pub mod locator;
pub mod metadata;
pub mod name;
pub mod rent;
pub mod space;
pub mod validation_utils;
pub mod wire;
