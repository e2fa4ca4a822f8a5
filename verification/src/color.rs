//! The canvas: per neighborhood, a bounded log of frames, each a block of
//! color cells.

pub mod instruction;
pub mod processor;
pub mod state;
