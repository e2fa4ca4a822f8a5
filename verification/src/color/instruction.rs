//! The canvas operations on the wire: a tag byte, then the arguments.

use crate::error::Rejection;
use crate::wire::get_i16;
use crate::wire::get_i64;
use crate::wire::get_u64;
use crate::wire::i16_at;
use crate::wire::i64_at;
use crate::wire::u64_at;
use vstd::prelude::*;

verus! {

/// Arguments of adding a frame to a neighborhood.
#[derive(Clone, Copy, Debug, PartialEq, Eq)]
pub struct InitFrameArgs {
    pub neighborhood_x: i64,
    pub neighborhood_y: i64,
}

impl InitFrameArgs {
    /// Bytes of the encoded arguments.
    pub const LEN: usize = 16;

    /// The arguments that `data` stands for: all of `data`, and nothing but
    /// the fields in order.
    pub open spec fn parse(data: Seq<u8>) -> Option<InitFrameArgs> {
        if data.len() == 16 {
            Some(
                InitFrameArgs {
                    neighborhood_x: i64_at(data, 0),
                    neighborhood_y: i64_at(data, 8),
                },
            )
        } else {
            None
        }
    }

    /// Decodes the arguments; refuses bytes that are too few, too many or no
    /// encoding of a field.
    pub fn try_from_slice(data: &[u8]) -> (r: Option<InitFrameArgs>)
        ensures
            r == InitFrameArgs::parse(data@),
    {
        if data.len() != 16 {
            return None;
        }
        Some(
            InitFrameArgs {
                neighborhood_x: get_i64(data, 0),
                neighborhood_y: get_i64(data, 8),
            },
        )
    }
}

/// Arguments of coloring a space in one frame.
#[derive(Clone, Copy, Debug, PartialEq, Eq)]
pub struct ChangeColorArgs {
    pub space_x: i64,
    pub space_y: i64,
    pub frame: u64,
    pub r: u8,
    pub g: u8,
    pub b: u8,
}

impl ChangeColorArgs {
    /// Bytes of the encoded arguments.
    pub const LEN: usize = 27;

    /// The arguments that `data` stands for: all of `data`, and nothing but
    /// the fields in order.
    pub open spec fn parse(data: Seq<u8>) -> Option<ChangeColorArgs> {
        if data.len() == 27 {
            Some(
                ChangeColorArgs {
                    space_x: i64_at(data, 0),
                    space_y: i64_at(data, 8),
                    frame: u64_at(data, 16),
                    r: data[24],
                    g: data[25],
                    b: data[26],
                },
            )
        } else {
            None
        }
    }

    /// Decodes the arguments; refuses bytes that are too few, too many or no
    /// encoding of a field.
    pub fn try_from_slice(data: &[u8]) -> (r: Option<ChangeColorArgs>)
        ensures
            r == ChangeColorArgs::parse(data@),
    {
        if data.len() != 27 {
            return None;
        }
        Some(
            ChangeColorArgs {
                space_x: get_i64(data, 0),
                space_y: get_i64(data, 8),
                frame: get_u64(data, 16),
                r: data[24],
                g: data[25],
                b: data[26],
            },
        )
    }
}

/// Arguments of coloring a space in one frame, in narrow integers.
#[derive(Clone, Copy, Debug, PartialEq, Eq)]
pub struct ChangeColorBriefArgs {
    pub space_x: i16,
    pub space_y: i16,
    pub frame: u8,
    pub r: u8,
    pub g: u8,
    pub b: u8,
}

impl ChangeColorBriefArgs {
    /// Bytes of the encoded arguments.
    pub const LEN: usize = 8;

    /// The arguments that `data` stands for: all of `data`, and nothing but
    /// the fields in order.
    pub open spec fn parse(data: Seq<u8>) -> Option<ChangeColorBriefArgs> {
        if data.len() == 8 {
            Some(
                ChangeColorBriefArgs {
                    space_x: i16_at(data, 0),
                    space_y: i16_at(data, 2),
                    frame: data[4],
                    r: data[5],
                    g: data[6],
                    b: data[7],
                },
            )
        } else {
            None
        }
    }

    /// Decodes the arguments; refuses bytes that are too few, too many or no
    /// encoding of a field.
    pub fn try_from_slice(data: &[u8]) -> (r: Option<ChangeColorBriefArgs>)
        ensures
            r == ChangeColorBriefArgs::parse(data@),
    {
        if data.len() != 8 {
            return None;
        }
        Some(
            ChangeColorBriefArgs {
                space_x: get_i16(data, 0),
                space_y: get_i16(data, 2),
                frame: data[4],
                r: data[5],
                g: data[6],
                b: data[7],
            },
        )
    }
}

/// The canvas operations.
#[derive(Clone, Copy, Debug, PartialEq, Eq, Structural)]
pub enum ColorInstruction {
    /// Add a frame to a neighborhood.
    InitFrame,
    /// Color a space in one frame.
    ChangeColor,
    /// Color a space in one frame, with narrow arguments.
    ChangeColorBrief,
}

impl ColorInstruction {
    /// The operation that a tag byte selects.
    pub open spec fn of_tag(tag: u8) -> Result<ColorInstruction, Rejection> {
        if tag == 0 {
            Ok(ColorInstruction::InitFrame)
        } else if tag == 1 {
            Ok(ColorInstruction::ChangeColor)
        } else if tag == 2 {
            Ok(ColorInstruction::ChangeColorBrief)
        } else {
            Err(Rejection::InvalidInstructionData)
        }
    }

    /// Selects the operation by its tag byte; an unknown tag is rejected as
    /// an invalid instruction.
    pub fn unpack(tag: &u8) -> (r: Result<ColorInstruction, Rejection>)
        ensures
            r == ColorInstruction::of_tag(*tag),
    {
        match *tag {
            0 => Ok(ColorInstruction::InitFrame),
            1 => Ok(ColorInstruction::ChangeColor),
            2 => Ok(ColorInstruction::ChangeColorBrief),
            _ => Err(Rejection::InvalidInstructionData),
        }
    }
}

} // verus!
