//! The lease market's operations on the wire: a tag byte, then the arguments.

use crate::error::Rejection;
use crate::wire::get_i64;
use crate::wire::get_u64;
use crate::wire::i64_at;
use crate::wire::u64_at;
use vstd::prelude::*;

verus! {

/// Arguments of listing a space for rent, or of withdrawing the listing.
#[derive(Clone, Copy, Debug, PartialEq, Eq)]
pub struct SetRentArgs {
    pub space_x: i64,
    pub space_y: i64,
    pub price: u64,
    pub min_duration: u64,
    pub max_duration: u64,
    pub max_timestamp: u64,
    pub create: bool,
}

impl SetRentArgs {
    /// Bytes of the encoded arguments.
    pub const LEN: usize = 49;

    /// The arguments that `data` stands for: all of `data`, and nothing but
    /// the fields in order.
    pub open spec fn parse(data: Seq<u8>) -> Option<SetRentArgs> {
        if data.len() == 49 && data[48] <= 1 {
            Some(
                SetRentArgs {
                    space_x: i64_at(data, 0),
                    space_y: i64_at(data, 8),
                    price: u64_at(data, 16),
                    min_duration: u64_at(data, 24),
                    max_duration: u64_at(data, 32),
                    max_timestamp: u64_at(data, 40),
                    create: data[48] == 1,
                },
            )
        } else {
            None
        }
    }

    /// Decodes the arguments; refuses bytes that are too few, too many or no
    /// encoding of a field.
    pub fn try_from_slice(data: &[u8]) -> (r: Option<SetRentArgs>)
        ensures
            r == SetRentArgs::parse(data@),
    {
        if data.len() != 49 || data[48] > 1 {
            return None;
        }
        Some(
            SetRentArgs {
                space_x: get_i64(data, 0),
                space_y: get_i64(data, 8),
                price: get_u64(data, 16),
                min_duration: get_u64(data, 24),
                max_duration: get_u64(data, 32),
                max_timestamp: get_u64(data, 40),
                create: data[48] == 1,
            },
        )
    }
}

/// Arguments of renting a listed space.
#[derive(Clone, Copy, Debug, PartialEq, Eq)]
pub struct AcceptRentArgs {
    pub space_x: i64,
    pub space_y: i64,
    pub price: u64,
    pub rent_time: u64,
}

impl AcceptRentArgs {
    /// Bytes of the encoded arguments.
    pub const LEN: usize = 32;

    /// The arguments that `data` stands for: all of `data`, and nothing but
    /// the fields in order.
    pub open spec fn parse(data: Seq<u8>) -> Option<AcceptRentArgs> {
        if data.len() == 32 {
            Some(
                AcceptRentArgs {
                    space_x: i64_at(data, 0),
                    space_y: i64_at(data, 8),
                    price: u64_at(data, 16),
                    rent_time: u64_at(data, 24),
                },
            )
        } else {
            None
        }
    }

    /// Decodes the arguments; refuses bytes that are too few, too many or no
    /// encoding of a field.
    pub fn try_from_slice(data: &[u8]) -> (r: Option<AcceptRentArgs>)
        ensures
            r == AcceptRentArgs::parse(data@),
    {
        if data.len() != 32 {
            return None;
        }
        Some(
            AcceptRentArgs {
                space_x: get_i64(data, 0),
                space_y: get_i64(data, 8),
                price: get_u64(data, 16),
                rent_time: get_u64(data, 24),
            },
        )
    }
}

/// The lease market's operations.
#[derive(Clone, Copy, Debug, PartialEq, Eq, Structural)]
pub enum RentInstruction {
    /// List a space for rent, or withdraw the listing.
    SetRent,
    /// Rent a listed space.
    AcceptRent,
}

impl RentInstruction {
    /// The operation that a tag byte selects.
    pub open spec fn of_tag(tag: u8) -> Result<RentInstruction, Rejection> {
        if tag == 0 {
            Ok(RentInstruction::SetRent)
        } else if tag == 1 {
            Ok(RentInstruction::AcceptRent)
        } else {
            Err(Rejection::InvalidInstructionData)
        }
    }

    /// Selects the operation by its tag byte; an unknown tag is rejected as
    /// an invalid instruction.
    pub fn unpack(tag: &u8) -> (r: Result<RentInstruction, Rejection>)
        ensures
            r == RentInstruction::of_tag(*tag),
    {
        match *tag {
            0 => Ok(RentInstruction::SetRent),
            1 => Ok(RentInstruction::AcceptRent),
            _ => Err(Rejection::InvalidInstructionData),
        }
    }
}

} // verus!
