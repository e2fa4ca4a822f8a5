//! The registry's operations on the wire: a tag byte, then the arguments.

use crate::error::Rejection;
use crate::wire::array_of;
use crate::wire::get_array;
use crate::wire::get_i64;
use crate::wire::get_u64;
use crate::wire::i64_at;
use crate::wire::u64_at;
use vstd::prelude::*;

verus! {

/// Arguments of the creation of a base: none.
#[derive(Clone, Copy, Debug, PartialEq, Eq)]
pub struct InitBaseArgs {}

impl InitBaseArgs {
    /// Bytes of the encoded arguments.
    pub const LEN: usize = 0;

    /// The arguments that `data` stands for: all of `data`, and nothing but
    /// the fields in order.
    pub open spec fn parse(data: Seq<u8>) -> Option<InitBaseArgs> {
        if data.len() == 0 {
            Some(InitBaseArgs {  })
        } else {
            None
        }
    }

    /// Decodes the arguments; refuses bytes that are too few, too many or no
    /// encoding of a field.
    pub fn try_from_slice(data: &[u8]) -> (r: Option<InitBaseArgs>)
        ensures
            r == InitBaseArgs::parse(data@),
    {
        if data.len() != 0 {
            return None;
        }
        Some(InitBaseArgs {  })
    }
}

/// Arguments of the creation of a neighborhood.
#[derive(Clone, Copy, Debug, PartialEq, Eq)]
pub struct InitNeighborhoodMetadataArgs {
    pub neighborhood_x: i64,
    pub neighborhood_y: i64,
    pub price: u64,
    pub neighborhood_name: [u8; 64],
}

impl InitNeighborhoodMetadataArgs {
    /// Bytes of the encoded arguments.
    pub const LEN: usize = 88;

    /// The arguments that `data` stands for: all of `data`, and nothing but
    /// the fields in order.
    pub open spec fn parse(data: Seq<u8>) -> Option<InitNeighborhoodMetadataArgs> {
        if data.len() == 88 {
            Some(
                InitNeighborhoodMetadataArgs {
                    neighborhood_x: i64_at(data, 0),
                    neighborhood_y: i64_at(data, 8),
                    price: u64_at(data, 16),
                    neighborhood_name: array_of::<64>(data.subrange(24, 88)),
                },
            )
        } else {
            None
        }
    }

    /// Decodes the arguments; refuses bytes that are too few, too many or no
    /// encoding of a field.
    pub fn try_from_slice(data: &[u8]) -> (r: Option<InitNeighborhoodMetadataArgs>)
        ensures
            r == InitNeighborhoodMetadataArgs::parse(data@),
    {
        if data.len() != 88 {
            return None;
        }
        Some(
            InitNeighborhoodMetadataArgs {
                neighborhood_x: get_i64(data, 0),
                neighborhood_y: get_i64(data, 8),
                price: get_u64(data, 16),
                neighborhood_name: get_array::<64>(data, 24),
            },
        )
    }
}

/// Arguments of the registration of a space.
#[derive(Clone, Copy, Debug, PartialEq, Eq)]
pub struct InitSpaceMetadataArgs {
    pub space_x: i64,
    pub space_y: i64,
}

impl InitSpaceMetadataArgs {
    /// Bytes of the encoded arguments.
    pub const LEN: usize = 16;

    /// The arguments that `data` stands for: all of `data`, and nothing but
    /// the fields in order.
    pub open spec fn parse(data: Seq<u8>) -> Option<InitSpaceMetadataArgs> {
        if data.len() == 16 {
            Some(
                InitSpaceMetadataArgs {
                    space_x: i64_at(data, 0),
                    space_y: i64_at(data, 8),
                },
            )
        } else {
            None
        }
    }

    /// Decodes the arguments; refuses bytes that are too few, too many or no
    /// encoding of a field.
    pub fn try_from_slice(data: &[u8]) -> (r: Option<InitSpaceMetadataArgs>)
        ensures
            r == InitSpaceMetadataArgs::parse(data@),
    {
        if data.len() != 16 {
            return None;
        }
        Some(
            InitSpaceMetadataArgs {
                space_x: get_i64(data, 0),
                space_y: get_i64(data, 8),
            },
        )
    }
}

/// Arguments of listing a space for sale, or of withdrawing the listing.
#[derive(Clone, Copy, Debug, PartialEq, Eq)]
pub struct ChangeOfferArgs {
    pub space_x: i64,
    pub space_y: i64,
    pub price: u64,
    pub create: bool,
}

impl ChangeOfferArgs {
    /// Bytes of the encoded arguments.
    pub const LEN: usize = 25;

    /// The arguments that `data` stands for: all of `data`, and nothing but
    /// the fields in order.
    pub open spec fn parse(data: Seq<u8>) -> Option<ChangeOfferArgs> {
        if data.len() == 25 && data[24] <= 1 {
            Some(
                ChangeOfferArgs {
                    space_x: i64_at(data, 0),
                    space_y: i64_at(data, 8),
                    price: u64_at(data, 16),
                    create: data[24] == 1,
                },
            )
        } else {
            None
        }
    }

    /// Decodes the arguments; refuses bytes that are too few, too many or no
    /// encoding of a field.
    pub fn try_from_slice(data: &[u8]) -> (r: Option<ChangeOfferArgs>)
        ensures
            r == ChangeOfferArgs::parse(data@),
    {
        if data.len() != 25 || data[24] > 1 {
            return None;
        }
        Some(
            ChangeOfferArgs {
                space_x: get_i64(data, 0),
                space_y: get_i64(data, 8),
                price: get_u64(data, 16),
                create: data[24] == 1,
            },
        )
    }
}

/// Arguments of buying a listed space.
#[derive(Clone, Copy, Debug, PartialEq, Eq)]
pub struct AcceptOfferArgs {
    pub space_x: i64,
    pub space_y: i64,
    pub price: u64,
}

impl AcceptOfferArgs {
    /// Bytes of the encoded arguments.
    pub const LEN: usize = 24;

    /// The arguments that `data` stands for: all of `data`, and nothing but
    /// the fields in order.
    pub open spec fn parse(data: Seq<u8>) -> Option<AcceptOfferArgs> {
        if data.len() == 24 {
            Some(
                AcceptOfferArgs {
                    space_x: i64_at(data, 0),
                    space_y: i64_at(data, 8),
                    price: u64_at(data, 16),
                },
            )
        } else {
            None
        }
    }

    /// Decodes the arguments; refuses bytes that are too few, too many or no
    /// encoding of a field.
    pub fn try_from_slice(data: &[u8]) -> (r: Option<AcceptOfferArgs>)
        ensures
            r == AcceptOfferArgs::parse(data@),
    {
        if data.len() != 24 {
            return None;
        }
        Some(
            AcceptOfferArgs {
                space_x: get_i64(data, 0),
                space_y: get_i64(data, 8),
                price: get_u64(data, 16),
            },
        )
    }
}

/// Arguments of the creation of a neighborhood's vouchers.
#[derive(Clone, Copy, Debug, PartialEq, Eq)]
pub struct InitVoucherSystemArgs {
    pub neighborhood_x: i64,
    pub neighborhood_y: i64,
}

impl InitVoucherSystemArgs {
    /// Bytes of the encoded arguments.
    pub const LEN: usize = 16;

    /// The arguments that `data` stands for: all of `data`, and nothing but
    /// the fields in order.
    pub open spec fn parse(data: Seq<u8>) -> Option<InitVoucherSystemArgs> {
        if data.len() == 16 {
            Some(
                InitVoucherSystemArgs {
                    neighborhood_x: i64_at(data, 0),
                    neighborhood_y: i64_at(data, 8),
                },
            )
        } else {
            None
        }
    }

    /// Decodes the arguments; refuses bytes that are too few, too many or no
    /// encoding of a field.
    pub fn try_from_slice(data: &[u8]) -> (r: Option<InitVoucherSystemArgs>)
        ensures
            r == InitVoucherSystemArgs::parse(data@),
    {
        if data.len() != 16 {
            return None;
        }
        Some(
            InitVoucherSystemArgs {
                neighborhood_x: get_i64(data, 0),
                neighborhood_y: get_i64(data, 8),
            },
        )
    }
}

/// Arguments of giving up the founder's fee waiver: none.
#[derive(Clone, Copy, Debug, PartialEq, Eq)]
pub struct RevokeAuthorityPrivilegesArgs {}

impl RevokeAuthorityPrivilegesArgs {
    /// Bytes of the encoded arguments.
    pub const LEN: usize = 0;

    /// The arguments that `data` stands for: all of `data`, and nothing but
    /// the fields in order.
    pub open spec fn parse(data: Seq<u8>) -> Option<RevokeAuthorityPrivilegesArgs> {
        if data.len() == 0 {
            Some(RevokeAuthorityPrivilegesArgs {  })
        } else {
            None
        }
    }

    /// Decodes the arguments; refuses bytes that are too few, too many or no
    /// encoding of a field.
    pub fn try_from_slice(data: &[u8]) -> (r: Option<RevokeAuthorityPrivilegesArgs>)
        ensures
            r == RevokeAuthorityPrivilegesArgs::parse(data@),
    {
        if data.len() != 0 {
            return None;
        }
        Some(RevokeAuthorityPrivilegesArgs {  })
    }
}

/// Arguments of handing the base to a new authority: none.
#[derive(Clone, Copy, Debug, PartialEq, Eq)]
pub struct UpdateAuthorityArgs {}

impl UpdateAuthorityArgs {
    /// Bytes of the encoded arguments.
    pub const LEN: usize = 0;

    /// The arguments that `data` stands for: all of `data`, and nothing but
    /// the fields in order.
    pub open spec fn parse(data: Seq<u8>) -> Option<UpdateAuthorityArgs> {
        if data.len() == 0 {
            Some(UpdateAuthorityArgs {  })
        } else {
            None
        }
    }

    /// Decodes the arguments; refuses bytes that are too few, too many or no
    /// encoding of a field.
    pub fn try_from_slice(data: &[u8]) -> (r: Option<UpdateAuthorityArgs>)
        ensures
            r == UpdateAuthorityArgs::parse(data@),
    {
        if data.len() != 0 {
            return None;
        }
        Some(UpdateAuthorityArgs {  })
    }
}

/// Arguments of rewriting the coordinates in a space's metadata.
#[derive(Clone, Copy, Debug, PartialEq, Eq)]
pub struct TempAddxyArgs {
    pub space_x: i64,
    pub space_y: i64,
}

impl TempAddxyArgs {
    /// Bytes of the encoded arguments.
    pub const LEN: usize = 16;

    /// The arguments that `data` stands for: all of `data`, and nothing but
    /// the fields in order.
    pub open spec fn parse(data: Seq<u8>) -> Option<TempAddxyArgs> {
        if data.len() == 16 {
            Some(
                TempAddxyArgs {
                    space_x: i64_at(data, 0),
                    space_y: i64_at(data, 8),
                },
            )
        } else {
            None
        }
    }

    /// Decodes the arguments; refuses bytes that are too few, too many or no
    /// encoding of a field.
    pub fn try_from_slice(data: &[u8]) -> (r: Option<TempAddxyArgs>)
        ensures
            r == TempAddxyArgs::parse(data@),
    {
        if data.len() != 16 {
            return None;
        }
        Some(
            TempAddxyArgs {
                space_x: get_i64(data, 0),
                space_y: get_i64(data, 8),
            },
        )
    }
}

/// Arguments of renaming a neighborhood.
#[derive(Clone, Copy, Debug, PartialEq, Eq)]
pub struct ChangeNeighborhoodNameArgs {
    pub neighborhood_x: i64,
    pub neighborhood_y: i64,
    pub neighborhood_name: [u8; 64],
}

impl ChangeNeighborhoodNameArgs {
    /// Bytes of the encoded arguments.
    pub const LEN: usize = 80;

    /// The arguments that `data` stands for: all of `data`, and nothing but
    /// the fields in order.
    pub open spec fn parse(data: Seq<u8>) -> Option<ChangeNeighborhoodNameArgs> {
        if data.len() == 80 {
            Some(
                ChangeNeighborhoodNameArgs {
                    neighborhood_x: i64_at(data, 0),
                    neighborhood_y: i64_at(data, 8),
                    neighborhood_name: array_of::<64>(data.subrange(16, 80)),
                },
            )
        } else {
            None
        }
    }

    /// Decodes the arguments; refuses bytes that are too few, too many or no
    /// encoding of a field.
    pub fn try_from_slice(data: &[u8]) -> (r: Option<ChangeNeighborhoodNameArgs>)
        ensures
            r == ChangeNeighborhoodNameArgs::parse(data@),
    {
        if data.len() != 80 {
            return None;
        }
        Some(
            ChangeNeighborhoodNameArgs {
                neighborhood_x: get_i64(data, 0),
                neighborhood_y: get_i64(data, 8),
                neighborhood_name: get_array::<64>(data, 16),
            },
        )
    }
}

/// The registry's operations.
#[derive(Clone, Copy, Debug, PartialEq, Eq, Structural)]
pub enum SpaceInstruction {
    /// Create a base and its neighborhood list.
    InitBase,
    /// Create a neighborhood.
    InitNeighborhoodMetadata,
    /// Register a space.
    InitSpaceMetadata,
    /// List a space for sale, or withdraw the listing.
    ChangeOffer,
    /// Buy a listed space.
    AcceptOffer,
    /// Create a neighborhood's vouchers.
    InitVoucherSystem,
    /// Give up the founder's fee waiver.
    RevokeAuthorityPrivileges,
    /// Hand the base to a new authority.
    UpdateAuthority,
    /// Rename a neighborhood.
    ChangeNeighborhoodName,
    /// Rewrite the coordinates in a space's metadata.
    TempAddxy,
}

impl SpaceInstruction {
    /// The operation that a tag byte selects.
    pub open spec fn of_tag(tag: u8) -> Result<SpaceInstruction, Rejection> {
        if tag == 0 {
            Ok(SpaceInstruction::InitBase)
        } else if tag == 1 {
            Ok(SpaceInstruction::InitNeighborhoodMetadata)
        } else if tag == 2 {
            Ok(SpaceInstruction::InitSpaceMetadata)
        } else if tag == 3 {
            Ok(SpaceInstruction::ChangeOffer)
        } else if tag == 4 {
            Ok(SpaceInstruction::AcceptOffer)
        } else if tag == 5 {
            Ok(SpaceInstruction::InitVoucherSystem)
        } else if tag == 6 {
            Ok(SpaceInstruction::RevokeAuthorityPrivileges)
        } else if tag == 7 {
            Ok(SpaceInstruction::UpdateAuthority)
        } else if tag == 8 {
            Ok(SpaceInstruction::ChangeNeighborhoodName)
        } else if tag == 9 {
            Ok(SpaceInstruction::TempAddxy)
        } else {
            Err(Rejection::InvalidInstructionData)
        }
    }

    /// Selects the operation by its tag byte; an unknown tag is rejected as
    /// an invalid instruction.
    pub fn unpack(tag: &u8) -> (r: Result<SpaceInstruction, Rejection>)
        ensures
            r == SpaceInstruction::of_tag(*tag),
    {
        match *tag {
            0 => Ok(SpaceInstruction::InitBase),
            1 => Ok(SpaceInstruction::InitNeighborhoodMetadata),
            2 => Ok(SpaceInstruction::InitSpaceMetadata),
            3 => Ok(SpaceInstruction::ChangeOffer),
            4 => Ok(SpaceInstruction::AcceptOffer),
            5 => Ok(SpaceInstruction::InitVoucherSystem),
            6 => Ok(SpaceInstruction::RevokeAuthorityPrivileges),
            7 => Ok(SpaceInstruction::UpdateAuthority),
            8 => Ok(SpaceInstruction::ChangeNeighborhoodName),
            9 => Ok(SpaceInstruction::TempAddxy),
            _ => Err(Rejection::InvalidInstructionData),
        }
    }
}

} // verus!
