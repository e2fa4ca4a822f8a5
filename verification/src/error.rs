//! Why an operation was rejected.

use vstd::prelude::*;

verus! {

/// Rejections specific to this system.
#[derive(Clone, Copy, Debug, PartialEq, Eq, Structural)]
pub enum CustomError {
    WrongAuthority,
    UnterminatedRent,
    MissingTokenOwner,
    AccountFrozen,
    MissingFreezeAuth,
    WrongAuthToFreeze,
    WrongColorAccountPDA,
    WrongMetadataAccountPDA,
    OwnerAccountMismatch,
    PublicKeyMismatch,
    UninitializedAccount,
    IncorrectOwner,
    MintMismatch,
    NotSwappable,
    InvalidListing,
    ColorClusterAlreadyInitialized,
}

impl CustomError {
    /// Position of the variant in the declaration, from zero.
    pub open spec fn spec_code(self) -> u32 {
        match self {
            CustomError::WrongAuthority => 0,
            CustomError::UnterminatedRent => 1,
            CustomError::MissingTokenOwner => 2,
            CustomError::AccountFrozen => 3,
            CustomError::MissingFreezeAuth => 4,
            CustomError::WrongAuthToFreeze => 5,
            CustomError::WrongColorAccountPDA => 6,
            CustomError::WrongMetadataAccountPDA => 7,
            CustomError::OwnerAccountMismatch => 8,
            CustomError::PublicKeyMismatch => 9,
            CustomError::UninitializedAccount => 10,
            CustomError::IncorrectOwner => 11,
            CustomError::MintMismatch => 12,
            CustomError::NotSwappable => 13,
            CustomError::InvalidListing => 14,
            CustomError::ColorClusterAlreadyInitialized => 15,
        }
    }

    /// The integer under which the host reports this rejection.
    pub fn code(&self) -> (c: u32)
        ensures
            c == self.spec_code(),
            c < 16,
    {
        match self {
            CustomError::WrongAuthority => 0,
            CustomError::UnterminatedRent => 1,
            CustomError::MissingTokenOwner => 2,
            CustomError::AccountFrozen => 3,
            CustomError::MissingFreezeAuth => 4,
            CustomError::WrongAuthToFreeze => 5,
            CustomError::WrongColorAccountPDA => 6,
            CustomError::WrongMetadataAccountPDA => 7,
            CustomError::OwnerAccountMismatch => 8,
            CustomError::PublicKeyMismatch => 9,
            CustomError::UninitializedAccount => 10,
            CustomError::IncorrectOwner => 11,
            CustomError::MintMismatch => 12,
            CustomError::NotSwappable => 13,
            CustomError::InvalidListing => 14,
            CustomError::ColorClusterAlreadyInitialized => 15,
        }
    }

    /// The variant's name.
    pub open spec fn spec_message(self) -> Seq<char> {
        match self {
            CustomError::WrongAuthority => "WrongAuthority"@,
            CustomError::UnterminatedRent => "UnterminatedRent"@,
            CustomError::MissingTokenOwner => "MissingTokenOwner"@,
            CustomError::AccountFrozen => "AccountFrozen"@,
            CustomError::MissingFreezeAuth => "MissingFreezeAuth"@,
            CustomError::WrongAuthToFreeze => "WrongAuthToFreeze"@,
            CustomError::WrongColorAccountPDA => "WrongColorAccountPDA"@,
            CustomError::WrongMetadataAccountPDA => "WrongMetadataAccountPDA"@,
            CustomError::OwnerAccountMismatch => "OwnerAccountMismatch"@,
            CustomError::PublicKeyMismatch => "PublicKeyMismatch"@,
            CustomError::UninitializedAccount => "UninitializedAccount"@,
            CustomError::IncorrectOwner => "IncorrectOwner"@,
            CustomError::MintMismatch => "MintMismatch"@,
            CustomError::NotSwappable => "NotSwappable"@,
            CustomError::InvalidListing => "InvalidListing"@,
            CustomError::ColorClusterAlreadyInitialized => "ColorClusterAlreadyInitialized"@,
        }
    }

    /// The variant's name, as the host logs it.
    pub fn message(&self) -> (s: String)
        ensures
            s@ == self.spec_message(),
    {
        match self {
            CustomError::WrongAuthority => "WrongAuthority".to_owned(),
            CustomError::UnterminatedRent => "UnterminatedRent".to_owned(),
            CustomError::MissingTokenOwner => "MissingTokenOwner".to_owned(),
            CustomError::AccountFrozen => "AccountFrozen".to_owned(),
            CustomError::MissingFreezeAuth => "MissingFreezeAuth".to_owned(),
            CustomError::WrongAuthToFreeze => "WrongAuthToFreeze".to_owned(),
            CustomError::WrongColorAccountPDA => "WrongColorAccountPDA".to_owned(),
            CustomError::WrongMetadataAccountPDA => "WrongMetadataAccountPDA".to_owned(),
            CustomError::OwnerAccountMismatch => "OwnerAccountMismatch".to_owned(),
            CustomError::PublicKeyMismatch => "PublicKeyMismatch".to_owned(),
            CustomError::UninitializedAccount => "UninitializedAccount".to_owned(),
            CustomError::IncorrectOwner => "IncorrectOwner".to_owned(),
            CustomError::MintMismatch => "MintMismatch".to_owned(),
            CustomError::NotSwappable => "NotSwappable".to_owned(),
            CustomError::InvalidListing => "InvalidListing".to_owned(),
            CustomError::ColorClusterAlreadyInitialized => "ColorClusterAlreadyInitialized".to_owned(),
        }
    }
}

/// Every way in which an operation can be refused. A rejection aborts the
/// whole operation: no record is written and no ledger effect is issued.
#[derive(Clone, Copy, Debug, PartialEq, Eq, Structural)]
pub enum Rejection {
    /// A record that must be a fixed record of the host is another.
    InvalidArgument,
    /// The instruction bytes or its arguments break a rule.
    InvalidInstructionData,
    /// A record's contents break a rule.
    InvalidAccountData,
    /// A required identity did not authorize the operation.
    MissingRequiredSignature,
    /// A record that must be fresh is already populated.
    AccountAlreadyInitialized,
    /// Fewer records were handed over than the operation reads.
    NotEnoughAccountKeys,
    /// The caller is not the identity that the record names.
    IllegalOwner,
    /// A derivation was given too many seeds, or one that is too long.
    MaxSeedLengthExceeded,
    /// The seeds derive no valid location.
    InvalidSeeds,
    /// The bytes behind the tag are not the operation's arguments.
    ArgumentsUnreadable,
    /// A record's bytes do not decode.
    RecordUnreadable,
    /// A record has no room for what must be written into it.
    RecordTooSmall,
    /// A rejection specific to this system.
    Custom(CustomError),
}

} // verus!
