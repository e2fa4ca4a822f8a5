//! The seeds of this system's records: the base of the world instance, a
//! fixed domain tag, and the record's logical key.

use crate::address::check_discovered;
use crate::address::check_location;
use crate::address::discovery_checks;
use crate::address::location_checks;
use crate::address::seed_list;
use crate::error::Rejection;
use crate::key::Key;
use crate::wire::i64_le;
use crate::wire::u64_le;
use vstd::prelude::*;
use vstd::string::StrSliceExecFns;
use vstd::string::StringSliceAdditionalSpecFns;

verus! {

/// The kinds of derived location, each with its own tag.
#[derive(Clone, Copy, Debug, PartialEq, Eq, Structural)]
pub enum Domain {
    NeighborhoodMetadata,
    NeighborhoodList,
    VoucherMint,
    VoucherSink,
    SpaceMetadata,
    SellDelegate,
    NeighborhoodFrameBase,
    NeighborhoodFramePointer,
    RentAccount,
}

impl Domain {
    /// The tag's bytes.
    pub open spec fn tag(self) -> Seq<u8> {
        match self {
            Domain::NeighborhoodMetadata => "neighborhood_metadata".spec_bytes(),
            Domain::NeighborhoodList => "neighborhood_list".spec_bytes(),
            Domain::VoucherMint => "voucher_mint".spec_bytes(),
            Domain::VoucherSink => "voucher_sink".spec_bytes(),
            Domain::SpaceMetadata => "space_metadata".spec_bytes(),
            Domain::SellDelegate => "sell_delegate".spec_bytes(),
            Domain::NeighborhoodFrameBase => "neighborhood_frame_base".spec_bytes(),
            Domain::NeighborhoodFramePointer => "neighborhood_frame_pointer".spec_bytes(),
            Domain::RentAccount => "rent_account".spec_bytes(),
        }
    }

    /// The tag's bytes.
    pub fn tag_bytes(&self) -> (v: Vec<u8>)
        ensures
            v@ == self.tag(),
    {
        match self {
            Domain::NeighborhoodMetadata => "neighborhood_metadata".as_bytes_vec(),
            Domain::NeighborhoodList => "neighborhood_list".as_bytes_vec(),
            Domain::VoucherMint => "voucher_mint".as_bytes_vec(),
            Domain::VoucherSink => "voucher_sink".as_bytes_vec(),
            Domain::SpaceMetadata => "space_metadata".as_bytes_vec(),
            Domain::SellDelegate => "sell_delegate".as_bytes_vec(),
            Domain::NeighborhoodFrameBase => "neighborhood_frame_base".as_bytes_vec(),
            Domain::NeighborhoodFramePointer => "neighborhood_frame_pointer".as_bytes_vec(),
            Domain::RentAccount => "rent_account".as_bytes_vec(),
        }
    }
}

/// What tells the records of one domain apart.
#[derive(Clone, Copy, Debug, PartialEq, Eq, Structural)]
pub enum RecordKey {
    /// The one record of its domain under a base.
    Whole,
    /// The record of the neighborhood or space at these coordinates.
    Coordinates(i64, i64),
    /// The record of one frame of the neighborhood at these coordinates.
    Frame(i64, i64, u64),
}

impl RecordKey {
    /// The seeds that the key contributes.
    pub open spec fn seeds(self) -> Seq<Seq<u8>> {
        match self {
            RecordKey::Whole => seq![],
            RecordKey::Coordinates(x, y) => seq![i64_le(x), i64_le(y)],
            RecordKey::Frame(x, y, index) => seq![i64_le(x), i64_le(y), u64_le(index)],
        }
    }
}

/// A record's logical address: everything its location is derived from but
/// the deriving authority and the disambiguation byte.
#[derive(Clone, Copy, Debug, PartialEq, Eq)]
pub struct Locator {
    pub base: Key,
    pub domain: Domain,
    pub key: RecordKey,
}

/// A derived location that authorizes an effect: its logical address and its
/// disambiguation byte.
#[derive(Clone, Copy, Debug, PartialEq, Eq)]
pub struct Signer {
    pub locator: Locator,
    pub disambiguator: u8,
}

impl Locator {
    /// The seeds of the record, without the disambiguation byte.
    pub open spec fn seeds(self) -> Seq<Seq<u8>> {
        seq![self.base@, self.domain.tag()] + self.key.seeds()
    }

    /// The seeds of the record, without the disambiguation byte.
    pub fn seed_bytes(&self) -> (v: Vec<Vec<u8>>)
        ensures
            seed_list(v@) == self.seeds(),
    {
        let mut v: Vec<Vec<u8>> = Vec::new();
        v.push(self.base.to_vec());
        v.push(self.domain.tag_bytes());
        match self.key {
            RecordKey::Whole => {},
            RecordKey::Coordinates(x, y) => {
                v.push(vstd::bytes::u64_to_le_bytes(x as u64));
                v.push(vstd::bytes::u64_to_le_bytes(y as u64));
            },
            RecordKey::Frame(x, y, index) => {
                v.push(vstd::bytes::u64_to_le_bytes(x as u64));
                v.push(vstd::bytes::u64_to_le_bytes(y as u64));
                v.push(vstd::bytes::u64_to_le_bytes(index));
            },
        }
        assert(seed_list(v@) =~= self.seeds());
        v
    }

    /// Whether `claimed` is this record's location under `authority` with the
    /// stored disambiguation byte.
    pub open spec fn checks(self, authority: Seq<u8>, disambiguator: u8, claimed: Seq<u8>)
        -> Result<(), Rejection> {
        location_checks(authority, self.seeds(), disambiguator, claimed)
    }

    /// Whether `claimed` is the location that discovery finds for this record
    /// under `authority`, and with which disambiguation byte.
    pub open spec fn discovers(self, authority: Seq<u8>, claimed: Seq<u8>) -> Result<u8, Rejection> {
        discovery_checks(authority, self.seeds(), claimed)
    }

    /// Reconstructs the record's location under `authority` from the stored
    /// disambiguation byte and compares it with the caller-supplied one.
    pub fn check(&self, authority: &Key, disambiguator: u8, claimed: &Key) -> (r: Result<
        (),
        Rejection,
    >)
        ensures
            r == self.checks(authority@, disambiguator, claimed@),
    {
        let seeds = self.seed_bytes();
        check_location(authority, &seeds, disambiguator, claimed)
    }

    /// Discovers the record's location under `authority`, compares it with the
    /// caller-supplied one and returns the disambiguation byte to store.
    pub fn check_fresh(&self, authority: &Key, claimed: &Key) -> (r: Result<u8, Rejection>)
        ensures
            r == self.discovers(authority@, claimed@),
            r matches Ok(d) ==> self.checks(authority@, d, claimed@) == Ok::<(), Rejection>(()),
    {
        let seeds = self.seed_bytes();
        check_discovered(authority, &seeds, claimed)
    }
}

} // verus!
