//! Derivation of location identifiers.
//!
//! A record's location is the hash of an authority, a list of seeds and one
//! disambiguation byte. Discovery scans the disambiguation bytes downwards for
//! the first whose hash is a valid location; reconstruction hashes once with a
//! stored byte. Every access to a record reconstructs its location and
//! compares it with the one the caller supplied.

use crate::error::CustomError;
use crate::error::Rejection;
use crate::key::Key;
use solana_program::pubkey::Pubkey;
use solana_program::pubkey::PubkeyError;
use vstd::prelude::*;

verus! {

/// Most seeds that one derivation takes, the disambiguation byte included.
pub const MAX_SEEDS: usize = 16;

/// Most bytes that one seed holds.
pub const MAX_SEED_LEN: usize = 32;

/// The location that the host's hash assigns to `seeds` under `authority`, or
/// `None` where the hash falls into the part of the key space that is
/// reserved for signing keys. Defined for seed lists within the limits.
pub uninterp spec fn program_address_hash(authority: Seq<u8>, seeds: Seq<Seq<u8>>) -> Option<
    Seq<u8>,
>;

/// The seeds as a list of byte strings.
pub open spec fn seed_list(seeds: Seq<Vec<u8>>) -> Seq<Seq<u8>> {
    Seq::new(seeds.len(), |i: int| seeds[i]@)
}

/// Whether a derivation accepts the seeds: at most `MAX_SEEDS` of them, each
/// of at most `MAX_SEED_LEN` bytes.
pub open spec fn seeds_fit(seeds: Seq<Seq<u8>>) -> bool {
    &&& seeds.len() <= MAX_SEEDS
    &&& forall|i: int| 0 <= i < seeds.len() ==> (#[trigger] seeds[i]).len() <= MAX_SEED_LEN
}

/// The location derived from `seeds` under `authority` without any search.
pub open spec fn derived_location(authority: Seq<u8>, seeds: Seq<Seq<u8>>) -> Result<
    Seq<u8>,
    Rejection,
> {
    if !seeds_fit(seeds) {
        Err(Rejection::MaxSeedLengthExceeded)
    } else {
        match program_address_hash(authority, seeds) {
            Some(location) => Ok(location),
            None => Err(Rejection::InvalidSeeds),
        }
    }
}

/// The seeds followed by the disambiguation byte as a seed of its own.
pub open spec fn with_disambiguator(seeds: Seq<Seq<u8>>, disambiguator: u8) -> Seq<Seq<u8>> {
    seeds.push(seq![disambiguator])
}

/// Reconstruction: the location of the record with the given seeds and stored
/// disambiguation byte.
pub open spec fn reconstruct_spec(authority: Seq<u8>, seeds: Seq<Seq<u8>>, disambiguator: u8)
    -> Result<Seq<u8>, Rejection> {
    derived_location(authority, with_disambiguator(seeds, disambiguator))
}

/// The first valid location among the disambiguation bytes `from`, `from - 1`,
/// down to 1, with its byte. The scan gives up at once on seeds that no
/// derivation accepts.
pub open spec fn scan_disambiguators(authority: Seq<u8>, seeds: Seq<Seq<u8>>, from: nat) -> Option<
    (Seq<u8>, u8),
>
    decreases from,
{
    if from == 0 || from > 255 {
        None
    } else {
        match reconstruct_spec(authority, seeds, from as u8) {
            Ok(location) => Some((location, from as u8)),
            Err(Rejection::InvalidSeeds) => scan_disambiguators(
                authority,
                seeds,
                (from - 1) as nat,
            ),
            Err(_) => None,
        }
    }
}

/// Discovery: the location and disambiguation byte of the record with the
/// given seeds, found by scanning from 255 downwards. Byte 0 is never tried.
pub open spec fn discover_spec(authority: Seq<u8>, seeds: Seq<Seq<u8>>) -> Option<(Seq<u8>, u8)> {
    scan_disambiguators(authority, seeds, 255)
}

/// Whatever a scan finds, reconstruction with the byte it found gives the same
/// location; and every byte that the scan passed over derives none.
pub proof fn lemma_scan_sound(authority: Seq<u8>, seeds: Seq<Seq<u8>>, from: nat)
    requires
        scan_disambiguators(authority, seeds, from) is Some,
    ensures
        ({
            let found = scan_disambiguators(authority, seeds, from).unwrap();
            &&& 1 <= found.1 <= from
            &&& reconstruct_spec(authority, seeds, found.1) == Ok::<Seq<u8>, Rejection>(found.0)
            &&& forall|b: u8|
                found.1 < b <= from ==> #[trigger] reconstruct_spec(authority, seeds, b) == Err::<
                    Seq<u8>,
                    Rejection,
                >(Rejection::InvalidSeeds)
        }),
    decreases from,
{
    if from != 0 && from <= 255 {
        match reconstruct_spec(authority, seeds, from as u8) {
            Ok(location) => {},
            Err(Rejection::InvalidSeeds) => {
                lemma_scan_sound(authority, seeds, (from - 1) as nat);
            },
            Err(_) => {},
        }
    }
}

/// For every authority and seeds for which discovery finds a location,
/// reconstruction with the disambiguation byte that discovery returned yields
/// that same location.
pub proof fn lemma_reconstruct_inverts_discover(authority: Seq<u8>, seeds: Seq<Seq<u8>>)
    requires
        discover_spec(authority, seeds) is Some,
    ensures
        reconstruct_spec(authority, seeds, discover_spec(authority, seeds).unwrap().1) == Ok::<
            Seq<u8>,
            Rejection,
        >(discover_spec(authority, seeds).unwrap().0),
{
    lemma_scan_sound(authority, seeds, 255);
}

/// A derived location, or the rejection, with the key given by its bytes.
pub open spec fn location_view(r: Result<Key, Rejection>) -> Result<Seq<u8>, Rejection> {
    match r {
        Ok(k) => Ok(k@),
        Err(e) => Err(e),
    }
}

/// What a discovery returned, with the key given by its bytes.
pub open spec fn discovery_view(r: Option<(Key, u8)>) -> Option<(Seq<u8>, u8)> {
    match r {
        Some((k, b)) => Some((k@, b)),
        None => None,
    }
}

/// Calls `Pubkey::create_program_address` on the seeds and the authority.
///
/// Claims what that function's source shows: too many seeds, or one that is
/// too long, give `MaxSeedLengthExceeded`; otherwise the result is the hash
/// of the seeds and the authority, or `InvalidSeeds` where the hash is no
/// valid location.
#[verifier::external_body]
fn create_program_address(seeds: &Vec<Vec<u8>>, authority: &Key) -> (r: Result<Key, Rejection>)
    ensures
        location_view(r) == (if !seeds_fit(seed_list(seeds@)) {
            Err::<Seq<u8>, Rejection>(Rejection::MaxSeedLengthExceeded)
        } else {
            match program_address_hash(authority@, seed_list(seeds@)) {
                Some(location) => Ok::<Seq<u8>, Rejection>(location),
                None => Err::<Seq<u8>, Rejection>(Rejection::InvalidSeeds),
            }
        }),
{
    let parts: Vec<&[u8]> = seeds.iter().map(|s| s.as_slice()).collect();
    match Pubkey::create_program_address(&parts, &Pubkey::new_from_array(authority.bytes)) {
        Ok(address) => Ok(Key { bytes: address.to_bytes() }),
        Err(PubkeyError::MaxSeedLengthExceeded) => Err(Rejection::MaxSeedLengthExceeded),
        Err(PubkeyError::InvalidSeeds) => Err(Rejection::InvalidSeeds),
        Err(PubkeyError::IllegalOwner) => Err(Rejection::IllegalOwner),
    }
}

/// Calls `Pubkey::try_find_program_address` on the seeds and the authority.
///
/// Claims what that function's source shows: it tries the disambiguation
/// bytes from 255 down to 1, each appended to the seeds as a seed of its own,
/// and returns the first location that derives together with its byte; it
/// returns nothing where none derives or the seeds are beyond the limits.
#[verifier::external_body]
fn try_find_program_address(seeds: &Vec<Vec<u8>>, authority: &Key) -> (r: Option<(Key, u8)>)
    ensures
        discovery_view(r) == discover_spec(authority@, seed_list(seeds@)),
{
    let parts: Vec<&[u8]> = seeds.iter().map(|s| s.as_slice()).collect();
    match Pubkey::try_find_program_address(&parts, &Pubkey::new_from_array(authority.bytes)) {
        Some((address, bump)) => Some((Key { bytes: address.to_bytes() }, bump)),
        None => None,
    }
}

/// Discovers the location of the record with the given seeds under
/// `authority`, and the disambiguation byte that makes it valid.
///
/// Reconstruction with the returned byte gives the returned location.
pub fn discover(authority: &Key, seeds: &Vec<Vec<u8>>) -> (r: Option<(Key, u8)>)
    ensures
        discovery_view(r) == discover_spec(authority@, seed_list(seeds@)),
        r matches Some((location, disambiguator)) ==> reconstruct_spec(
            authority@,
            seed_list(seeds@),
            disambiguator,
        ) == Ok::<Seq<u8>, Rejection>(location@),
{
    let r = try_find_program_address(seeds, authority);
    proof {
        if r is Some {
            lemma_reconstruct_inverts_discover(authority@, seed_list(seeds@));
        }
    }
    r
}

/// A copy of the seeds with the disambiguation byte appended as a seed of its
/// own.
pub fn seeds_with_disambiguator(seeds: &Vec<Vec<u8>>, disambiguator: u8) -> (out: Vec<Vec<u8>>)
    ensures
        seed_list(out@) == with_disambiguator(seed_list(seeds@), disambiguator),
{
    let mut out: Vec<Vec<u8>> = Vec::new();
    let mut i: usize = 0;
    while i < seeds.len()
        invariant
            i <= seeds@.len(),
            out@.len() == i,
            forall|j: int| 0 <= j < i ==> out@[j]@ == seeds@[j]@,
        decreases seeds@.len() - i,
    {
        let seed: &Vec<u8> = &seeds[i];
        let mut copy: Vec<u8> = Vec::new();
        let mut k: usize = 0;
        while k < seed.len()
            invariant
                k <= seed@.len(),
                copy@.len() == k,
                forall|j: int| 0 <= j < k ==> copy@[j] == seed@[j],
            decreases seed@.len() - k,
        {
            copy.push(seed[k]);
            k += 1;
        }
        assert(copy@ =~= seed@);
        out.push(copy);
        i += 1;
    }
    let mut last: Vec<u8> = Vec::new();
    last.push(disambiguator);
    assert(last@ =~= seq![disambiguator]);
    out.push(last);
    assert(seed_list(out@) =~= with_disambiguator(seed_list(seeds@), disambiguator));
    out
}

/// Reconstructs the location of the record with the given seeds and stored
/// disambiguation byte under `authority`.
pub fn reconstruct(authority: &Key, seeds: &Vec<Vec<u8>>, disambiguator: u8) -> (r: Result<
    Key,
    Rejection,
>)
    ensures
        location_view(r) == reconstruct_spec(authority@, seed_list(seeds@), disambiguator),
{
    let full = seeds_with_disambiguator(seeds, disambiguator);
    create_program_address(&full, authority)
}

/// Whether `claimed` is the location of the record with the given seeds and
/// stored disambiguation byte.
pub open spec fn location_checks(
    authority: Seq<u8>,
    seeds: Seq<Seq<u8>>,
    disambiguator: u8,
    claimed: Seq<u8>,
) -> Result<(), Rejection> {
    match reconstruct_spec(authority, seeds, disambiguator) {
        Err(e) => Err(e),
        Ok(location) => if location == claimed {
            Ok(())
        } else {
            Err(Rejection::Custom(CustomError::PublicKeyMismatch))
        },
    }
}

/// Checks a caller-supplied location against the one reconstructed from the
/// record's seeds and stored disambiguation byte.
pub fn check_location(authority: &Key, seeds: &Vec<Vec<u8>>, disambiguator: u8, claimed: &Key) -> (r:
    Result<(), Rejection>)
    ensures
        r == location_checks(authority@, seed_list(seeds@), disambiguator, claimed@),
{
    match reconstruct(authority, seeds, disambiguator) {
        Err(e) => Err(e),
        Ok(location) => if location.same(claimed) {
            Ok(())
        } else {
            Err(Rejection::Custom(CustomError::PublicKeyMismatch))
        },
    }
}

/// Whether `claimed` is the location that discovery finds for the seeds, and
/// with which disambiguation byte.
pub open spec fn discovery_checks(authority: Seq<u8>, seeds: Seq<Seq<u8>>, claimed: Seq<u8>)
    -> Result<u8, Rejection> {
    match discover_spec(authority, seeds) {
        None => Err(Rejection::InvalidSeeds),
        Some((location, disambiguator)) => if location == claimed {
            Ok(disambiguator)
        } else {
            Err(Rejection::Custom(CustomError::PublicKeyMismatch))
        },
    }
}

/// Discovers the location for the seeds and checks the caller-supplied one
/// against it; returns the disambiguation byte to store.
pub fn check_discovered(authority: &Key, seeds: &Vec<Vec<u8>>, claimed: &Key) -> (r: Result<
    u8,
    Rejection,
>)
    ensures
        r == discovery_checks(authority@, seed_list(seeds@), claimed@),
        r matches Ok(d) ==> location_checks(authority@, seed_list(seeds@), d, claimed@) == Ok::<
            (),
            Rejection,
        >(()),
{
    match discover(authority, seeds) {
        None => Err(Rejection::InvalidSeeds),
        Some((location, disambiguator)) => if location.same(claimed) {
            Ok(disambiguator)
        } else {
            Err(Rejection::Custom(CustomError::PublicKeyMismatch))
        },
    }
}

} // verus!
