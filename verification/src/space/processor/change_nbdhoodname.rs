//! Renaming of a neighborhood by its creator.

use crate::error::Rejection;
use crate::host::assert_enough;
use crate::host::assert_signed;
use crate::host::enough;
use crate::host::require;
use crate::host::signed;
use crate::host::verdict;
use crate::host::AccountView;
use crate::host::Environment;
use crate::host::Outcome;
use crate::host::OutcomeView;
use crate::key::Key;
use crate::locator::Domain;
use crate::locator::Locator;
use crate::locator::RecordKey;
use crate::space::instruction::ChangeNeighborhoodNameArgs;
use crate::space::state::NeighborhoodMetadata;
use vstd::prelude::*;

verus! {

/// Position of each record in the list that the operation is handed.
pub const BASE: usize = 0;

pub const NEIGHBORHOOD_METADATA: usize = 1;

pub const CREATOR: usize = 2;

/// Number of records that the operation reads.
pub const ACCOUNTS: usize = 3;

/// The rejection of a caller who is not the neighborhood's creator.
pub open spec fn created_by(metadata: NeighborhoodMetadata, caller: Key) -> Result<(), Rejection> {
    if metadata.creator@ == caller@ {
        Ok(())
    } else {
        Err(Rejection::InvalidAccountData)
    }
}

/// The outcome of the operation: the first check that fails rejects it; where
/// none fails, the neighborhood's metadata is written with the new name, and
/// nothing else in it changes.
///
/// In order: the list holds every record; the creator authorized the call;
/// the neighborhood's metadata decodes; the caller is its creator; and it
/// lies at its reconstructed location.
pub open spec fn outcome_of(
    env: Environment,
    program_id: Key,
    accounts: Seq<AccountView>,
    args: ChangeNeighborhoodNameArgs,
) -> Result<OutcomeView, Rejection> {
    require(
        enough(accounts, 3),
        require(
            signed(accounts[2]),
            match NeighborhoodMetadata::parse(accounts[1].data@) {
                None => Err(Rejection::RecordUnreadable),
                Some(metadata) => require(
                    created_by(metadata, accounts[2].key),
                    require(
                        (Locator {
                            base: accounts[0].key,
                            domain: Domain::NeighborhoodMetadata,
                            key: RecordKey::Coordinates(args.neighborhood_x, args.neighborhood_y),
                        }).checks(program_id@, metadata.bump, accounts[1].key@),
                        Ok(
                            OutcomeView {
                                effects: seq![],
                                patches: seq![
                                    (
                                        1,
                                        0,
                                        (NeighborhoodMetadata {
                                            neighborhood_name: args.neighborhood_name,
                                            ..metadata
                                        }).encoding(),
                                    ),
                                ],
                            },
                        ),
                    ),
                ),
            },
        ),
    )
}

/// Gives the neighborhood at the coordinates in `args` a new name on behalf
/// of its creator.
pub fn process(
    env: &Environment,
    program_id: &Key,
    accounts: &[AccountView],
    args: &ChangeNeighborhoodNameArgs,
) -> (r: Result<Outcome, Rejection>)
    ensures
        verdict(r) == outcome_of(*env, *program_id, accounts@, *args),
{
    assert_enough(accounts, ACCOUNTS)?;
    let neighborhood_metadata = &accounts[NEIGHBORHOOD_METADATA];
    let creator = &accounts[CREATOR];
    assert_signed(creator)?;
    let metadata = match NeighborhoodMetadata::decode(neighborhood_metadata.data.as_slice()) {
        Some(m) => m,
        None => return Err(Rejection::RecordUnreadable),
    };
    if !metadata.creator.same(&creator.key) {
        return Err(Rejection::InvalidAccountData);
    }
    (Locator {
        base: accounts[BASE].key,
        domain: Domain::NeighborhoodMetadata,
        key: RecordKey::Coordinates(args.neighborhood_x, args.neighborhood_y),
    }).check(program_id, metadata.bump, &neighborhood_metadata.key)?;
    let next = NeighborhoodMetadata { neighborhood_name: args.neighborhood_name, ..metadata };
    let mut outcome = Outcome::new();
    outcome.patch(NEIGHBORHOOD_METADATA, 0, next.encode());
    proof {
        assert(outcome@.effects =~= seq![]);
        assert(outcome@.patches =~= seq![(1usize, 0usize, next.encoding())]);
    }
    Ok(outcome)
}

} // verus!
