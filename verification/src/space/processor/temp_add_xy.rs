//! Rewriting of the coordinates stored in a space's metadata.

use crate::error::Rejection;
use crate::host::assert_enough;
use crate::host::assert_signed;
use crate::host::enough;
use crate::host::require;
use crate::host::signed;
use crate::host::verdict;
use crate::host::AccountView;
use crate::host::Environment;
use crate::host::Outcome;
use crate::host::OutcomeView;
use crate::key::Key;
use crate::locator::Domain;
use crate::locator::Locator;
use crate::locator::RecordKey;
use crate::space::instruction::TempAddxyArgs;
use crate::space::state::SpaceMetadata;
use crate::validation_utils::assert_custody;
use crate::validation_utils::custody;
use vstd::prelude::*;

verus! {

/// Position of each record in the list that the operation is handed.
pub const BASE: usize = 0;

pub const SPACE_METADATA: usize = 1;

pub const OWNER_HOLDING: usize = 2;

pub const OWNER: usize = 3;

/// Number of records that the operation reads.
pub const ACCOUNTS: usize = 4;

/// The outcome of the operation: the first check that fails rejects it; where
/// none fails, the space's metadata is written with the coordinates in
/// `args`, and nothing else in it changes.
///
/// In order: the list holds every record; the owner authorized the call; the
/// space's metadata decodes and lies at its reconstructed location; and the
/// owner has exclusive custody of the space's asset.
pub open spec fn outcome_of(
    env: Environment,
    program_id: Key,
    accounts: Seq<AccountView>,
    args: TempAddxyArgs,
) -> Result<OutcomeView, Rejection> {
    require(
        enough(accounts, 4),
        require(
            signed(accounts[3]),
            match SpaceMetadata::parse(accounts[1].data@) {
                None => Err(Rejection::RecordUnreadable),
                Some(space) => require(
                    (Locator {
                        base: accounts[0].key,
                        domain: Domain::SpaceMetadata,
                        key: RecordKey::Coordinates(args.space_x, args.space_y),
                    }).checks(program_id@, space.bump, accounts[1].key@),
                    require(
                        custody(env, accounts[2], accounts[3].key, space.mint),
                        Ok(
                            OutcomeView {
                                effects: seq![],
                                patches: seq![
                                    (
                                        1,
                                        0,
                                        (SpaceMetadata {
                                            space_x: args.space_x,
                                            space_y: args.space_y,
                                            ..space
                                        }).encoding(),
                                    ),
                                ],
                            },
                        ),
                    ),
                ),
            },
        ),
    )
}

/// Writes the coordinates in `args` into the metadata of the space that lies
/// there, on behalf of its owner.
pub fn process(
    env: &Environment,
    program_id: &Key,
    accounts: &[AccountView],
    args: &TempAddxyArgs,
) -> (r: Result<Outcome, Rejection>)
    ensures
        verdict(r) == outcome_of(*env, *program_id, accounts@, *args),
{
    assert_enough(accounts, ACCOUNTS)?;
    let space_metadata = &accounts[SPACE_METADATA];
    let owner = &accounts[OWNER];
    assert_signed(owner)?;
    let space = match SpaceMetadata::decode(space_metadata.data.as_slice()) {
        Some(s) => s,
        None => return Err(Rejection::RecordUnreadable),
    };
    (Locator {
        base: accounts[BASE].key,
        domain: Domain::SpaceMetadata,
        key: RecordKey::Coordinates(args.space_x, args.space_y),
    }).check(program_id, space.bump, &space_metadata.key)?;
    assert_custody(env, &accounts[OWNER_HOLDING], &owner.key, &space.mint)?;
    let next = SpaceMetadata { space_x: args.space_x, space_y: args.space_y, ..space };
    let mut outcome = Outcome::new();
    outcome.patch(SPACE_METADATA, 0, next.encode());
    proof {
        assert(outcome@.effects =~= seq![]);
        assert(outcome@.patches =~= seq![(1usize, 0usize, next.encoding())]);
    }
    Ok(outcome)
}

} // verus!
