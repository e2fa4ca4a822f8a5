//! Listing of a space for sale, and withdrawal of the listing.

use crate::error::Rejection;
use crate::host::assert_enough;
use crate::host::assert_signed;
use crate::host::enough;
use crate::host::require;
use crate::host::signed;
use crate::host::verdict;
use crate::host::AccountView;
use crate::host::Effect;
use crate::host::Environment;
use crate::host::Outcome;
use crate::host::OutcomeView;
use crate::key::Key;
use crate::locator::Domain;
use crate::locator::Locator;
use crate::locator::RecordKey;
use crate::space::instruction::ChangeOfferArgs;
use crate::space::state::SpaceMetadata;
use crate::validation_utils::assert_custody;
use crate::validation_utils::assert_keys_equal;
use crate::validation_utils::custody;
use crate::validation_utils::keys_equal;
use vstd::prelude::*;

verus! {

/// Position of each record in the list that the operation is handed.
pub const BASE: usize = 0;

pub const SPACE_METADATA: usize = 1;

pub const OWNER: usize = 2;

pub const OWNER_HOLDING: usize = 3;

pub const SELL_DELEGATE: usize = 4;

pub const TOKEN_PROGRAM: usize = 5;

/// Number of records that the operation reads.
pub const ACCOUNTS: usize = 6;

/// What the host is asked to do. To list: let the sell delegate move the one
/// unit out of the owner's holding, and write the price. To withdraw: take
/// that permission back, and write a price of zero.
pub open spec fn offer(space: SpaceMetadata, args: ChangeOfferArgs) -> OutcomeView {
    if args.create {
        OutcomeView {
            effects: seq![Effect::Approve { holding: 3, delegate: 4, authority: 2, amount: 1 }],
            patches: seq![(1, 0, (SpaceMetadata { price: args.price, ..space }).encoding())],
        }
    } else {
        OutcomeView {
            effects: seq![Effect::Revoke { holding: 3, authority: 2 }],
            patches: seq![(1, 0, (SpaceMetadata { price: 0, ..space }).encoding())],
        }
    }
}

/// The outcome of the operation: the first check that fails rejects it; where
/// none fails, the offer is changed.
///
/// In order: the list holds every record; the owner authorized the call; the
/// asset ledger is the deployment's; the space's metadata decodes and lies at
/// its reconstructed location; the sell delegate lies at its discovered
/// location; and the owner has exclusive custody of the space's asset.
pub open spec fn outcome_of(
    env: Environment,
    program_id: Key,
    accounts: Seq<AccountView>,
    args: ChangeOfferArgs,
) -> Result<OutcomeView, Rejection> {
    let base = accounts[0].key;
    require(
        enough(accounts, 6),
        require(
            signed(accounts[2]),
            require(
                keys_equal(env.token_program, accounts[5].key),
                match SpaceMetadata::parse(accounts[1].data@) {
                    None => Err(Rejection::RecordUnreadable),
                    Some(space) => require(
                        (Locator {
                            base,
                            domain: Domain::SpaceMetadata,
                            key: RecordKey::Coordinates(args.space_x, args.space_y),
                        }).checks(program_id@, space.bump, accounts[1].key@),
                        match (Locator {
                            base,
                            domain: Domain::SellDelegate,
                            key: RecordKey::Whole,
                        }).discovers(program_id@, accounts[4].key@) {
                            Err(e) => Err(e),
                            Ok(_) => require(
                                custody(env, accounts[3], accounts[2].key, space.mint),
                                Ok(offer(space, args)),
                            ),
                        },
                    ),
                },
            ),
        ),
    )
}

/// Lists the space at the coordinates in `args` for sale on behalf of its
/// owner, or withdraws the listing.
pub fn process(
    env: &Environment,
    program_id: &Key,
    accounts: &[AccountView],
    args: &ChangeOfferArgs,
) -> (r: Result<Outcome, Rejection>)
    ensures
        verdict(r) == outcome_of(*env, *program_id, accounts@, *args),
{
    assert_enough(accounts, ACCOUNTS)?;
    let base = &accounts[BASE];
    let space_metadata = &accounts[SPACE_METADATA];
    let owner = &accounts[OWNER];

    assert_signed(owner)?;
    assert_keys_equal(env.token_program, accounts[TOKEN_PROGRAM].key)?;

    let space = match SpaceMetadata::decode(space_metadata.data.as_slice()) {
        Some(s) => s,
        None => return Err(Rejection::RecordUnreadable),
    };
    (Locator {
        base: base.key,
        domain: Domain::SpaceMetadata,
        key: RecordKey::Coordinates(args.space_x, args.space_y),
    }).check(program_id, space.bump, &space_metadata.key)?;
    let _ = (Locator { base: base.key, domain: Domain::SellDelegate, key: RecordKey::Whole }).check_fresh(
        program_id,
        &accounts[SELL_DELEGATE].key,
    )?;
    assert_custody(env, &accounts[OWNER_HOLDING], &owner.key, &space.mint)?;

    let mut outcome = Outcome::new();
    let next = if args.create {
        outcome.effect(
            Effect::Approve {
                holding: OWNER_HOLDING,
                delegate: SELL_DELEGATE,
                authority: OWNER,
                amount: 1,
            },
        );
        SpaceMetadata { price: args.price, ..space }
    } else {
        outcome.effect(Effect::Revoke { holding: OWNER_HOLDING, authority: OWNER });
        SpaceMetadata { price: 0, ..space }
    };
    outcome.patch(SPACE_METADATA, 0, next.encode());
    proof {
        assert(outcome@.effects =~= offer(space, *args).effects);
        assert(outcome@.patches =~= offer(space, *args).patches);
    }
    Ok(outcome)
}

} // verus!
