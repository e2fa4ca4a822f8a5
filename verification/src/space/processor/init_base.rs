//! Creation of a base: the root of one world instance, and its empty list of
//! neighborhoods.

use crate::error::Rejection;
use crate::host::assert_enough;
use crate::host::assert_fresh;
use crate::host::assert_signed;
use crate::host::enough;
use crate::host::fresh;
use crate::host::require;
use crate::host::signed;
use crate::host::verdict;
use crate::host::AccountView;
use crate::host::Effect;
use crate::host::Environment;
use crate::host::Outcome;
use crate::host::OutcomeView;
use crate::key::Key;
use crate::locator::Domain;
use crate::locator::Locator;
use crate::locator::RecordKey;
use crate::locator::Signer;
use crate::space::instruction::InitBaseArgs;
use crate::space::state::Base;
use crate::space::state::NeighborhoodList;
use crate::space::state::NeighborhoodListView;
use crate::space::state::BASE_RESERVE;
use crate::space::state::NEIGHBORHOOD_LIST_RESERVE;
use crate::validation_utils::assert_keys_equal;
use crate::validation_utils::keys_equal;
use vstd::prelude::*;

verus! {

/// Position of each record in the list that the operation is handed.
pub const BASE: usize = 0;

pub const NEIGHBORHOOD_LIST: usize = 1;

pub const PAYER: usize = 2;

pub const SYSTEM_PROGRAM: usize = 3;

/// Number of records that the operation reads.
pub const ACCOUNTS: usize = 4;

/// A new base: no neighborhoods, the payer as its authority, and the
/// founder's fee waiver in force.
pub open spec fn founded(payer: Key) -> Base {
    Base { neighborhood_count: 0, authority: payer, authority_privileges: true }
}

/// The logical address of the neighborhood list of `base`.
pub open spec fn list_record(base: Key) -> Locator {
    Locator { base, domain: Domain::NeighborhoodList, key: RecordKey::Whole }
}

/// What the host is asked to do: create the base and its neighborhood list,
/// and write both.
pub open spec fn foundation(program_id: Key, accounts: Seq<AccountView>, disambiguator: u8)
    -> OutcomeView {
    OutcomeView {
        effects: seq![
            Effect::CreateRecord {
                payer: 2,
                record: 0,
                space: BASE_RESERVE as u64,
                owner: program_id,
                signer: None,
            },
            Effect::CreateRecord {
                payer: 2,
                record: 1,
                space: NEIGHBORHOOD_LIST_RESERVE as u64,
                owner: program_id,
                signer: Some(Signer { locator: list_record(accounts[0].key), disambiguator }),
            },
        ],
        patches: seq![
            (0, 0, founded(accounts[2].key).encoding()),
            (
                1,
                0,
                (NeighborhoodListView { bump: disambiguator, xs: seq![], ys: seq![] }).encoding(),
            ),
        ],
    }
}

/// The outcome of the operation: the first check that fails rejects it; where
/// none fails, the base is founded.
///
/// In order: the list holds every record; the system program is the
/// deployment's; the base and the payer both authorized the call; the
/// neighborhood list lies at its discovered location; and neither the base
/// nor the list exists yet.
pub open spec fn outcome_of(
    env: Environment,
    program_id: Key,
    accounts: Seq<AccountView>,
    args: InitBaseArgs,
) -> Result<OutcomeView, Rejection> {
    require(
        enough(accounts, 4),
        require(
            keys_equal(env.system_program, accounts[3].key),
            require(
                signed(accounts[0]),
                require(
                    signed(accounts[2]),
                    match list_record(accounts[0].key).discovers(program_id@, accounts[1].key@) {
                        Err(e) => Err(e),
                        Ok(disambiguator) => require(
                            fresh(accounts[0]),
                            require(
                                fresh(accounts[1]),
                                Ok(foundation(program_id, accounts, disambiguator)),
                            ),
                        ),
                    },
                ),
            ),
        ),
    )
}

/// Founds a base with the payer as its authority.
pub fn process(
    env: &Environment,
    program_id: &Key,
    accounts: &[AccountView],
    args: &InitBaseArgs,
) -> (r: Result<Outcome, Rejection>)
    ensures
        verdict(r) == outcome_of(*env, *program_id, accounts@, *args),
{
    assert_enough(accounts, ACCOUNTS)?;
    let base = &accounts[BASE];
    let neighborhood_list = &accounts[NEIGHBORHOOD_LIST];
    let payer = &accounts[PAYER];

    assert_keys_equal(env.system_program, accounts[SYSTEM_PROGRAM].key)?;
    assert_signed(base)?;
    assert_signed(payer)?;

    let list_locator = Locator {
        base: base.key,
        domain: Domain::NeighborhoodList,
        key: RecordKey::Whole,
    };
    let disambiguator = list_locator.check_fresh(program_id, &neighborhood_list.key)?;
    assert_fresh(base)?;
    assert_fresh(neighborhood_list)?;

    let base_data = Base { neighborhood_count: 0, authority: payer.key, authority_privileges: true };
    let list_data = NeighborhoodList {
        bump: disambiguator,
        neighborhoods_x: Vec::new(),
        neighborhoods_y: Vec::new(),
    };
    let mut outcome = Outcome::new();
    outcome.effect(
        Effect::CreateRecord {
            payer: PAYER,
            record: BASE,
            space: BASE_RESERVE as u64,
            owner: *program_id,
            signer: None,
        },
    );
    outcome.effect(
        Effect::CreateRecord {
            payer: PAYER,
            record: NEIGHBORHOOD_LIST,
            space: NEIGHBORHOOD_LIST_RESERVE as u64,
            owner: *program_id,
            signer: Some(Signer { locator: list_locator, disambiguator }),
        },
    );
    outcome.patch(BASE, 0, base_data.encode());
    outcome.patch(NEIGHBORHOOD_LIST, 0, list_data.encode());
    proof {
        let expected = foundation(*program_id, accounts@, disambiguator);
        assert(list_data@.xs =~= seq![]);
        assert(list_data@.ys =~= seq![]);
        assert(outcome@.effects =~= expected.effects);
        assert(outcome@.patches =~= expected.patches);
    }
    Ok(outcome)
}

} // verus!
