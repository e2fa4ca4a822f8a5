//! The base's authority hands the base to a new authority.

use crate::error::Rejection;
use crate::host::assert_enough;
use crate::host::assert_signed;
use crate::host::enough;
use crate::host::require;
use crate::host::signed;
use crate::host::verdict;
use crate::host::AccountView;
use crate::host::Environment;
use crate::host::Outcome;
use crate::host::OutcomeView;
use crate::key::Key;
use crate::space::instruction::UpdateAuthorityArgs;
use crate::space::state::Base;
use crate::validation_utils::assert_keys_equal;
use crate::validation_utils::keys_equal;
use vstd::prelude::*;

verus! {

/// Position of each record in the list that the operation is handed.
pub const BASE: usize = 0;

pub const CURRENT_AUTHORITY: usize = 1;

pub const NEW_AUTHORITY: usize = 2;

/// Number of records that the operation reads.
pub const ACCOUNTS: usize = 3;

/// The outcome of the operation: the first check that fails rejects it; where
/// none fails, the base is written with the new authority, and nothing else
/// in it changes.
///
/// In order: the list holds every record; the base decodes; the current
/// authority authorized the call; and it is the base's authority.
pub open spec fn outcome_of(
    env: Environment,
    program_id: Key,
    accounts: Seq<AccountView>,
    args: UpdateAuthorityArgs,
) -> Result<OutcomeView, Rejection> {
    require(
        enough(accounts, 3),
        match Base::parse(accounts[0].data@) {
            None => Err(Rejection::RecordUnreadable),
            Some(base) => require(
                signed(accounts[1]),
                require(
                    keys_equal(base.authority, accounts[1].key),
                    Ok(
                        OutcomeView {
                            effects: seq![],
                            patches: seq![
                                (0, 0, (Base { authority: accounts[2].key, ..base }).encoding()),
                            ],
                        },
                    ),
                ),
            ),
        },
    )
}

/// Hands the base to a new authority on behalf of the current one.
pub fn process(
    env: &Environment,
    program_id: &Key,
    accounts: &[AccountView],
    args: &UpdateAuthorityArgs,
) -> (r: Result<Outcome, Rejection>)
    ensures
        verdict(r) == outcome_of(*env, *program_id, accounts@, *args),
{
    assert_enough(accounts, ACCOUNTS)?;
    let current_creator = &accounts[CURRENT_AUTHORITY];
    let new_creator = &accounts[NEW_AUTHORITY];
    let base_data = match Base::decode(accounts[BASE].data.as_slice()) {
        Some(b) => b,
        None => return Err(Rejection::RecordUnreadable),
    };
    assert_signed(current_creator)?;
    assert_keys_equal(base_data.authority, current_creator.key)?;
    let next = Base { authority: new_creator.key, ..base_data };
    let mut outcome = Outcome::new();
    outcome.patch(BASE, 0, next.encode());
    proof {
        assert(outcome@.effects =~= seq![]);
        assert(outcome@.patches =~= seq![(0usize, 0usize, next.encoding())]);
    }
    Ok(outcome)
}

} // verus!
