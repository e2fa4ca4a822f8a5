//! The base's authority gives up the founder's fee waiver, once and for all.

use crate::error::Rejection;
use crate::host::assert_enough;
use crate::host::assert_signed;
use crate::host::enough;
use crate::host::require;
use crate::host::signed;
use crate::host::verdict;
use crate::host::AccountView;
use crate::host::Environment;
use crate::host::Outcome;
use crate::host::OutcomeView;
use crate::key::Key;
use crate::space::instruction::RevokeAuthorityPrivilegesArgs;
use crate::space::state::Base;
use crate::validation_utils::assert_keys_equal;
use crate::validation_utils::keys_equal;
use vstd::prelude::*;

verus! {

/// Position of each record in the list that the operation is handed.
pub const BASE: usize = 0;

pub const REVOKER: usize = 1;

/// Number of records that the operation reads.
pub const ACCOUNTS: usize = 2;

/// The base without the fee waiver, or the rejection of a base that has none.
pub open spec fn revoked(base: Base) -> Result<Base, Rejection> {
    if base.authority_privileges {
        Ok(Base { authority_privileges: false, ..base })
    } else {
        Err(Rejection::InvalidAccountData)
    }
}

/// Ends the fee waiver of a base that still has it.
pub fn revoke(base: &Base) -> (r: Result<Base, Rejection>)
    ensures
        r == revoked(*base),
{
    if base.authority_privileges {
        Ok(Base { authority_privileges: false, ..*base })
    } else {
        Err(Rejection::InvalidAccountData)
    }
}

/// The outcome of the operation: the first check that fails rejects it; where
/// none fails, the base is written without the fee waiver.
///
/// In order: the list holds every record; the base decodes; the revoker
/// authorized the call; the revoker is the base's authority; and the waiver
/// is still in force.
pub open spec fn outcome_of(
    env: Environment,
    program_id: Key,
    accounts: Seq<AccountView>,
    args: RevokeAuthorityPrivilegesArgs,
) -> Result<OutcomeView, Rejection> {
    require(
        enough(accounts, 2),
        match Base::parse(accounts[0].data@) {
            None => Err(Rejection::RecordUnreadable),
            Some(base) => require(
                signed(accounts[1]),
                require(
                    keys_equal(base.authority, accounts[1].key),
                    match revoked(base) {
                        Err(e) => Err(e),
                        Ok(next) => Ok(
                            OutcomeView { effects: seq![], patches: seq![(0, 0, next.encoding())] },
                        ),
                    },
                ),
            ),
        },
    )
}

/// Ends the founder's fee waiver on behalf of the base's authority.
pub fn process(
    env: &Environment,
    program_id: &Key,
    accounts: &[AccountView],
    args: &RevokeAuthorityPrivilegesArgs,
) -> (r: Result<Outcome, Rejection>)
    ensures
        verdict(r) == outcome_of(*env, *program_id, accounts@, *args),
{
    assert_enough(accounts, ACCOUNTS)?;
    let revoker = &accounts[REVOKER];
    let base_data = match Base::decode(accounts[BASE].data.as_slice()) {
        Some(b) => b,
        None => return Err(Rejection::RecordUnreadable),
    };
    assert_signed(revoker)?;
    assert_keys_equal(base_data.authority, revoker.key)?;
    let next = revoke(&base_data)?;
    let mut outcome = Outcome::new();
    outcome.patch(BASE, 0, next.encode());
    proof {
        assert(outcome@.effects =~= seq![]);
        assert(outcome@.patches =~= seq![(0usize, 0usize, next.encoding())]);
    }
    Ok(outcome)
}

} // verus!
