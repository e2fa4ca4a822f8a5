//! Holdings of the asset ledger, as far as this system reads them.

use crate::error::CustomError;
use crate::error::Rejection;
use crate::key::Key;
use solana_program::program_option::COption;
use solana_program::program_pack::Pack;
use spl_token::state::Account;
use spl_token::state::AccountState;
use vstd::prelude::*;

verus! {

/// Number of bytes of a holding on the ledger.
pub const HOLDING_LEN: usize = 165;

/// Number of bytes of an asset class on the ledger.
pub const ASSET_CLASS_LEN: usize = 82;

/// The life cycle of a holding.
#[derive(Clone, Copy, Debug, PartialEq, Eq, Structural)]
pub enum HoldingState {
    Uninitialized,
    Initialized,
    Frozen,
}

/// One holding: how many units of which asset class belong to whom, and who
/// may move them on the owner's behalf.
#[derive(Clone, Copy, Debug, PartialEq, Eq)]
pub struct TokenHolding {
    pub mint: Key,
    pub owner: Key,
    pub amount: u64,
    pub delegate: Option<Key>,
    pub state: HoldingState,
}

/// The holding that the ledger's own layout reads out of `data`, or `None`
/// where the bytes are no holding.
pub uninterp spec fn token_account_fields(data: Seq<u8>) -> Option<TokenHolding>;

/// Calls `Account::unpack_unchecked` of the ledger's crate on the bytes and
/// copies out the fields that this system reads.
///
/// Claims that the result depends on the bytes alone, and, as the source of
/// `Pack::unpack_unchecked` shows, that bytes of any length but
/// `HOLDING_LEN` are refused.
#[verifier::external_body]
fn unpack_unchecked(data: &[u8]) -> (r: Option<TokenHolding>)
    ensures
        r == token_account_fields(data@),
        data@.len() != HOLDING_LEN ==> r is None,
{
    let a = Account::unpack_unchecked(data).ok()?;
    Some(TokenHolding {
        mint: Key { bytes: a.mint.to_bytes() },
        owner: Key { bytes: a.owner.to_bytes() },
        amount: a.amount,
        delegate: match a.delegate {
            COption::Some(d) => Some(Key { bytes: d.to_bytes() }),
            COption::None => None,
        },
        state: match a.state {
            AccountState::Uninitialized => HoldingState::Uninitialized,
            AccountState::Initialized => HoldingState::Initialized,
            AccountState::Frozen => HoldingState::Frozen,
        },
    })
}

/// The holding in `unpacked`, provided there is one and it is initialized.
pub open spec fn initialized_holding_of(unpacked: Option<TokenHolding>) -> Result<
    TokenHolding,
    Rejection,
> {
    match unpacked {
        None => Err(Rejection::InvalidAccountData),
        Some(h) => if h.state == HoldingState::Uninitialized {
            Err(Rejection::Custom(CustomError::UninitializedAccount))
        } else {
            Ok(h)
        },
    }
}

/// Accepts what the ledger's layout read out of a record if it is an
/// initialized holding.
pub fn initialized_holding(unpacked: Option<TokenHolding>) -> (r: Result<TokenHolding, Rejection>)
    ensures
        r == initialized_holding_of(unpacked),
{
    match unpacked {
        None => Err(Rejection::InvalidAccountData),
        Some(h) => match h.state {
            HoldingState::Uninitialized => Err(Rejection::Custom(CustomError::UninitializedAccount)),
            _ => Ok(h),
        },
    }
}

/// Reads the holding out of a record's bytes.
pub fn read_holding(data: &[u8]) -> (r: Option<TokenHolding>)
    ensures
        r == token_account_fields(data@),
        data@.len() != HOLDING_LEN ==> r is None,
{
    unpack_unchecked(data)
}

} // verus!
