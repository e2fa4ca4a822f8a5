//! What an operation is handed by the execution host, and what it hands back.
//!
//! The host delivers the records in the order that the operation documents,
//! already locked. An operation never touches them: it returns the ledger
//! effects to carry out, in order, and then the bytes to write. The host
//! applies all of it, or, on any failure, none of it.

use crate::error::Rejection;
use crate::key::Key;
use crate::locator::Signer;
use vstd::prelude::*;

verus! {

/// One record as the host delivered it.
#[derive(Clone, Debug, PartialEq, Eq)]
pub struct AccountView {
    /// The record's location.
    pub key: Key,
    /// The program that owns the record.
    pub owner: Key,
    /// Whether the record's key authorized the operation.
    pub is_signer: bool,
    /// The record's contents; empty where the record does not exist yet.
    pub data: Vec<u8>,
}

/// The identities that are fixed for one deployment.
#[derive(Clone, Copy, Debug, PartialEq, Eq)]
pub struct Environment {
    /// The program that creates records and moves funds.
    pub system_program: Key,
    /// The asset ledger.
    pub token_program: Key,
    /// The program that owns the canonical holdings.
    pub associated_token_program: Key,
    /// The record that carries the deposit rules.
    pub rent_sysvar: Key,
    /// The authority under which the registry's records are derived.
    pub registry_program: Key,
    /// The asset class in which neighborhoods are paid for.
    pub payment_mint: Key,
    /// The program that owns the creator-verification records.
    pub metadata_program: Key,
}

/// One request to the host's ledger or record store. Records are named by
/// their position in the list that the operation was handed.
#[derive(Clone, Copy, Debug, PartialEq, Eq)]
pub enum Effect {
    /// Create `record` with `space` zero bytes, owned by `owner`, paid by
    /// `payer`.
    CreateRecord { payer: usize, record: usize, space: u64, owner: Key, signer: Option<Signer> },
    /// Destroy `amount` units of `class` in `holding`.
    Burn { holding: usize, class: usize, authority: usize, amount: u64 },
    /// Let `delegate` move `amount` units out of `holding`.
    Approve { holding: usize, delegate: usize, authority: usize, amount: u64 },
    /// Withdraw any delegation on `holding`.
    Revoke { holding: usize, authority: usize },
    /// Move `amount` units from `source` to `destination`.
    TransferAsset {
        source: usize,
        destination: usize,
        authority: usize,
        amount: u64,
        signer: Option<Signer>,
    },
    /// Move `amount` of the native currency.
    TransferFunds { from: usize, to: usize, amount: u64 },
    /// Create the canonical holding of `wallet` for `class`.
    CreateHolding { payer: usize, wallet: usize, class: usize, holding: usize },
    /// Initialize `class` as an asset class without decimals, governed by
    /// `authority`.
    InitClass { class: usize, authority: usize, signer: Option<Signer> },
    /// Initialize `holding` for `class`, owned by `wallet`.
    InitHolding { holding: usize, class: usize, wallet: usize, signer: Option<Signer> },
    /// Issue `amount` new units of `class` into `destination`.
    Mint { class: usize, destination: usize, authority: usize, amount: u64 },
}

/// Bytes to write into a record, from `offset` on.
#[derive(Clone, Debug, PartialEq, Eq)]
pub struct Patch {
    pub account: usize,
    pub offset: usize,
    pub bytes: Vec<u8>,
}

impl View for Patch {
    type V = (usize, usize, Seq<u8>);

    open spec fn view(&self) -> (usize, usize, Seq<u8>) {
        (self.account, self.offset, self.bytes@)
    }
}

/// What an accepted operation asks of the host.
#[derive(Clone, Debug, PartialEq, Eq)]
pub struct Outcome {
    /// The ledger effects, in the order in which to carry them out.
    pub effects: Vec<Effect>,
    /// The writes, to apply after the effects.
    pub patches: Vec<Patch>,
}

/// An outcome as plain values.
pub struct OutcomeView {
    pub effects: Seq<Effect>,
    pub patches: Seq<(usize, usize, Seq<u8>)>,
}

impl View for Outcome {
    type V = OutcomeView;

    open spec fn view(&self) -> OutcomeView {
        OutcomeView {
            effects: self.effects@,
            patches: Seq::new(self.patches@.len(), |i: int| self.patches@[i]@),
        }
    }
}

/// An accepted outcome or the rejection, as plain values.
pub open spec fn verdict(r: Result<Outcome, Rejection>) -> Result<
    OutcomeView,
    Rejection,
> {
    match r {
        Ok(o) => Ok(o@),
        Err(e) => Err(e),
    }
}

/// The bytes of a record after a write at `offset`.
pub open spec fn patched(data: Seq<u8>, offset: int, bytes: Seq<u8>) -> Seq<u8> {
    Seq::new(
        data.len(),
        |i: int|
            if offset <= i < offset + bytes.len() {
                bytes[i - offset]
            } else {
                data[i]
            },
    )
}

/// A write at the start of a record replaces its first bytes and leaves the
/// rest as it was.
pub proof fn lemma_patched_prefix(data: Seq<u8>, bytes: Seq<u8>)
    requires
        bytes.len() <= data.len(),
    ensures
        patched(data, 0, bytes) == bytes + data.subrange(bytes.len() as int, data.len() as int),
        patched(data, 0, bytes).len() == data.len(),
{
    assert(patched(data, 0, bytes) =~= bytes + data.subrange(
        bytes.len() as int,
        data.len() as int,
    ));
}

impl Outcome {
    /// The outcome that asks nothing yet.
    pub fn new() -> (o: Outcome)
        ensures
            o@ == (OutcomeView { effects: seq![], patches: seq![] }),
    {
        let o = Outcome { effects: Vec::new(), patches: Vec::new() };
        assert(o@.patches =~= seq![]);
        o
    }

    /// Adds a ledger effect after those already there.
    pub fn effect(&mut self, e: Effect)
        ensures
            final(self)@ == (OutcomeView {
                effects: old(self)@.effects.push(e),
                patches: old(self)@.patches,
            }),
    {
        self.effects.push(e);
        assert(self@.patches =~= old(self)@.patches);
    }

    /// Adds a write after those already there.
    pub fn patch(&mut self, account: usize, offset: usize, bytes: Vec<u8>)
        ensures
            final(self)@ == (OutcomeView {
                effects: old(self)@.effects,
                patches: old(self)@.patches.push((account, offset, bytes@)),
            }),
    {
        self.patches.push(Patch { account, offset, bytes });
        assert(self@.patches =~= old(self)@.patches.push((account, offset, bytes@)));
    }
}

/// `then`, unless `check` fails: then the failure of `check`.
pub open spec fn require<T>(check: Result<(), Rejection>, then: Result<T, Rejection>) -> Result<
    T,
    Rejection,
> {
    match check {
        Err(e) => Err(e),
        Ok(_) => then,
    }
}

/// The rejection of a list of fewer than `needed` records.
pub open spec fn enough(accounts: Seq<AccountView>, needed: int) -> Result<(), Rejection> {
    if accounts.len() >= needed {
        Ok(())
    } else {
        Err(Rejection::NotEnoughAccountKeys)
    }
}

/// Accepts a list of at least `needed` records.
pub fn assert_enough(accounts: &[AccountView], needed: usize) -> (r: Result<(), Rejection>)
    ensures
        r == enough(accounts@, needed as int),
{
    if accounts.len() >= needed {
        Ok(())
    } else {
        Err(Rejection::NotEnoughAccountKeys)
    }
}

/// The rejection of an identity that did not authorize the operation.
pub open spec fn signed(account: AccountView) -> Result<(), Rejection> {
    if account.is_signer {
        Ok(())
    } else {
        Err(Rejection::MissingRequiredSignature)
    }
}

/// Accepts an identity that authorized the operation.
pub fn assert_signed(account: &AccountView) -> (r: Result<(), Rejection>)
    ensures
        r == signed(*account),
{
    if account.is_signer {
        Ok(())
    } else {
        Err(Rejection::MissingRequiredSignature)
    }
}

/// The rejection of a record that exists where a new one is to be created.
pub open spec fn fresh(account: AccountView) -> Result<(), Rejection> {
    if account.data@.len() == 0 {
        Ok(())
    } else {
        Err(Rejection::AccountAlreadyInitialized)
    }
}

/// Accepts a record that does not exist yet.
pub fn assert_fresh(account: &AccountView) -> (r: Result<(), Rejection>)
    ensures
        r == fresh(*account),
{
    if account.data.len() == 0 {
        Ok(())
    } else {
        Err(Rejection::AccountAlreadyInitialized)
    }
}

/// The rejection of a record that is not the host's record of deposit rules.
pub open spec fn is_rent_sysvar(env: Environment, account: AccountView) -> Result<(), Rejection> {
    if account.key@ == env.rent_sysvar@ {
        Ok(())
    } else {
        Err(Rejection::InvalidArgument)
    }
}

/// Accepts the host's record of deposit rules.
pub fn assert_rent_sysvar(env: &Environment, account: &AccountView) -> (r: Result<(), Rejection>)
    ensures
        r == is_rent_sysvar(*env, *account),
{
    if account.key.same(&env.rent_sysvar) {
        Ok(())
    } else {
        Err(Rejection::InvalidArgument)
    }
}

} // verus!
