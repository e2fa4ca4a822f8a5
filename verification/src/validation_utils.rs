//! Checks on the records that the caller supplied: identities, ownership and
//! exclusive custody of an asset.

use crate::address::discover;
use crate::address::discover_spec;
use crate::address::seed_list;
use crate::error::CustomError;
use crate::error::Rejection;
use crate::holding::initialized_holding;
use crate::holding::initialized_holding_of;
use crate::holding::read_holding;
use crate::holding::token_account_fields;
use crate::holding::TokenHolding;
use crate::host::AccountView;
use crate::host::Environment;
use crate::key::Key;
use vstd::prelude::*;

verus! {

/// The rejection of two identities that should be one.
pub open spec fn keys_equal(key1: Key, key2: Key) -> Result<(), Rejection> {
    if key1@ == key2@ {
        Ok(())
    } else {
        Err(Rejection::Custom(CustomError::PublicKeyMismatch))
    }
}

/// Accepts two identities that are the same.
pub fn assert_keys_equal(key1: Key, key2: Key) -> (r: Result<(), Rejection>)
    ensures
        r == keys_equal(key1, key2),
{
    if key1.same(&key2) {
        Ok(())
    } else {
        Err(Rejection::Custom(CustomError::PublicKeyMismatch))
    }
}

/// The rejection of a record that another program owns.
pub open spec fn owned_by(account: AccountView, owner: Key) -> Result<(), Rejection> {
    if account.owner@ == owner@ {
        Ok(())
    } else {
        Err(Rejection::Custom(CustomError::OwnerAccountMismatch))
    }
}

/// Accepts a record that `owner` owns.
pub fn assert_owned_by(account: &AccountView, owner: &Key) -> (r: Result<(), Rejection>)
    ensures
        r == owned_by(*account, *owner),
{
    if account.owner.same(owner) {
        Ok(())
    } else {
        Err(Rejection::Custom(CustomError::OwnerAccountMismatch))
    }
}

/// Reads the record as a holding and accepts it if it is initialized.
pub fn assert_initialized(account: &AccountView) -> (r: Result<TokenHolding, Rejection>)
    ensures
        r == initialized_holding_of(token_account_fields(account.data@)),
{
    initialized_holding(read_holding(account.data.as_slice()))
}

/// The seeds of the canonical holding of `wallet` for the asset class `mint`.
pub open spec fn holding_seeds(env: Environment, wallet: Key, mint: Key) -> Seq<Seq<u8>> {
    seq![wallet@, env.token_program@, mint@]
}

/// The location of the canonical holding of `wallet` for the asset class
/// `mint`: the one discovered under the authority of the program that owns
/// such holdings.
pub open spec fn holding_location(env: Environment, wallet: Key, mint: Key) -> Option<Seq<u8>> {
    match discover_spec(env.associated_token_program@, holding_seeds(env, wallet, mint)) {
        Some((location, _)) => Some(location),
        None => None,
    }
}

/// The location of the canonical holding of `wallet` for the asset class
/// `mint`.
pub fn get_associated_token_address(env: &Environment, wallet: &Key, mint: &Key) -> (r: Option<Key>)
    ensures
        match r {
            Some(k) => holding_location(*env, *wallet, *mint) == Some(k@),
            None => holding_location(*env, *wallet, *mint) is None,
        },
{
    let mut seeds: Vec<Vec<u8>> = Vec::new();
    seeds.push(wallet.to_vec());
    seeds.push(env.token_program.to_vec());
    seeds.push(mint.to_vec());
    assert(seed_list(seeds@) =~= holding_seeds(*env, *wallet, *mint));
    match discover(&env.associated_token_program, &seeds) {
        Some((location, _)) => Some(location),
        None => None,
    }
}

/// Whether the record is the canonical holding of `wallet` for `mint`, given
/// what the ledger's layout read out of it and where that holding lies.
pub open spec fn canonical_holding_of(
    env: Environment,
    record_key: Key,
    record_owner: Key,
    wallet: Key,
    unpacked: Option<TokenHolding>,
    location: Option<Seq<u8>>,
) -> Result<TokenHolding, Rejection> {
    if record_owner@ != env.token_program@ {
        Err(Rejection::Custom(CustomError::OwnerAccountMismatch))
    } else {
        match initialized_holding_of(unpacked) {
            Err(e) => Err(e),
            Ok(h) => if h.owner@ != wallet@ {
                Err(Rejection::Custom(CustomError::PublicKeyMismatch))
            } else {
                match location {
                    None => Err(Rejection::InvalidSeeds),
                    Some(l) => if l != record_key@ {
                        Err(Rejection::Custom(CustomError::PublicKeyMismatch))
                    } else {
                        Ok(h)
                    },
                }
            },
        }
    }
}

/// Decides whether a record is the canonical holding of `wallet`: it belongs
/// to the ledger, is an initialized holding, names `wallet` as its owner and
/// lies where that holding must lie. The checks are made in this order and
/// the first that fails decides the rejection.
pub fn canonical_holding(
    env: &Environment,
    record: &AccountView,
    wallet: &Key,
    unpacked: Option<TokenHolding>,
    location: Option<Key>,
) -> (r: Result<TokenHolding, Rejection>)
    ensures
        r == canonical_holding_of(
            *env,
            record.key,
            record.owner,
            *wallet,
            unpacked,
            match location {
                Some(k) => Some(k@),
                None => None,
            },
        ),
{
    if !record.owner.same(&env.token_program) {
        return Err(Rejection::Custom(CustomError::OwnerAccountMismatch));
    }
    match initialized_holding(unpacked) {
        Err(e) => Err(e),
        Ok(h) => if !h.owner.same(wallet) {
            Err(Rejection::Custom(CustomError::PublicKeyMismatch))
        } else {
            match location {
                None => Err(Rejection::InvalidSeeds),
                Some(l) => if !l.same(&record.key) {
                    Err(Rejection::Custom(CustomError::PublicKeyMismatch))
                } else {
                    Ok(h)
                },
            }
        },
    }
}

/// The holding in `ata`, provided that record is the canonical holding of
/// `wallet` for `mint`.
pub open spec fn ata_holding(env: Environment, ata: AccountView, wallet: Key, mint: Key) -> Result<
    TokenHolding,
    Rejection,
> {
    canonical_holding_of(
        env,
        ata.key,
        ata.owner,
        wallet,
        token_account_fields(ata.data@),
        holding_location(env, wallet, mint),
    )
}

/// Reads the canonical holding of `wallet` for `mint` out of `ata`.
pub fn read_ata(env: &Environment, ata: &AccountView, wallet: &Key, mint: &Key) -> (r: Result<
    TokenHolding,
    Rejection,
>)
    ensures
        r == ata_holding(*env, *ata, *wallet, *mint),
{
    let unpacked = read_holding(ata.data.as_slice());
    let location = get_associated_token_address(env, wallet, mint);
    canonical_holding(env, ata, wallet, unpacked, location)
}

/// Whether `ata` is the canonical holding of `wallet` for `mint`.
pub open spec fn is_ata(env: Environment, ata: AccountView, wallet: Key, mint: Key) -> Result<
    (),
    Rejection,
> {
    match ata_holding(env, ata, wallet, mint) {
        Ok(_) => Ok(()),
        Err(e) => Err(e),
    }
}

/// Accepts `ata` if it is the canonical holding of `wallet` for `mint`.
pub fn assert_is_ata(env: &Environment, ata: &AccountView, wallet: &Key, mint: &Key) -> (r: Result<
    (),
    Rejection,
>)
    ensures
        r == is_ata(*env, *ata, *wallet, *mint),
{
    match read_ata(env, ata, wallet, mint) {
        Ok(_) => Ok(()),
        Err(e) => Err(e),
    }
}

/// Whether a holding shows exclusive custody: exactly one unit.
pub open spec fn sole_unit(h: TokenHolding) -> Result<(), Rejection> {
    if h.amount == 1 {
        Ok(())
    } else {
        Err(Rejection::Custom(CustomError::MissingTokenOwner))
    }
}

/// Whether `wallet` has exclusive custody of the asset `mint`: `ata` is its
/// canonical holding and holds exactly one unit.
pub open spec fn custody(env: Environment, ata: AccountView, wallet: Key, mint: Key) -> Result<
    (),
    Rejection,
> {
    match ata_holding(env, ata, wallet, mint) {
        Err(e) => Err(e),
        Ok(h) => sole_unit(h),
    }
}

/// Accepts a holding of exactly one unit.
pub fn assert_sole_unit(h: &TokenHolding) -> (r: Result<(), Rejection>)
    ensures
        r == sole_unit(*h),
{
    if h.amount == 1 {
        Ok(())
    } else {
        Err(Rejection::Custom(CustomError::MissingTokenOwner))
    }
}

/// Confirms that `wallet` exclusively holds the one unit of the asset `mint`.
pub fn assert_custody(env: &Environment, ata: &AccountView, wallet: &Key, mint: &Key) -> (r: Result<
    (),
    Rejection,
>)
    ensures
        r == custody(*env, *ata, *wallet, *mint),
{
    match read_ata(env, ata, wallet, mint) {
        Err(e) => Err(e),
        Ok(h) => assert_sole_unit(&h),
    }
}

} // verus!
