//! Purchase of a listed space: the unit moves from seller to buyer by the
//! sell delegate's authority, the price is split between the seller and the
//! neighborhood's creator, and the listing is consumed.

use crate::error::CustomError;
use crate::error::Rejection;
use crate::grid::get_neighborhood_xy;
use crate::grid::neighborhood_of;
use crate::holding::TokenHolding;
use crate::host::assert_enough;
use crate::host::enough;
use crate::host::lemma_patched_prefix;
use crate::host::patched;
use crate::host::require;
use crate::host::verdict;
use crate::host::AccountView;
use crate::host::Effect;
use crate::host::Environment;
use crate::host::Outcome;
use crate::host::OutcomeView;
use crate::key::Key;
use crate::locator::Domain;
use crate::locator::Locator;
use crate::locator::RecordKey;
use crate::locator::Signer;
use crate::space::instruction::AcceptOfferArgs;
use crate::space::state::NeighborhoodMetadata;
use crate::space::state::SpaceMetadata;
use crate::space::state::MARKETPLACE_FEE_DIVISOR;
use crate::validation_utils::assert_keys_equal;
use crate::validation_utils::ata_holding;
use crate::validation_utils::get_associated_token_address;
use crate::validation_utils::holding_location;
use crate::validation_utils::keys_equal;
use crate::validation_utils::read_ata;
use vstd::prelude::*;

verus! {

/// Position of each record in the list that the operation is handed.
pub const BASE: usize = 0;

pub const NEIGHBORHOOD_METADATA: usize = 1;

pub const NEIGHBORHOOD_CREATOR: usize = 2;

pub const SPACE_METADATA: usize = 3;

pub const SPACE_MINT: usize = 4;

pub const BUYER: usize = 5;

pub const BUYER_HOLDING: usize = 6;

pub const SELLER: usize = 7;

pub const SELLER_HOLDING: usize = 8;

pub const SELL_DELEGATE: usize = 9;

pub const SYSTEM_PROGRAM: usize = 10;

pub const TOKEN_PROGRAM: usize = 11;

pub const ASSOCIATED_TOKEN_PROGRAM: usize = 12;

pub const RENT_SYSVAR: usize = 13;

/// Number of records that the operation reads.
pub const ACCOUNTS: usize = 14;

/// The marketplace's share of a sale: one hundredth of the price, rounded
/// down.
pub open spec fn fee_of(price: u64) -> u64 {
    price / MARKETPLACE_FEE_DIVISOR
}

/// The marketplace's share of a sale at `price`.
pub fn marketplace_fee(price: u64) -> (fee: u64)
    ensures
        fee == fee_of(price),
        fee <= price,
        fee * 100 <= price < (fee + 1) * 100,
{
    price / MARKETPLACE_FEE_DIVISOR
}

/// The fee and the seller's proceeds add up to the price, and the fee is the
/// hundredth part of it, rounded down.
pub proof fn lemma_marketplace_split(price: u64)
    ensures
        fee_of(price) + (price - fee_of(price)) == price,
        fee_of(price) * 100 <= price < (fee_of(price) + 1) * 100,
        price == 1000 ==> fee_of(price) == 10 && price - fee_of(price) == 990,
{
}

/// The rejection of a host program that is not the deployment's.
pub open spec fn programs_match(env: Environment, accounts: Seq<AccountView>) -> Result<
    (),
    Rejection,
> {
    require(
        keys_equal(env.system_program, accounts[10].key),
        require(
            keys_equal(env.token_program, accounts[11].key),
            require(
                keys_equal(env.associated_token_program, accounts[12].key),
                keys_equal(env.rent_sysvar, accounts[13].key),
            ),
        ),
    )
}

/// The rejection of a space record that names another asset than the one
/// handed over.
pub open spec fn mint_matches(space: SpaceMetadata, mint: Key) -> Result<(), Rejection> {
    if space.mint@ == mint@ {
        Ok(())
    } else {
        Err(Rejection::Custom(CustomError::MintMismatch))
    }
}

/// Whether the buyer's holding must be created first. A holding that is there
/// must be the buyer's canonical holding of the asset; one that is not there
/// yet must be named by its canonical location.
pub open spec fn buyer_holding(env: Environment, accounts: Seq<AccountView>) -> Result<
    bool,
    Rejection,
> {
    if accounts[6].data@.len() == 0 {
        match holding_location(env, accounts[5].key, accounts[4].key) {
            None => Err(Rejection::InvalidSeeds),
            Some(location) => if location == accounts[6].key@ {
                Ok(true)
            } else {
                Err(Rejection::Custom(CustomError::PublicKeyMismatch))
            },
        }
    } else {
        match ata_holding(env, accounts[6], accounts[5].key, accounts[4].key) {
            Err(e) => Err(e),
            Ok(_) => Ok(false),
        }
    }
}

/// The rejection of a seller's holding on which the sell delegate is not the
/// active delegate.
pub open spec fn listed(holding: TokenHolding, delegate: Key) -> Result<(), Rejection> {
    match holding.delegate {
        Some(d) => if d@ == delegate@ {
            Ok(())
        } else {
            Err(Rejection::InvalidAccountData)
        },
        None => Err(Rejection::InvalidAccountData),
    }
}

/// The rejection of a price other than the listed one.
pub open spec fn price_stands(space: SpaceMetadata, price: u64) -> Result<(), Rejection> {
    if space.price == price {
        Ok(())
    } else {
        Err(Rejection::InvalidInstructionData)
    }
}

/// The sale as the host carries it out: the buyer's holding is created where
/// it is missing; the unit moves from the seller's holding to the buyer's on
/// the sell delegate's authority; the buyer pays the seller the price less
/// the fee, and the fee to the neighborhood's creator; and the space's
/// listing price is written as zero.
pub open spec fn sale(
    base: Key,
    space: SpaceMetadata,
    create_holding: bool,
    delegate_disambiguator: u8,
) -> OutcomeView {
    let fee = fee_of(space.price);
    let settlement = seq![
        Effect::TransferAsset {
            source: 8,
            destination: 6,
            authority: 9,
            amount: 1,
            signer: Some(
                Signer {
                    locator: Locator { base, domain: Domain::SellDelegate, key: RecordKey::Whole },
                    disambiguator: delegate_disambiguator,
                },
            ),
        },
        Effect::TransferFunds { from: 5, to: 7, amount: (space.price - fee) as u64 },
        Effect::TransferFunds { from: 5, to: 2, amount: fee },
    ];
    OutcomeView {
        effects: if create_holding {
            seq![Effect::CreateHolding { payer: 5, wallet: 5, class: 4, holding: 6 }] + settlement
        } else {
            settlement
        },
        patches: seq![(3, 0, (SpaceMetadata { price: 0, ..space }).encoding())],
    }
}

/// The outcome of the operation: the first check that fails rejects it; where
/// none fails, the sale is carried out.
///
/// In order: the list holds every record; the four host programs are the
/// deployment's; the space's metadata decodes, names the asset handed over
/// and lies at its reconstructed location; the neighborhood's metadata
/// decodes and lies at its reconstructed location; the sell delegate lies at
/// its discovered location; the buyer's holding is canonical; the seller's
/// holding is canonical; the creator handed over is the neighborhood's; the
/// sell delegate is the active delegate on the seller's holding; and the
/// price offered is the price listed.
pub open spec fn outcome_of(
    env: Environment,
    program_id: Key,
    accounts: Seq<AccountView>,
    args: AcceptOfferArgs,
) -> Result<OutcomeView, Rejection> {
    let base = accounts[0].key;
    let space = SpaceMetadata::parse(accounts[3].data@);
    let neighborhood = NeighborhoodMetadata::parse(accounts[1].data@);
    let delegate = (Locator { base, domain: Domain::SellDelegate, key: RecordKey::Whole }).discovers(
        program_id@,
        accounts[9].key@,
    );
    let buyer = buyer_holding(env, accounts);
    let seller = ata_holding(env, accounts[8], accounts[7].key, accounts[4].key);
    require(
        enough(accounts, 14),
        require(
            programs_match(env, accounts),
            if space is None {
                Err(Rejection::RecordUnreadable)
            } else {
                require(
                    mint_matches(space.unwrap(), accounts[4].key),
                    require(
                        (Locator {
                            base,
                            domain: Domain::SpaceMetadata,
                            key: RecordKey::Coordinates(args.space_x, args.space_y),
                        }).checks(program_id@, space.unwrap().bump, accounts[3].key@),
                        if neighborhood is None {
                            Err(Rejection::RecordUnreadable)
                        } else {
                            require(
                                (Locator {
                                    base,
                                    domain: Domain::NeighborhoodMetadata,
                                    key: RecordKey::Coordinates(
                                        neighborhood_of(args.space_x as int) as i64,
                                        neighborhood_of(args.space_y as int) as i64,
                                    ),
                                }).checks(
                                    program_id@,
                                    neighborhood.unwrap().bump,
                                    accounts[1].key@,
                                ),
                                match delegate {
                                    Err(e) => Err(e),
                                    Ok(delegate_disambiguator) => match buyer {
                                        Err(e) => Err(e),
                                        Ok(create_holding) => match seller {
                                            Err(e) => Err(e),
                                            Ok(holding) => require(
                                                keys_equal(
                                                    neighborhood.unwrap().creator,
                                                    accounts[2].key,
                                                ),
                                                require(
                                                    listed(holding, accounts[9].key),
                                                    require(
                                                        price_stands(space.unwrap(), args.price),
                                                        Ok(
                                                            sale(
                                                                base,
                                                                space.unwrap(),
                                                                create_holding,
                                                                delegate_disambiguator,
                                                            ),
                                                        ),
                                                    ),
                                                ),
                                            ),
                                        },
                                    },
                                },
                            )
                        },
                    ),
                )
            },
        ),
    )
}

/// A sale consumes the listing. The space's record as the sale writes it
/// carries the price zero and is otherwise unchanged; and whatever else has
/// become of the records since, no later offer at a price other than zero is
/// accepted on it.
pub proof fn lemma_listing_consumed(
    env: Environment,
    program_id: Key,
    accounts: Seq<AccountView>,
    args: AcceptOfferArgs,
    later: Seq<AccountView>,
    later_args: AcceptOfferArgs,
)
    requires
        outcome_of(env, program_id, accounts, args) is Ok,
        later[3].data@ == patched(
            accounts[3].data@,
            0,
            outcome_of(env, program_id, accounts, args).unwrap().patches[0].2,
        ),
        later_args.price != 0,
    ensures
        outcome_of(env, program_id, accounts, args).unwrap().patches.len() == 1,
        outcome_of(env, program_id, accounts, args).unwrap().patches[0].0 == 3,
        SpaceMetadata::parse(later[3].data@) == Some(
            SpaceMetadata { price: 0, ..SpaceMetadata::parse(accounts[3].data@).unwrap() },
        ),
        outcome_of(env, program_id, later, later_args) is Err,
{
    let space = SpaceMetadata::parse(accounts[3].data@).unwrap();
    let sold = SpaceMetadata { price: 0, ..space };
    let data = accounts[3].data@;
    sold.lemma_round_trip(data.subrange(57, data.len() as int));
    lemma_patched_prefix(data, sold.encoding());
}

/// Checks the four host programs.
fn check_programs(env: &Environment, accounts: &[AccountView]) -> (r: Result<(), Rejection>)
    requires
        accounts@.len() >= 14,
    ensures
        r == programs_match(*env, accounts@),
{
    assert_keys_equal(env.system_program, accounts[SYSTEM_PROGRAM].key)?;
    assert_keys_equal(env.token_program, accounts[TOKEN_PROGRAM].key)?;
    assert_keys_equal(env.associated_token_program, accounts[ASSOCIATED_TOKEN_PROGRAM].key)?;
    assert_keys_equal(env.rent_sysvar, accounts[RENT_SYSVAR].key)
}

/// Checks the buyer's holding, and tells whether it must be created.
fn check_buyer_holding(env: &Environment, accounts: &[AccountView]) -> (r: Result<bool, Rejection>)
    requires
        accounts@.len() >= 14,
    ensures
        r == buyer_holding(*env, accounts@),
{
    let buyer = &accounts[BUYER];
    let holding = &accounts[BUYER_HOLDING];
    let mint = &accounts[SPACE_MINT];
    if holding.data.len() == 0 {
        match get_associated_token_address(env, &buyer.key, &mint.key) {
            None => Err(Rejection::InvalidSeeds),
            Some(location) => if location.same(&holding.key) {
                Ok(true)
            } else {
                Err(Rejection::Custom(CustomError::PublicKeyMismatch))
            },
        }
    } else {
        match read_ata(env, holding, &buyer.key, &mint.key) {
            Err(e) => Err(e),
            Ok(_) => Ok(false),
        }
    }
}

/// Accepts a seller's holding on which `delegate` is the active delegate.
pub fn assert_listed(holding: &TokenHolding, delegate: &Key) -> (r: Result<(), Rejection>)
    ensures
        r == listed(*holding, *delegate),
{
    match holding.delegate {
        Some(d) => if d.same(delegate) {
            Ok(())
        } else {
            Err(Rejection::InvalidAccountData)
        },
        None => Err(Rejection::InvalidAccountData),
    }
}

/// Sells a listed space to the buyer at the listed price.
pub fn process(
    env: &Environment,
    program_id: &Key,
    accounts: &[AccountView],
    args: &AcceptOfferArgs,
) -> (r: Result<Outcome, Rejection>)
    ensures
        verdict(r) == outcome_of(*env, *program_id, accounts@, *args),
{
    assert_enough(accounts, ACCOUNTS)?;
    let base = &accounts[BASE];
    let neighborhood_metadata = &accounts[NEIGHBORHOOD_METADATA];
    let neighborhood_creator = &accounts[NEIGHBORHOOD_CREATOR];
    let space_metadata = &accounts[SPACE_METADATA];
    let space_mint = &accounts[SPACE_MINT];
    let seller = &accounts[SELLER];
    let seller_holding = &accounts[SELLER_HOLDING];
    let sell_delegate = &accounts[SELL_DELEGATE];

    check_programs(env, accounts)?;

    let space = match SpaceMetadata::decode(space_metadata.data.as_slice()) {
        Some(s) => s,
        None => return Err(Rejection::RecordUnreadable),
    };
    if !space.mint.same(&space_mint.key) {
        return Err(Rejection::Custom(CustomError::MintMismatch));
    }
    let space_locator = Locator {
        base: base.key,
        domain: Domain::SpaceMetadata,
        key: RecordKey::Coordinates(args.space_x, args.space_y),
    };
    space_locator.check(program_id, space.bump, &space_metadata.key)?;

    let neighborhood = match NeighborhoodMetadata::decode(neighborhood_metadata.data.as_slice()) {
        Some(n) => n,
        None => return Err(Rejection::RecordUnreadable),
    };
    let (neighborhood_x, neighborhood_y) = get_neighborhood_xy(args.space_x, args.space_y);
    let neighborhood_locator = Locator {
        base: base.key,
        domain: Domain::NeighborhoodMetadata,
        key: RecordKey::Coordinates(neighborhood_x, neighborhood_y),
    };
    neighborhood_locator.check(program_id, neighborhood.bump, &neighborhood_metadata.key)?;

    let delegate_locator = Locator {
        base: base.key,
        domain: Domain::SellDelegate,
        key: RecordKey::Whole,
    };
    let delegate_disambiguator = delegate_locator.check_fresh(program_id, &sell_delegate.key)?;

    let create_holding = check_buyer_holding(env, accounts)?;
    let holding = read_ata(env, seller_holding, &seller.key, &space_mint.key)?;

    assert_keys_equal(neighborhood.creator, neighborhood_creator.key)?;
    assert_listed(&holding, &sell_delegate.key)?;
    if space.price != args.price {
        return Err(Rejection::InvalidInstructionData);
    }
    let fee = marketplace_fee(space.price);
    let mut outcome = Outcome::new();
    if create_holding {
        outcome.effect(
            Effect::CreateHolding {
                payer: BUYER,
                wallet: BUYER,
                class: SPACE_MINT,
                holding: BUYER_HOLDING,
            },
        );
    }
    outcome.effect(
        Effect::TransferAsset {
            source: SELLER_HOLDING,
            destination: BUYER_HOLDING,
            authority: SELL_DELEGATE,
            amount: 1,
            signer: Some(Signer { locator: delegate_locator, disambiguator: delegate_disambiguator }),
        },
    );
    outcome.effect(Effect::TransferFunds { from: BUYER, to: SELLER, amount: space.price - fee });
    outcome.effect(Effect::TransferFunds { from: BUYER, to: NEIGHBORHOOD_CREATOR, amount: fee });
    let sold = SpaceMetadata { price: 0, ..space };
    outcome.patch(SPACE_METADATA, 0, sold.encode());
    proof {
        let expected = sale(base.key, space, create_holding, delegate_disambiguator);
        assert(outcome@.effects =~= expected.effects);
        assert(outcome@.patches =~= expected.patches);
    }
    Ok(outcome)
}

} // verus!
