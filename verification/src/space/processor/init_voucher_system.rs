//! Creation of a neighborhood's vouchers: a new asset class, its source and
//! sink holdings, and one voucher per space.

use crate::error::Rejection;
use crate::grid::NEIGHBORHOOD_SIZE;
use crate::holding::ASSET_CLASS_LEN;
use crate::holding::HOLDING_LEN;
use crate::host::assert_enough;
use crate::host::assert_fresh;
use crate::host::assert_rent_sysvar;
use crate::host::assert_signed;
use crate::host::enough;
use crate::host::fresh;
use crate::host::is_rent_sysvar;
use crate::host::require;
use crate::host::signed;
use crate::host::verdict;
use crate::host::AccountView;
use crate::host::Effect;
use crate::host::Environment;
use crate::host::Outcome;
use crate::host::OutcomeView;
use crate::key::Key;
use crate::locator::Domain;
use crate::locator::Locator;
use crate::locator::RecordKey;
use crate::locator::Signer;
use crate::space::instruction::InitVoucherSystemArgs;
use crate::space::state::NeighborhoodMetadata;
use crate::validation_utils::assert_keys_equal;
use crate::validation_utils::get_associated_token_address;
use crate::validation_utils::holding_location;
use crate::validation_utils::keys_equal;
use vstd::prelude::*;

verus! {

/// Vouchers issued per neighborhood: one for each of its spaces.
pub const VOUCHER_SUPPLY: u64 = 40000;

/// Position of each record in the list that the operation is handed.
pub const BASE: usize = 0;

pub const NEIGHBORHOOD_METADATA: usize = 1;

pub const CREATOR: usize = 2;

pub const VOUCHER_MINT_AUTHORITY: usize = 3;

pub const VOUCHER_MINT: usize = 4;

pub const SOURCE_HOLDING: usize = 5;

pub const SINK_HOLDING: usize = 6;

pub const SYSTEM_PROGRAM: usize = 7;

pub const TOKEN_PROGRAM: usize = 8;

pub const ASSOCIATED_TOKEN_PROGRAM: usize = 9;

pub const RENT_SYSVAR: usize = 10;

/// Number of records that the operation reads.
pub const ACCOUNTS: usize = 11;

/// One voucher per space of a neighborhood.
pub proof fn lemma_voucher_supply()
    ensures
        VOUCHER_SUPPLY == NEIGHBORHOOD_SIZE * NEIGHBORHOOD_SIZE,
{
}

/// The logical address of a record of the neighborhood at the coordinates in
/// `args`.
pub open spec fn neighborhood_record(base: Key, domain: Domain, args: InitVoucherSystemArgs)
    -> Locator {
    Locator {
        base,
        domain,
        key: RecordKey::Coordinates(args.neighborhood_x, args.neighborhood_y),
    }
}

/// The rejection of a source holding that does not lie where the canonical
/// holding of the voucher authority lies.
pub open spec fn source_is_canonical(env: Environment, accounts: Seq<AccountView>) -> Result<
    (),
    Rejection,
> {
    match holding_location(env, accounts[3].key, accounts[4].key) {
        None => Err(Rejection::InvalidSeeds),
        Some(location) => keys_located(location, accounts[5].key),
    }
}

/// The rejection of a key that is not at `location`.
pub open spec fn keys_located(location: Seq<u8>, key: Key) -> Result<(), Rejection> {
    if location == key@ {
        Ok(())
    } else {
        Err(Rejection::Custom(crate::error::CustomError::PublicKeyMismatch))
    }
}

/// The rejection of a caller who is not the neighborhood's creator.
pub open spec fn is_creator(metadata: NeighborhoodMetadata, caller: Key) -> Result<(), Rejection> {
    if metadata.creator@ == caller@ {
        Ok(())
    } else {
        Err(Rejection::IllegalOwner)
    }
}

/// What the host is asked to do once the vouchers may be created: create and
/// initialize the asset class, create the source holding of the voucher
/// authority, create and initialize the sink, and issue every voucher into
/// the source.
pub open spec fn issuance(
    env: Environment,
    base: Key,
    args: InitVoucherSystemArgs,
    mint_disambiguator: u8,
    sink_disambiguator: u8,
) -> OutcomeView {
    let mint_signer = Some(
        Signer {
            locator: neighborhood_record(base, Domain::VoucherMint, args),
            disambiguator: mint_disambiguator,
        },
    );
    let sink_signer = Some(
        Signer {
            locator: neighborhood_record(base, Domain::VoucherSink, args),
            disambiguator: sink_disambiguator,
        },
    );
    OutcomeView {
        effects: seq![
            Effect::CreateRecord {
                payer: 2,
                record: 4,
                space: 82,
                owner: env.token_program,
                signer: mint_signer,
            },
            Effect::InitClass { class: 4, authority: 3, signer: mint_signer },
            Effect::CreateHolding { payer: 2, wallet: 3, class: 4, holding: 5 },
            Effect::CreateRecord {
                payer: 2,
                record: 6,
                space: 165,
                owner: env.token_program,
                signer: sink_signer,
            },
            Effect::InitHolding { holding: 6, class: 4, wallet: 7, signer: sink_signer },
            Effect::Mint { class: 4, destination: 5, authority: 3, amount: 40000 },
        ],
        patches: seq![],
    }
}

/// The outcome of the operation: the first check that fails rejects it; where
/// none fails, the vouchers are issued.
///
/// In order: the list holds every record; the last is the host's record of
/// deposit rules; the creator and the voucher authority both authorized the
/// call; the four host programs are the deployment's; the neighborhood's
/// metadata decodes and lies at its reconstructed location; the asset class
/// and the sink lie at their discovered locations; the asset class does not
/// exist yet; the source holding lies at the canonical location; and the
/// caller is the neighborhood's creator.
pub open spec fn outcome_of(
    env: Environment,
    program_id: Key,
    accounts: Seq<AccountView>,
    args: InitVoucherSystemArgs,
) -> Result<OutcomeView, Rejection> {
    let metadata = NeighborhoodMetadata::parse(accounts[1].data@);
    let base = accounts[0].key;
    let mint = neighborhood_record(base, Domain::VoucherMint, args).discovers(
        program_id@,
        accounts[4].key@,
    );
    let sink = neighborhood_record(base, Domain::VoucherSink, args).discovers(
        program_id@,
        accounts[6].key@,
    );
    require(
        enough(accounts, 11),
        require(
            is_rent_sysvar(env, accounts[10]),
            require(
                signed(accounts[2]),
                require(
                    signed(accounts[3]),
                    require(
                        keys_equal(env.system_program, accounts[7].key),
                        require(
                            keys_equal(env.token_program, accounts[8].key),
                            require(
                                keys_equal(env.associated_token_program, accounts[9].key),
                                require(
                                    keys_equal(env.rent_sysvar, accounts[10].key),
                                    if metadata is None {
                                        Err(Rejection::RecordUnreadable)
                                    } else {
                                        require(
                                            neighborhood_record(
                                                base,
                                                Domain::NeighborhoodMetadata,
                                                args,
                                            ).checks(
                                                program_id@,
                                                metadata.unwrap().bump,
                                                accounts[1].key@,
                                            ),
                                            match mint {
                                                Err(e) => Err(e),
                                                Ok(mint_disambiguator) => match sink {
                                                    Err(e) => Err(e),
                                                    Ok(sink_disambiguator) => require(
                                                        fresh(accounts[4]),
                                                        require(
                                                            source_is_canonical(env, accounts),
                                                            require(
                                                                is_creator(
                                                                    metadata.unwrap(),
                                                                    accounts[2].key,
                                                                ),
                                                                Ok(
                                                                    issuance(
                                                                        env,
                                                                        base,
                                                                        args,
                                                                        mint_disambiguator,
                                                                        sink_disambiguator,
                                                                    ),
                                                                ),
                                                            ),
                                                        ),
                                                    ),
                                                },
                                            },
                                        )
                                    },
                                ),
                            ),
                        ),
                    ),
                ),
            ),
        ),
    )
}

/// Creates the vouchers of a neighborhood on behalf of its creator.
pub fn process(
    env: &Environment,
    program_id: &Key,
    accounts: &[AccountView],
    args: &InitVoucherSystemArgs,
) -> (r: Result<Outcome, Rejection>)
    ensures
        verdict(r) == outcome_of(*env, *program_id, accounts@, *args),
{
    assert_enough(accounts, ACCOUNTS)?;
    let base = &accounts[BASE];
    let neighborhood_metadata = &accounts[NEIGHBORHOOD_METADATA];
    let creator = &accounts[CREATOR];
    let voucher_mint_auth = &accounts[VOUCHER_MINT_AUTHORITY];
    let voucher_mint = &accounts[VOUCHER_MINT];
    let source_ata_voucher = &accounts[SOURCE_HOLDING];
    let sink_account_voucher = &accounts[SINK_HOLDING];
    let rent_sysvar_info = &accounts[RENT_SYSVAR];

    assert_rent_sysvar(env, rent_sysvar_info)?;
    assert_signed(creator)?;
    assert_signed(voucher_mint_auth)?;

    assert_keys_equal(env.system_program, accounts[SYSTEM_PROGRAM].key)?;
    assert_keys_equal(env.token_program, accounts[TOKEN_PROGRAM].key)?;
    assert_keys_equal(env.associated_token_program, accounts[ASSOCIATED_TOKEN_PROGRAM].key)?;
    assert_keys_equal(env.rent_sysvar, rent_sysvar_info.key)?;

    let metadata = match NeighborhoodMetadata::decode(neighborhood_metadata.data.as_slice()) {
        Some(m) => m,
        None => return Err(Rejection::RecordUnreadable),
    };
    let coordinates = RecordKey::Coordinates(args.neighborhood_x, args.neighborhood_y);
    let metadata_locator = Locator {
        base: base.key,
        domain: Domain::NeighborhoodMetadata,
        key: coordinates,
    };
    metadata_locator.check(program_id, metadata.bump, &neighborhood_metadata.key)?;

    let mint_locator = Locator { base: base.key, domain: Domain::VoucherMint, key: coordinates };
    let mint_disambiguator = mint_locator.check_fresh(program_id, &voucher_mint.key)?;
    let sink_locator = Locator { base: base.key, domain: Domain::VoucherSink, key: coordinates };
    let sink_disambiguator = sink_locator.check_fresh(program_id, &sink_account_voucher.key)?;

    assert_fresh(voucher_mint)?;

    match get_associated_token_address(env, &voucher_mint_auth.key, &voucher_mint.key) {
        None => return Err(Rejection::InvalidSeeds),
        Some(location) => assert_keys_equal(location, source_ata_voucher.key)?,
    }
    if !metadata.creator.same(&creator.key) {
        return Err(Rejection::IllegalOwner);
    }
    let mint_signer = Some(Signer { locator: mint_locator, disambiguator: mint_disambiguator });
    let sink_signer = Some(Signer { locator: sink_locator, disambiguator: sink_disambiguator });
    let mut outcome = Outcome::new();
    outcome.effect(
        Effect::CreateRecord {
            payer: CREATOR,
            record: VOUCHER_MINT,
            space: ASSET_CLASS_LEN as u64,
            owner: env.token_program,
            signer: mint_signer,
        },
    );
    outcome.effect(
        Effect::InitClass {
            class: VOUCHER_MINT,
            authority: VOUCHER_MINT_AUTHORITY,
            signer: mint_signer,
        },
    );
    outcome.effect(
        Effect::CreateHolding {
            payer: CREATOR,
            wallet: VOUCHER_MINT_AUTHORITY,
            class: VOUCHER_MINT,
            holding: SOURCE_HOLDING,
        },
    );
    outcome.effect(
        Effect::CreateRecord {
            payer: CREATOR,
            record: SINK_HOLDING,
            space: HOLDING_LEN as u64,
            owner: env.token_program,
            signer: sink_signer,
        },
    );
    outcome.effect(
        Effect::InitHolding {
            holding: SINK_HOLDING,
            class: VOUCHER_MINT,
            wallet: SYSTEM_PROGRAM,
            signer: sink_signer,
        },
    );
    outcome.effect(
        Effect::Mint {
            class: VOUCHER_MINT,
            destination: SOURCE_HOLDING,
            authority: VOUCHER_MINT_AUTHORITY,
            amount: VOUCHER_SUPPLY,
        },
    );
    assert(outcome@.effects =~= issuance(
        *env,
        base.key,
        *args,
        mint_disambiguator,
        sink_disambiguator,
    ).effects);
    Ok(outcome)
}

} // verus!
