//! Registration of a space: its owner proves custody of the asset, and that
//! the asset is the one minted for these coordinates by the neighborhood's
//! batch mint.

use crate::address::check_discovered;
use crate::address::discovery_checks;
use crate::address::seed_list;
use crate::error::CustomError;
use crate::error::Rejection;
use crate::grid::get_neighborhood_xy;
use crate::grid::neighborhood_of;
use crate::host::assert_enough;
use crate::host::assert_fresh;
use crate::host::assert_signed;
use crate::host::enough;
use crate::host::fresh;
use crate::host::require;
use crate::host::signed;
use crate::host::verdict;
use crate::host::AccountView;
use crate::host::Effect;
use crate::host::Environment;
use crate::host::Outcome;
use crate::host::OutcomeView;
use crate::key::Key;
use crate::locator::Domain;
use crate::locator::Locator;
use crate::locator::RecordKey;
use crate::locator::Signer;
use crate::metadata::asset_metadata_of;
use crate::metadata::read_asset_metadata;
use crate::metadata::AssetMetadata;
use crate::metadata::AssetMetadataView;
use crate::name::get_space_xy_from_name;
use crate::name::name_coordinates;
use crate::space::instruction::InitSpaceMetadataArgs;
use crate::space::state::NeighborhoodMetadata;
use crate::space::state::SpaceMetadata;
use crate::space::state::SPACE_METADATA_RESERVE;
use crate::validation_utils::assert_custody;
use crate::validation_utils::assert_keys_equal;
use crate::validation_utils::custody;
use crate::validation_utils::keys_equal;
use vstd::prelude::*;
use vstd::string::StrSliceExecFns;
use vstd::string::StringSliceAdditionalSpecFns;

verus! {

/// Position of each record in the list that the operation is handed.
pub const BASE: usize = 0;

pub const ASSET_METADATA: usize = 1;

pub const SPACE_METADATA: usize = 2;

pub const SPACE_MINT: usize = 3;

pub const NEIGHBORHOOD_METADATA: usize = 4;

pub const OWNER: usize = 5;

pub const OWNER_HOLDING: usize = 6;

pub const SYSTEM_PROGRAM: usize = 7;

/// Number of records that the operation reads.
pub const ACCOUNTS: usize = 8;

/// Whether an asset is the space at `(x, y)` of the neighborhood: its name
/// ends in these coordinates, and its first declared creator is the
/// neighborhood's batch-mint account and has verified the declaration.
///
/// Refused, in this order: a name without coordinates, or with others; an
/// asset without a declared creator; a first creator that is not the batch
/// mint; and a first creator that did not verify.
pub open spec fn admits(
    x: i64,
    y: i64,
    neighborhood: NeighborhoodMetadata,
    asset: AssetMetadataView,
) -> Result<(), Rejection> {
    if name_coordinates(asset.name) != Some((x, y)) {
        Err(Rejection::InvalidInstructionData)
    } else if asset.creators is None || asset.creators.unwrap().len() == 0 {
        Err(Rejection::InvalidAccountData)
    } else if asset.creators.unwrap()[0].address@ != neighborhood.candymachine_account@ {
        Err(Rejection::Custom(CustomError::PublicKeyMismatch))
    } else if !asset.creators.unwrap()[0].verified {
        Err(Rejection::InvalidAccountData)
    } else {
        Ok(())
    }
}

/// Decides whether the asset with the given metadata is the space at
/// `(x, y)` of the given neighborhood.
pub fn admit_space(x: i64, y: i64, neighborhood: &NeighborhoodMetadata, asset: &AssetMetadata) -> (r:
    Result<(), Rejection>)
    ensures
        r == admits(x, y, *neighborhood, asset@),
{
    match get_space_xy_from_name(asset.name.as_str()) {
        None => return Err(Rejection::InvalidInstructionData),
        Some((name_x, name_y)) => if name_x != x || name_y != y {
            return Err(Rejection::InvalidInstructionData);
        },
    }
    match &asset.creators {
        None => Err(Rejection::InvalidAccountData),
        Some(creators) => if creators.len() == 0 {
            Err(Rejection::InvalidAccountData)
        } else if !creators[0].address.same(&neighborhood.candymachine_account) {
            Err(Rejection::Custom(CustomError::PublicKeyMismatch))
        } else if !creators[0].verified {
            Err(Rejection::InvalidAccountData)
        } else {
            Ok(())
        },
    }
}

/// The seeds of the creator-verification record of the asset `mint`.
pub open spec fn asset_metadata_seeds(env: Environment, mint: Key) -> Seq<Seq<u8>> {
    seq!["metadata".spec_bytes(), env.metadata_program@, mint@]
}

/// The rejection of a record that is not the creator-verification record of
/// the asset: that record lies where discovery under the metadata program's
/// authority finds it.
pub open spec fn is_asset_metadata(env: Environment, mint: Key, claimed: Key) -> Result<
    (),
    Rejection,
> {
    match discovery_checks(env.metadata_program@, asset_metadata_seeds(env, mint), claimed@) {
        Err(e) => Err(e),
        Ok(_) => Ok(()),
    }
}

/// Accepts the creator-verification record of the asset `mint`.
pub fn assert_asset_metadata(env: &Environment, mint: &Key, claimed: &Key) -> (r: Result<
    (),
    Rejection,
>)
    ensures
        r == is_asset_metadata(*env, *mint, *claimed),
{
    let mut seeds: Vec<Vec<u8>> = Vec::new();
    seeds.push("metadata".as_bytes_vec());
    seeds.push(env.metadata_program.to_vec());
    seeds.push(mint.to_vec());
    assert(seed_list(seeds@) =~= asset_metadata_seeds(*env, *mint));
    match check_discovered(&env.metadata_program, &seeds, claimed) {
        Err(e) => Err(e),
        Ok(_) => Ok(()),
    }
}

/// The logical key of the neighborhood that holds the space in `args`.
pub open spec fn neighborhood_key(args: InitSpaceMetadataArgs) -> RecordKey {
    RecordKey::Coordinates(
        neighborhood_of(args.space_x as int) as i64,
        neighborhood_of(args.space_y as int) as i64,
    )
}

/// The logical address of the metadata of the space in `args`.
pub open spec fn space_record(base: Key, args: InitSpaceMetadataArgs) -> Locator {
    Locator {
        base,
        domain: Domain::SpaceMetadata,
        key: RecordKey::Coordinates(args.space_x, args.space_y),
    }
}

/// What the host is asked to do: create the space's metadata, and write it
/// with the asset, the coordinates and no listing price.
pub open spec fn registration(
    program_id: Key,
    accounts: Seq<AccountView>,
    args: InitSpaceMetadataArgs,
    disambiguator: u8,
) -> OutcomeView {
    OutcomeView {
        effects: seq![
            Effect::CreateRecord {
                payer: 5,
                record: 2,
                space: SPACE_METADATA_RESERVE as u64,
                owner: program_id,
                signer: Some(
                    Signer { locator: space_record(accounts[0].key, args), disambiguator },
                ),
            },
        ],
        patches: seq![
            (
                2,
                0,
                (SpaceMetadata {
                    bump: disambiguator,
                    mint: accounts[3].key,
                    price: 0,
                    space_x: args.space_x,
                    space_y: args.space_y,
                }).encoding(),
            ),
        ],
    }
}

/// The outcome of the operation: the first check that fails rejects it; where
/// none fails, the space is registered.
///
/// In order: the list holds every record; the owner authorized the call; the
/// system program is the deployment's; the neighborhood's metadata decodes
/// and lies at its reconstructed location; the space's metadata lies at its
/// discovered location; the creator-verification record is the asset's own
/// and can be read; the owner has exclusive custody of the asset; the asset
/// is the space at these coordinates of this neighborhood; and the space's
/// metadata does not exist yet.
pub open spec fn outcome_of(
    env: Environment,
    program_id: Key,
    accounts: Seq<AccountView>,
    args: InitSpaceMetadataArgs,
) -> Result<OutcomeView, Rejection> {
    let base = accounts[0].key;
    require(
        enough(accounts, 8),
        require(
            signed(accounts[5]),
            require(
                keys_equal(env.system_program, accounts[7].key),
                match NeighborhoodMetadata::parse(accounts[4].data@) {
                    None => Err(Rejection::RecordUnreadable),
                    Some(neighborhood) => require(
                        (Locator {
                            base,
                            domain: Domain::NeighborhoodMetadata,
                            key: neighborhood_key(args),
                        }).checks(program_id@, neighborhood.bump, accounts[4].key@),
                        match space_record(base, args).discovers(program_id@, accounts[2].key@) {
                            Err(e) => Err(e),
                            Ok(disambiguator) => require(
                                is_asset_metadata(env, accounts[3].key, accounts[1].key),
                                match asset_metadata_of(accounts[1].data@) {
                                    None => Err(Rejection::InvalidAccountData),
                                    Some(asset) => require(
                                        custody(env, accounts[6], accounts[5].key, accounts[3].key),
                                        require(
                                            admits(args.space_x, args.space_y, neighborhood, asset),
                                            require(
                                                fresh(accounts[2]),
                                                Ok(
                                                    registration(
                                                        program_id,
                                                        accounts,
                                                        args,
                                                        disambiguator,
                                                    ),
                                                ),
                                            ),
                                        ),
                                    ),
                                },
                            ),
                        },
                    ),
                },
            ),
        ),
    )
}

/// Registers the space at the coordinates in `args` on behalf of the owner
/// of its asset.
pub fn process(
    env: &Environment,
    program_id: &Key,
    accounts: &[AccountView],
    args: &InitSpaceMetadataArgs,
) -> (r: Result<Outcome, Rejection>)
    ensures
        verdict(r) == outcome_of(*env, *program_id, accounts@, *args),
{
    assert_enough(accounts, ACCOUNTS)?;
    let base = &accounts[BASE];
    let space_metaplex_metadata = &accounts[ASSET_METADATA];
    let space_metadata = &accounts[SPACE_METADATA];
    let space_mint = &accounts[SPACE_MINT];
    let neighborhood_metadata = &accounts[NEIGHBORHOOD_METADATA];
    let space_owner = &accounts[OWNER];

    assert_signed(space_owner)?;
    assert_keys_equal(env.system_program, accounts[SYSTEM_PROGRAM].key)?;

    let neighborhood = match NeighborhoodMetadata::decode(neighborhood_metadata.data.as_slice()) {
        Some(n) => n,
        None => return Err(Rejection::RecordUnreadable),
    };
    let (neighborhood_x, neighborhood_y) = get_neighborhood_xy(args.space_x, args.space_y);
    (Locator {
        base: base.key,
        domain: Domain::NeighborhoodMetadata,
        key: RecordKey::Coordinates(neighborhood_x, neighborhood_y),
    }).check(program_id, neighborhood.bump, &neighborhood_metadata.key)?;

    let space_locator = Locator {
        base: base.key,
        domain: Domain::SpaceMetadata,
        key: RecordKey::Coordinates(args.space_x, args.space_y),
    };
    let disambiguator = space_locator.check_fresh(program_id, &space_metadata.key)?;

    assert_asset_metadata(env, &space_mint.key, &space_metaplex_metadata.key)?;
    let asset = match read_asset_metadata(space_metaplex_metadata.data.as_slice()) {
        Some(a) => a,
        None => return Err(Rejection::InvalidAccountData),
    };
    assert_custody(env, &accounts[OWNER_HOLDING], &space_owner.key, &space_mint.key)?;
    admit_space(args.space_x, args.space_y, &neighborhood, &asset)?;
    assert_fresh(space_metadata)?;

    let record = SpaceMetadata {
        bump: disambiguator,
        mint: space_mint.key,
        price: 0,
        space_x: args.space_x,
        space_y: args.space_y,
    };
    let mut outcome = Outcome::new();
    outcome.effect(
        Effect::CreateRecord {
            payer: OWNER,
            record: SPACE_METADATA,
            space: SPACE_METADATA_RESERVE as u64,
            owner: *program_id,
            signer: Some(Signer { locator: space_locator, disambiguator }),
        },
    );
    outcome.patch(SPACE_METADATA, 0, record.encode());
    proof {
        let expected = registration(*program_id, accounts@, *args, disambiguator);
        assert(outcome@.effects =~= expected.effects);
        assert(outcome@.patches =~= expected.patches);
    }
    Ok(outcome)
}

} // verus!
