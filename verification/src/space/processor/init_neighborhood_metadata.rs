//! Creation of a neighborhood: its creator pays the price of the location,
//! unless the founder's fee waiver applies, and the neighborhood is entered
//! in the base's list.

use crate::error::Rejection;
use crate::grid::get_neighborhood_xy;
use crate::grid::is_creation_price;
use crate::grid::creation_price;
use crate::grid::neighborhood_of;
use crate::host::assert_enough;
use crate::host::assert_fresh;
use crate::host::assert_rent_sysvar;
use crate::host::assert_signed;
use crate::host::enough;
use crate::host::fresh;
use crate::host::is_rent_sysvar;
use crate::host::require;
use crate::host::signed;
use crate::host::verdict;
use crate::host::AccountView;
use crate::host::Effect;
use crate::host::Environment;
use crate::host::Outcome;
use crate::host::OutcomeView;
use crate::key::Key;
use crate::locator::Domain;
use crate::locator::Locator;
use crate::locator::RecordKey;
use crate::locator::Signer;
use crate::name::bytes_coordinates;
use crate::name::get_space_xy_from_bytes;
use crate::space::instruction::InitNeighborhoodMetadataArgs;
use crate::space::state::Base;
use crate::space::state::NeighborhoodList;
use crate::space::state::NeighborhoodListView;
use crate::space::state::NeighborhoodMetadata;
use crate::space::state::MAX_NEIGHBORHOODS;
use crate::space::state::NEIGHBORHOOD_METADATA_RESERVE;
use crate::validation_utils::assert_is_ata;
use crate::validation_utils::assert_keys_equal;
use crate::validation_utils::is_ata;
use crate::validation_utils::keys_equal;
use crate::wire::get_key;
use crate::wire::key_at;
use vstd::prelude::*;
use vstd::slice::slice_subrange;

verus! {

/// Position of each record in the list that the operation is handed.
pub const BASE: usize = 0;

pub const NEIGHBORHOOD_METADATA: usize = 1;

pub const NEIGHBORHOOD_LIST: usize = 2;

pub const MINT_CONFIG: usize = 3;

pub const MINT_ACCOUNT: usize = 4;

pub const CREATOR: usize = 5;

pub const CREATOR_HOLDING: usize = 6;

pub const PAYMENT_MINT: usize = 7;

pub const SYSTEM_PROGRAM: usize = 8;

pub const TOKEN_PROGRAM: usize = 9;

pub const RENT_SYSVAR: usize = 10;

/// Number of records that the operation reads.
pub const ACCOUNTS: usize = 11;

/// Offset of the authority in a batch-mint configuration.
pub const CONFIG_AUTHORITY_OFFSET: usize = 8;

/// Where the name of the first asset starts in a batch-mint configuration.
pub const CONFIG_NAME_START: usize = 255;

/// Where the name of the first asset ends in a batch-mint configuration.
pub const CONFIG_NAME_END: usize = 283;

/// The list with one more neighborhood, or why it takes none: a list whose
/// two halves differ in length, or hold more than `MAX_NEIGHBORHOODS`, is
/// damaged; a list of `MAX_NEIGHBORHOODS` is full.
pub open spec fn appended(list: NeighborhoodListView, x: i64, y: i64) -> Result<
    NeighborhoodListView,
    Rejection,
> {
    if !list.wf() {
        Err(Rejection::InvalidAccountData)
    } else if list.xs.len() >= MAX_NEIGHBORHOODS {
        Err(Rejection::InvalidInstructionData)
    } else {
        Ok(list.with(x, y))
    }
}

/// Enters the neighborhood at `(x, y)` at the end of a list that has room.
pub fn append_neighborhood(list: NeighborhoodList, x: i64, y: i64) -> (r: Result<
    NeighborhoodList,
    Rejection,
>)
    ensures
        match r {
            Ok(next) => appended(list@, x, y) == Ok::<NeighborhoodListView, Rejection>(next@),
            Err(e) => appended(list@, x, y) == Err::<NeighborhoodListView, Rejection>(e),
        },
{
    let n: usize = list.neighborhoods_x.len();
    if n != list.neighborhoods_y.len() || n > MAX_NEIGHBORHOODS {
        return Err(Rejection::InvalidAccountData);
    }
    if n >= MAX_NEIGHBORHOODS {
        return Err(Rejection::InvalidInstructionData);
    }
    let mut xs = list.neighborhoods_x;
    let mut ys = list.neighborhoods_y;
    xs.push(x);
    ys.push(y);
    Ok(NeighborhoodList { bump: list.bump, neighborhoods_x: xs, neighborhoods_y: ys })
}

/// A list takes neighborhoods exactly until it holds `MAX_NEIGHBORHOODS`:
/// what it takes goes to its end, what it held stays where it was, and the
/// list stays well formed.
pub proof fn lemma_neighborhood_capacity(list: NeighborhoodListView, x: i64, y: i64)
    requires
        list.wf(),
    ensures
        list.xs.len() < MAX_NEIGHBORHOODS <==> appended(list, x, y) is Ok,
        list.xs.len() == MAX_NEIGHBORHOODS ==> appended(list, x, y) == Err::<
            NeighborhoodListView,
            Rejection,
        >(Rejection::InvalidInstructionData),
        appended(list, x, y) matches Ok(next) ==> {
            &&& next.wf()
            &&& next.bump == list.bump
            &&& next.xs.len() == list.xs.len() + 1
            &&& next.xs.last() == x
            &&& next.ys.last() == y
            &&& next.xs.drop_last() == list.xs
            &&& next.ys.drop_last() == list.ys
        },
{
    if appended(list, x, y) is Ok {
        let next = appended(list, x, y).unwrap();
        assert(next.xs.drop_last() =~= list.xs);
        assert(next.ys.drop_last() =~= list.ys);
    }
}

/// Whether the creator pays nothing: the founder's fee waiver is in force and
/// the creator is the base's authority.
pub open spec fn waived(base: Base, creator: Key) -> bool {
    base.authority_privileges && base.authority@ == creator@
}

/// Whether the creator pays nothing.
pub fn is_waived(base: &Base, creator: &Key) -> (r: bool)
    ensures
        r == waived(*base, *creator),
{
    base.authority_privileges && base.authority.same(creator)
}

/// The coordinates of the first asset that a batch-mint configuration names.
///
/// A configuration that ends before the name is refused as damaged; one
/// whose name is no text, or ends in no coordinates, as an invalid
/// instruction.
pub open spec fn config_coordinates(config: Seq<u8>) -> Result<(i64, i64), Rejection> {
    if config.len() < CONFIG_NAME_END {
        Err(Rejection::InvalidAccountData)
    } else {
        match bytes_coordinates(config.subrange(CONFIG_NAME_START as int, CONFIG_NAME_END as int)) {
            None => Err(Rejection::InvalidInstructionData),
            Some(c) => Ok(c),
        }
    }
}

/// The rejection of a batch-mint configuration whose first asset is no space
/// of the neighborhood in `args`.
pub open spec fn config_matches(config: Seq<u8>, args: InitNeighborhoodMetadataArgs) -> Result<
    (),
    Rejection,
> {
    match config_coordinates(config) {
        Err(e) => Err(e),
        Ok((x, y)) => if neighborhood_of(x as int) == args.neighborhood_x && neighborhood_of(
            y as int,
        ) == args.neighborhood_y {
            Ok(())
        } else {
            Err(Rejection::InvalidInstructionData)
        },
    }
}

/// Accepts a batch-mint configuration whose first asset lies in the
/// neighborhood in `args`.
pub fn check_config(config: &[u8], args: &InitNeighborhoodMetadataArgs) -> (r: Result<(), Rejection>)
    ensures
        r == config_matches(config@, *args),
{
    if config.len() < CONFIG_NAME_END {
        return Err(Rejection::InvalidAccountData);
    }
    let name = slice_subrange(config, CONFIG_NAME_START, CONFIG_NAME_END);
    match get_space_xy_from_bytes(name) {
        None => Err(Rejection::InvalidInstructionData),
        Some((x, y)) => {
            let (n_x, n_y) = get_neighborhood_xy(x, y);
            if n_x == args.neighborhood_x && n_y == args.neighborhood_y {
                Ok(())
            } else {
                Err(Rejection::InvalidInstructionData)
            }
        },
    }
}

/// The rejection of a declared price that is not the price of the location.
pub open spec fn price_is_due(args: InitNeighborhoodMetadataArgs) -> Result<(), Rejection> {
    if args.price == creation_price(args.neighborhood_x as int, args.neighborhood_y as int) {
        Ok(())
    } else {
        Err(Rejection::MissingRequiredSignature)
    }
}

/// What a creator who pays must show: the payment asset is the deployment's;
/// the holding is the creator's canonical holding of it; the declared price
/// is the price of the location; and the creator is the authority of the
/// batch-mint configuration.
pub open spec fn payment_checks(
    env: Environment,
    accounts: Seq<AccountView>,
    args: InitNeighborhoodMetadataArgs,
) -> Result<(), Rejection> {
    require(
        keys_equal(accounts[7].key, env.payment_mint),
        require(
            is_ata(env, accounts[6], accounts[5].key, accounts[7].key),
            require(
                price_is_due(args),
                keys_equal(key_at(accounts[3].data@, 8), accounts[5].key),
            ),
        ),
    )
}

/// Checks what a creator who pays must show.
fn check_payment(
    env: &Environment,
    accounts: &[AccountView],
    args: &InitNeighborhoodMetadataArgs,
) -> (r: Result<(), Rejection>)
    requires
        accounts@.len() >= 11,
        accounts@[3].data@.len() >= CONFIG_NAME_END,
    ensures
        r == payment_checks(*env, accounts@, *args),
{
    let creator = &accounts[CREATOR];
    let extend_token_mint = &accounts[PAYMENT_MINT];
    assert_keys_equal(extend_token_mint.key, env.payment_mint)?;
    assert_is_ata(env, &accounts[CREATOR_HOLDING], &creator.key, &extend_token_mint.key)?;
    if !is_creation_price(args.neighborhood_x, args.neighborhood_y, args.price) {
        return Err(Rejection::MissingRequiredSignature);
    }
    let auth = get_key(accounts[MINT_CONFIG].data.as_slice(), CONFIG_AUTHORITY_OFFSET);
    assert_keys_equal(auth, creator.key)
}

/// The rejection of a batch-mint account that is already initialized.
pub open spec fn unminted(account: AccountView) -> Result<(), Rejection> {
    fresh(account)
}

/// The base with one more neighborhood counted.
pub open spec fn counted(base: Base) -> Result<Base, Rejection> {
    if base.neighborhood_count == u64::MAX {
        Err(Rejection::InvalidAccountData)
    } else {
        Ok(Base { neighborhood_count: (base.neighborhood_count + 1) as u64, ..base })
    }
}

/// The rejection of a list record without room for the list.
pub open spec fn list_fits(record: AccountView, list: NeighborhoodListView) -> Result<
    (),
    Rejection,
> {
    if list.encoded_len() <= record.data@.len() {
        Ok(())
    } else {
        Err(Rejection::RecordTooSmall)
    }
}

/// The logical address of the metadata of the neighborhood in `args`.
pub open spec fn neighborhood_record(base: Key, args: InitNeighborhoodMetadataArgs) -> Locator {
    Locator {
        base,
        domain: Domain::NeighborhoodMetadata,
        key: RecordKey::Coordinates(args.neighborhood_x, args.neighborhood_y),
    }
}

/// What the host is asked to do: burn the price out of the creator's holding,
/// unless it is waived; create the neighborhood's metadata; and write the
/// metadata, the list with the neighborhood at its end, and the base with
/// the raised count.
pub open spec fn creation(
    program_id: Key,
    accounts: Seq<AccountView>,
    args: InitNeighborhoodMetadataArgs,
    disambiguator: u8,
    charged: bool,
    list: NeighborhoodListView,
    base: Base,
) -> OutcomeView {
    let create = Effect::CreateRecord {
        payer: 5,
        record: 1,
        space: NEIGHBORHOOD_METADATA_RESERVE as u64,
        owner: program_id,
        signer: Some(Signer { locator: neighborhood_record(accounts[0].key, args), disambiguator }),
    };
    OutcomeView {
        effects: if charged {
            seq![Effect::Burn { holding: 6, class: 7, authority: 5, amount: args.price }, create]
        } else {
            seq![create]
        },
        patches: seq![
            (
                1,
                0,
                (NeighborhoodMetadata {
                    bump: disambiguator,
                    creator: accounts[5].key,
                    candymachine_config: accounts[3].key,
                    candymachine_account: accounts[4].key,
                    neighborhood_name: args.neighborhood_name,
                }).encoding(),
            ),
            (2, 0, list.encoding()),
            (0, 0, base.encoding()),
        ],
    }
}

/// The checks on the records handed over, up to the decoding of the base.
///
/// In order: the list holds every record; the last is the host's record of
/// deposit rules; the creator authorized the call; the three host programs
/// are the deployment's.
pub open spec fn preamble(env: Environment, accounts: Seq<AccountView>) -> Result<(), Rejection> {
    require(
        enough(accounts, 11),
        require(
            is_rent_sysvar(env, accounts[10]),
            require(
                signed(accounts[5]),
                require(
                    keys_equal(env.system_program, accounts[8].key),
                    require(
                        keys_equal(env.token_program, accounts[9].key),
                        keys_equal(env.rent_sysvar, accounts[10].key),
                    ),
                ),
            ),
        ),
    )
}

/// The outcome of the operation: the first check that fails rejects it; where
/// none fails, the neighborhood is created.
///
/// In order: the preamble; the neighborhood's metadata lies at its discovered
/// location; the list decodes and lies at its reconstructed location; the
/// batch-mint configuration names a first asset in this neighborhood; the
/// base decodes; a creator who pays shows what is due; the batch-mint account
/// is not initialized; the list has room for one more; the neighborhood's
/// metadata does not exist yet; the count can be raised; and the list's
/// record has room for the longer list.
pub open spec fn outcome_of(
    env: Environment,
    program_id: Key,
    accounts: Seq<AccountView>,
    args: InitNeighborhoodMetadataArgs,
) -> Result<OutcomeView, Rejection> {
    let base_key = accounts[0].key;
    require(
        preamble(env, accounts),
        match neighborhood_record(base_key, args).discovers(program_id@, accounts[1].key@) {
            Err(e) => Err(e),
            Ok(disambiguator) => match NeighborhoodList::parse(accounts[2].data@) {
                None => Err(Rejection::RecordUnreadable),
                Some(list) => require(
                    (Locator {
                        base: base_key,
                        domain: Domain::NeighborhoodList,
                        key: RecordKey::Whole,
                    }).checks(program_id@, list.bump, accounts[2].key@),
                    require(
                        config_matches(accounts[3].data@, args),
                        match Base::parse(accounts[0].data@) {
                            None => Err(Rejection::RecordUnreadable),
                            Some(base) => require(
                                if waived(base, accounts[5].key) {
                                    Ok(())
                                } else {
                                    payment_checks(env, accounts, args)
                                },
                                require(
                                    unminted(accounts[4]),
                                    match appended(list, args.neighborhood_x, args.neighborhood_y) {
                                        Err(e) => Err(e),
                                        Ok(next_list) => require(
                                            fresh(accounts[1]),
                                            match counted(base) {
                                                Err(e) => Err(e),
                                                Ok(next_base) => require(
                                                    list_fits(accounts[2], next_list),
                                                    Ok(
                                                        creation(
                                                            program_id,
                                                            accounts,
                                                            args,
                                                            disambiguator,
                                                            !waived(base, accounts[5].key),
                                                            next_list,
                                                            next_base,
                                                        ),
                                                    ),
                                                ),
                                            },
                                        ),
                                    },
                                ),
                            ),
                        },
                    ),
                ),
            },
        },
    )
}

/// A base whose list holds `MAX_NEIGHBORHOODS` neighborhoods takes no other:
/// whatever the other records and the arguments, the operation is rejected.
pub proof fn lemma_full_list_refuses(
    env: Environment,
    program_id: Key,
    accounts: Seq<AccountView>,
    args: InitNeighborhoodMetadataArgs,
)
    requires
        NeighborhoodList::parse(accounts[2].data@) matches Some(list) && list.xs.len()
            >= MAX_NEIGHBORHOODS,
    ensures
        outcome_of(env, program_id, accounts, args) is Err,
{
}

/// Checks the preamble.
fn check_preamble(env: &Environment, accounts: &[AccountView]) -> (r: Result<(), Rejection>)
    ensures
        r == preamble(*env, accounts@),
{
    assert_enough(accounts, ACCOUNTS)?;
    assert_rent_sysvar(env, &accounts[RENT_SYSVAR])?;
    assert_signed(&accounts[CREATOR])?;
    assert_keys_equal(env.system_program, accounts[SYSTEM_PROGRAM].key)?;
    assert_keys_equal(env.token_program, accounts[TOKEN_PROGRAM].key)?;
    assert_keys_equal(env.rent_sysvar, accounts[RENT_SYSVAR].key)
}

/// Creates the neighborhood at the coordinates in `args` on behalf of its
/// creator.
pub fn process(
    env: &Environment,
    program_id: &Key,
    accounts: &[AccountView],
    args: &InitNeighborhoodMetadataArgs,
) -> (r: Result<Outcome, Rejection>)
    ensures
        verdict(r) == outcome_of(*env, *program_id, accounts@, *args),
{
    check_preamble(env, accounts)?;
    let base = &accounts[BASE];
    let neighborhood_metadata = &accounts[NEIGHBORHOOD_METADATA];
    let neighborhood_list = &accounts[NEIGHBORHOOD_LIST];
    let candymachine_config = &accounts[MINT_CONFIG];
    let candymachine_account = &accounts[MINT_ACCOUNT];
    let creator = &accounts[CREATOR];

    let metadata_locator = Locator {
        base: base.key,
        domain: Domain::NeighborhoodMetadata,
        key: RecordKey::Coordinates(args.neighborhood_x, args.neighborhood_y),
    };
    let disambiguator = metadata_locator.check_fresh(program_id, &neighborhood_metadata.key)?;

    let list = match NeighborhoodList::decode(neighborhood_list.data.as_slice()) {
        Some(l) => l,
        None => return Err(Rejection::RecordUnreadable),
    };
    (Locator { base: base.key, domain: Domain::NeighborhoodList, key: RecordKey::Whole }).check(
        program_id,
        list.bump,
        &neighborhood_list.key,
    )?;

    check_config(candymachine_config.data.as_slice(), args)?;

    let base_data = match Base::decode(base.data.as_slice()) {
        Some(b) => b,
        None => return Err(Rejection::RecordUnreadable),
    };
    let charged = !is_waived(&base_data, &creator.key);
    if charged {
        check_payment(env, accounts, args)?;
    }
    assert_fresh(candymachine_account)?;
    let ghost before = list@;
    let next_list = append_neighborhood(list, args.neighborhood_x, args.neighborhood_y)?;
    assert_fresh(neighborhood_metadata)?;
    if base_data.neighborhood_count == u64::MAX {
        return Err(Rejection::InvalidAccountData);
    }
    let next_base = Base { neighborhood_count: base_data.neighborhood_count + 1, ..base_data };
    let list_bytes = next_list.encode();
    if list_bytes.len() > neighborhood_list.data.len() {
        return Err(Rejection::RecordTooSmall);
    }
    let record = NeighborhoodMetadata {
        bump: disambiguator,
        creator: creator.key,
        candymachine_config: candymachine_config.key,
        candymachine_account: candymachine_account.key,
        neighborhood_name: args.neighborhood_name,
    };
    let mut outcome = Outcome::new();
    if charged {
        outcome.effect(
            Effect::Burn {
                holding: CREATOR_HOLDING,
                class: PAYMENT_MINT,
                authority: CREATOR,
                amount: args.price,
            },
        );
    }
    outcome.effect(
        Effect::CreateRecord {
            payer: CREATOR,
            record: NEIGHBORHOOD_METADATA,
            space: NEIGHBORHOOD_METADATA_RESERVE as u64,
            owner: *program_id,
            signer: Some(Signer { locator: metadata_locator, disambiguator }),
        },
    );
    outcome.patch(NEIGHBORHOOD_METADATA, 0, record.encode());
    outcome.patch(NEIGHBORHOOD_LIST, 0, list_bytes);
    outcome.patch(BASE, 0, next_base.encode());
    proof {
        let expected = creation(
            *program_id,
            accounts@,
            *args,
            disambiguator,
            charged,
            next_list@,
            next_base,
        );
        assert(outcome@.effects =~= expected.effects);
        assert(outcome@.patches =~= expected.patches);
    }
    Ok(outcome)
}

} // verus!
