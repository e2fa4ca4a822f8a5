#[allow(unused_imports)]
use extend_grid::color::instruction::ChangeColorArgs;
#[allow(unused_imports)]
use extend_grid::color::instruction::ChangeColorBriefArgs;
#[allow(unused_imports)]
use extend_grid::color::instruction::InitFrameArgs;
#[allow(unused_imports)]
use extend_grid::color::processor::Processor;
#[allow(unused_imports)]
use extend_grid::color::processor::change_color;
#[allow(unused_imports)]
use extend_grid::color::processor::init_frame;
#[allow(unused_imports)]
use extend_grid::color::processor::init_frame::admit_frame;
#[allow(unused_imports)]
use extend_grid::color::state::CANVAS_BLOCK_LEN;
#[allow(unused_imports)]
use extend_grid::color::state::MAX_FRAMES;
#[allow(unused_imports)]
use extend_grid::color::state::NEIGHBORHOOD_FRAME_BASE_RESERVE;
#[allow(unused_imports)]
use extend_grid::color::state::NEIGHBORHOOD_FRAME_POINTER_RESERVE;
#[allow(unused_imports)]
use extend_grid::color::state::NeighborhoodFrameBase;
#[allow(unused_imports)]
use extend_grid::color::state::NeighborhoodFramePointer;
#[allow(unused_imports)]
use extend_grid::error::CustomError;
#[allow(unused_imports)]
use extend_grid::error::Rejection;
#[allow(unused_imports)]
use extend_grid::host::AccountView;
#[allow(unused_imports)]
use extend_grid::host::Effect;
#[allow(unused_imports)]
use extend_grid::host::Environment;
#[allow(unused_imports)]
use extend_grid::host::Outcome;
#[allow(unused_imports)]
use extend_grid::key::Key;
#[allow(unused_imports)]
use extend_grid::locator::Domain;
#[allow(unused_imports)]
use extend_grid::locator::Locator;
#[allow(unused_imports)]
use extend_grid::locator::RecordKey;
#[allow(unused_imports)]
use extend_grid::locator::Signer;
#[allow(unused_imports)]
use extend_grid::space::state::NeighborhoodMetadata;
#[allow(unused_imports)]
use extend_grid::space::state::SpaceMetadata;

#[allow(dead_code)]
fn key(n: u8) -> Key {
    Key::new([n; 32])
}

#[allow(dead_code)]
fn env() -> Environment {
    Environment {
        system_program: Key::new(solana_program::system_program::id().to_bytes()),
        token_program: Key::new(spl_token::id().to_bytes()),
        associated_token_program: Key::new(spl_associated_token_account::id().to_bytes()),
        rent_sysvar: Key::new(solana_program::sysvar::rent::id().to_bytes()),
        registry_program: key(200),
        payment_mint: key(201),
        metadata_program: Key::new(metaplex_token_metadata::id().to_bytes()),
    }
}

#[allow(dead_code)]
fn account(key: Key, owner: Key, is_signer: bool, data: Vec<u8>) -> AccountView {
    AccountView { key, owner, is_signer, data }
}

#[allow(dead_code)]
fn wallet(key: Key, is_signer: bool) -> AccountView {
    account(key, env().system_program, is_signer, Vec::new())
}

#[allow(dead_code)]
fn padded(mut bytes: Vec<u8>, len: usize) -> Vec<u8> {
    bytes.resize(len, 0);
    bytes
}

#[allow(dead_code)]
fn holding_bytes(mint: &Key, owner: &Key, amount: u64, delegate: Option<Key>) -> Vec<u8> {
    let holding = spl_token::state::Account {
        mint: solana_program::pubkey::Pubkey::new_from_array(mint.bytes),
        owner: solana_program::pubkey::Pubkey::new_from_array(owner.bytes),
        amount,
        delegate: match delegate {
            Some(d) => solana_program::program_option::COption::Some(
                solana_program::pubkey::Pubkey::new_from_array(d.bytes),
            ),
            None => solana_program::program_option::COption::None,
        },
        state: spl_token::state::AccountState::Initialized,
        is_native: solana_program::program_option::COption::None,
        delegated_amount: if delegate.is_some() { amount } else { 0 },
        close_authority: solana_program::program_option::COption::None,
    };
    let mut bytes = vec![0u8; 165];
    solana_program::program_pack::Pack::pack(holding, &mut bytes).unwrap();
    bytes
}

#[allow(dead_code)]
fn holding_account(owner: &Key, mint: &Key, amount: u64, delegate: Option<Key>) -> AccountView {
    let e = env();
    let location = extend_grid::validation_utils::get_associated_token_address(&e, owner, mint)
        .unwrap();
    account(location, e.token_program, false, holding_bytes(mint, owner, amount, delegate))
}

#[allow(dead_code)]
fn located(authority: &Key, locator: &Locator) -> (Key, u8) {
    extend_grid::address::discover(authority, &locator.seed_bytes()).unwrap()
}

#[allow(dead_code)]
fn apply(accounts: &mut Vec<AccountView>, outcome: &Outcome) {
    for effect in outcome.effects.iter() {
        if let Effect::CreateRecord { record, space, owner, .. } = *effect {
            assert!(accounts[record].data.is_empty());
            accounts[record].data = vec![0u8; space as usize];
            accounts[record].owner = owner;
        }
    }
    for patch in outcome.patches.iter() {
        let data = &mut accounts[patch.account].data;
        assert!(patch.offset + patch.bytes.len() <= data.len());
        data[patch.offset..patch.offset + patch.bytes.len()].copy_from_slice(&patch.bytes);
    }
}

const X: i64 = 250;
const Y: i64 = -5;
const NX: i64 = 1;
const NY: i64 = -1;

fn program() -> Key {
    key(51)
}

fn registry() -> Key {
    env().registry_program
}

fn neighborhood_record() -> AccountView {
    let locator = Locator {
        base: key(1),
        domain: Domain::NeighborhoodMetadata,
        key: RecordKey::Coordinates(NX, NY),
    };
    let (location, bump) = located(&registry(), &locator);
    let record = NeighborhoodMetadata {
        bump,
        creator: key(33),
        candymachine_config: key(41),
        candymachine_account: key(42),
        neighborhood_name: [0u8; 64],
    };
    account(location, registry(), false, padded(record.encode(), 512))
}

fn space_record() -> AccountView {
    let locator = Locator {
        base: key(1),
        domain: Domain::SpaceMetadata,
        key: RecordKey::Coordinates(X, Y),
    };
    let (location, bump) = located(&registry(), &locator);
    let space = SpaceMetadata { bump, mint: key(30), price: 0, space_x: X, space_y: Y };
    account(location, registry(), false, padded(space.encode(), 128))
}

fn frame_base_locator() -> Locator {
    Locator {
        base: key(1),
        domain: Domain::NeighborhoodFrameBase,
        key: RecordKey::Coordinates(NX, NY),
    }
}

fn frame_pointer_locator(index: u64) -> Locator {
    Locator {
        base: key(1),
        domain: Domain::NeighborhoodFramePointer,
        key: RecordKey::Frame(NX, NY, index),
    }
}

fn block(n: u8) -> AccountView {
    account(key(n), program(), false, vec![0xEE; CANVAS_BLOCK_LEN - 1].into_iter().chain([0u8]).collect())
}

// base, canvas block, frame base, frame pointer, neighborhood metadata, fee
// payer, system program
fn frame_scene(frame_base: AccountView, index: u64, canvas: AccountView) -> Vec<AccountView> {
    vec![
        wallet(key(1), false),
        canvas,
        frame_base,
        wallet(located(&program(), &frame_pointer_locator(index)).0, false),
        neighborhood_record(),
        wallet(key(60), true),
        wallet(env().system_program, false),
    ]
}

fn new_frame_base() -> AccountView {
    wallet(located(&program(), &frame_base_locator()).0, false)
}

fn frame_args() -> InitFrameArgs {
    InitFrameArgs { neighborhood_x: NX, neighborhood_y: NY }
}

#[test]
fn the_first_frame_creates_the_frame_base() {
    let e = env();
    let mut accounts = frame_scene(new_frame_base(), 0, block(70));
    let outcome = init_frame::process(&e, &program(), &accounts, &frame_args()).unwrap();
    let (_, base_bump) = located(&program(), &frame_base_locator());
    let (_, pointer_bump) = located(&program(), &frame_pointer_locator(0));
    assert_eq!(
        outcome.effects,
        vec![
            Effect::CreateRecord {
                payer: 5,
                record: 2,
                space: NEIGHBORHOOD_FRAME_BASE_RESERVE as u64,
                owner: program(),
                signer: Some(Signer { locator: frame_base_locator(), disambiguator: base_bump }),
            },
            Effect::CreateRecord {
                payer: 5,
                record: 3,
                space: NEIGHBORHOOD_FRAME_POINTER_RESERVE as u64,
                owner: program(),
                signer: Some(Signer {
                    locator: frame_pointer_locator(0),
                    disambiguator: pointer_bump,
                }),
            },
        ]
    );
    apply(&mut accounts, &outcome);
    assert_eq!(
        NeighborhoodFrameBase::decode(&accounts[2].data),
        Some(NeighborhoodFrameBase { bump: base_bump, length: 1 })
    );
    assert_eq!(
        NeighborhoodFramePointer::decode(&accounts[3].data),
        Some(NeighborhoodFramePointer { bump: pointer_bump, framekey: key(70) })
    );
    let canvas = &accounts[1].data;
    assert_eq!(canvas.len(), CANVAS_BLOCK_LEN);
    assert!(canvas[..120000].iter().all(|b| *b == 0));
    assert_eq!(&canvas[120000..120008], &NX.to_le_bytes());
    assert_eq!(&canvas[120008..120016], &NY.to_le_bytes());
    assert_eq!(canvas[120016], 1);
}

#[test]
fn frames_are_appended_until_the_limit() {
    let e = env();
    let mut frame_base = new_frame_base();
    for index in 0..3u64 {
        let mut accounts = frame_scene(frame_base.clone(), index, block(70 + index as u8));
        let outcome = init_frame::process(&e, &program(), &accounts, &frame_args()).unwrap();
        assert_eq!(outcome.effects.len(), if index == 0 { 2 } else { 1 });
        apply(&mut accounts, &outcome);
        frame_base = accounts[2].clone();
        assert_eq!(NeighborhoodFrameBase::decode(&frame_base.data).unwrap().length, index + 1);
        // The pointer of the frame just added cannot be handed in again.
        let stale = frame_scene(frame_base.clone(), index, block(90));
        assert_eq!(
            init_frame::process(&e, &program(), &stale, &frame_args()).err(),
            Some(Rejection::Custom(CustomError::PublicKeyMismatch))
        );
    }
}

#[test]
fn capacity_of_frames() {
    let e = env();
    let (location, bump) = located(&program(), &frame_base_locator());
    let almost = NeighborhoodFrameBase { bump, length: MAX_FRAMES - 1 };
    let mut accounts = frame_scene(
        account(location, program(), false, padded(almost.encode(), 128)),
        MAX_FRAMES - 1,
        block(70),
    );
    let outcome = init_frame::process(&e, &program(), &accounts, &frame_args()).unwrap();
    apply(&mut accounts, &outcome);
    assert_eq!(NeighborhoodFrameBase::decode(&accounts[2].data).unwrap().length, MAX_FRAMES);
    // One frame more than the limit is refused.
    let full = frame_scene(accounts[2].clone(), MAX_FRAMES, block(71));
    assert_eq!(
        init_frame::process(&e, &program(), &full, &frame_args()).err(),
        Some(Rejection::InvalidInstructionData)
    );
    assert_eq!(
        admit_frame(&NeighborhoodFrameBase { bump: 1, length: MAX_FRAMES }),
        Err(Rejection::InvalidInstructionData)
    );
    assert_eq!(
        admit_frame(&NeighborhoodFrameBase { bump: 1, length: u64::MAX }),
        Err(Rejection::InvalidInstructionData)
    );
    assert_eq!(
        admit_frame(&NeighborhoodFrameBase { bump: 1, length: MAX_FRAMES - 1 }),
        Ok(NeighborhoodFrameBase { bump: 1, length: MAX_FRAMES })
    );
    assert_eq!(
        admit_frame(&NeighborhoodFrameBase { bump: 9, length: 0 }),
        Ok(NeighborhoodFrameBase { bump: 9, length: 1 })
    );
}

#[test]
fn init_frame_refusals() {
    let e = env();
    let good = frame_scene(new_frame_base(), 0, block(70));
    let run = |accounts: &Vec<AccountView>| {
        init_frame::process(&e, &program(), accounts, &frame_args()).err()
    };
    let mismatch = Some(Rejection::Custom(CustomError::PublicKeyMismatch));
    assert_eq!(run(&good), None);
    assert_eq!(run(&good[..6].to_vec()), Some(Rejection::NotEnoughAccountKeys));
    let mut unsigned = good.clone();
    unsigned[5].is_signer = false;
    assert_eq!(run(&unsigned), Some(Rejection::MissingRequiredSignature));
    let mut wrong_program = good.clone();
    wrong_program[6].key = key(99);
    assert_eq!(run(&wrong_program), mismatch);
    let mut wrong_base = good.clone();
    wrong_base[2].key = key(98);
    assert_eq!(run(&wrong_base), mismatch);
    let mut damaged_base = good.clone();
    damaged_base[2].data = vec![0u8; 8];
    assert_eq!(run(&damaged_base), Some(Rejection::RecordUnreadable));
    let mut wrong_pointer = good.clone();
    wrong_pointer[3].key = key(97);
    assert_eq!(run(&wrong_pointer), mismatch);
    let mut pointer_exists = good.clone();
    pointer_exists[3].data = vec![0u8; 128];
    assert_eq!(run(&pointer_exists), Some(Rejection::AccountAlreadyInitialized));
    let mut no_neighborhood = good.clone();
    no_neighborhood[4].data = vec![];
    assert_eq!(run(&no_neighborhood), Some(Rejection::RecordUnreadable));
    // The neighborhood must be one of the registry, not of this program.
    let mut forged = good.clone();
    let locator = Locator {
        base: key(1),
        domain: Domain::NeighborhoodMetadata,
        key: RecordKey::Coordinates(NX, NY),
    };
    let (forged_key, forged_bump) = located(&program(), &locator);
    forged[4].key = forged_key;
    forged[4].data[0] = forged_bump;
    assert!(run(&forged).is_some());
    // A block that is already stamped, or too small.
    let mut stamped = good.clone();
    stamped[1].data[120016] = 1;
    assert_eq!(run(&stamped), Some(Rejection::InvalidAccountData));
    let mut small = good.clone();
    small[1].data.truncate(CANVAS_BLOCK_LEN - 1);
    assert_eq!(run(&small), Some(Rejection::InvalidAccountData));
}

// base, canvas block, frame base, frame pointer, neighborhood metadata,
// space metadata, owner, owner's holding
fn color_scene(frames: u64, frame: u64) -> Vec<AccountView> {
    let (base_key, base_bump) = located(&program(), &frame_base_locator());
    let (pointer_key, pointer_bump) = located(&program(), &frame_pointer_locator(frame));
    let canvas = account(key(70), program(), false, vec![0u8; CANVAS_BLOCK_LEN]);
    vec![
        wallet(key(1), false),
        canvas,
        account(
            base_key,
            program(),
            false,
            padded(NeighborhoodFrameBase { bump: base_bump, length: frames }.encode(), 128),
        ),
        account(
            pointer_key,
            program(),
            false,
            padded(NeighborhoodFramePointer { bump: pointer_bump, framekey: key(70) }.encode(), 128),
        ),
        neighborhood_record(),
        space_record(),
        wallet(key(31), true),
        holding_account(&key(31), &key(30), 1, None),
    ]
}

fn color_args(frame: u64) -> ChangeColorArgs {
    ChangeColorArgs { space_x: X, space_y: Y, frame, r: 10, g: 20, b: 30 }
}

#[test]
fn frame_wraparound_writes_cell_50_195() {
    let e = env();
    let mut accounts = color_scene(1, 0);
    let outcome = change_color::process(&e, &program(), &accounts, &color_args(0)).unwrap();
    assert_eq!(outcome.effects, vec![]);
    assert_eq!(outcome.patches.len(), 1);
    assert_eq!(outcome.patches[0].account, 1);
    assert_eq!(outcome.patches[0].offset, 3 * 200 * 50 + 3 * 195);
    assert_eq!(outcome.patches[0].bytes, vec![10, 20, 30]);
    apply(&mut accounts, &outcome);
    let canvas = &accounts[1].data;
    assert_eq!(&canvas[30585..30588], &[10, 20, 30]);
    assert_eq!(canvas.iter().filter(|b| **b != 0).count(), 3);
}

#[test]
fn brief_arguments_are_widened() {
    let e = env();
    let accounts = color_scene(4, 3);
    let brief = ChangeColorBriefArgs { space_x: 250, space_y: -5, frame: 3, r: 10, g: 20, b: 30 };
    assert_eq!(
        change_color::process_brief(&e, &program(), &accounts, &brief),
        change_color::process(&e, &program(), &accounts, &color_args(3))
    );
    assert!(change_color::process_brief(&e, &program(), &accounts, &brief).is_ok());
}

#[test]
fn change_color_refusals() {
    let e = env();
    let good = color_scene(2, 1);
    let run = |accounts: &Vec<AccountView>, args: &ChangeColorArgs| {
        change_color::process(&e, &program(), accounts, args).err()
    };
    let mismatch = Some(Rejection::Custom(CustomError::PublicKeyMismatch));
    assert_eq!(run(&good, &color_args(1)), None);
    assert_eq!(run(&good[..7].to_vec(), &color_args(1)), Some(Rejection::NotEnoughAccountKeys));
    let mut unsigned = good.clone();
    unsigned[6].is_signer = false;
    assert_eq!(run(&unsigned, &color_args(1)), Some(Rejection::MissingRequiredSignature));
    for record in 2..6 {
        let mut unreadable = good.clone();
        unreadable[record].data = vec![];
        assert_eq!(run(&unreadable, &color_args(1)), Some(Rejection::RecordUnreadable));
        let mut moved = good.clone();
        moved[record].key = key(99);
        assert_eq!(run(&moved, &color_args(1)), mismatch);
    }
    // The pointer of another frame.
    assert_eq!(run(&good, &color_args(0)), mismatch);
    // Not the owner of the space.
    let mut stranger = good.clone();
    stranger[6] = wallet(key(77), true);
    assert_eq!(run(&stranger, &color_args(1)), mismatch);
    let mut empty_handed = good.clone();
    empty_handed[7] = holding_account(&key(31), &key(30), 0, None);
    assert_eq!(
        run(&empty_handed, &color_args(1)),
        Some(Rejection::Custom(CustomError::MissingTokenOwner))
    );
    // A frame that the neighborhood does not have yet.
    let ahead = color_scene(1, 1);
    assert_eq!(run(&ahead, &color_args(1)), Some(Rejection::InvalidAccountData));
    // Another block than the pointer names.
    let mut other_block = good.clone();
    other_block[1].key = key(71);
    assert_eq!(run(&other_block, &color_args(1)), mismatch);
    // A block that ends before the cell.
    let mut short = good.clone();
    short[1].data.truncate(30587);
    assert_eq!(run(&short, &color_args(1)), Some(Rejection::InvalidAccountData));
    let mut just = good.clone();
    just[1].data.truncate(30588);
    assert_eq!(run(&just, &color_args(1)), None);
}

#[test]
fn color_processor_dispatches_by_tag() {
    let e = env();
    let accounts = color_scene(1, 0);
    let mut data = vec![1u8];
    data.extend_from_slice(&X.to_le_bytes());
    data.extend_from_slice(&Y.to_le_bytes());
    data.extend_from_slice(&0u64.to_le_bytes());
    data.extend_from_slice(&[10, 20, 30]);
    let full = Processor::process(&e, &program(), &accounts, &data);
    assert_eq!(full, change_color::process(&e, &program(), &accounts, &color_args(0)));
    assert!(full.is_ok());
    let brief = [2u8, 0xFA, 0x00, 0xFB, 0xFF, 0, 10, 20, 30];
    assert_eq!(Processor::process(&e, &program(), &accounts, &brief), full);

    let frames = frame_scene(new_frame_base(), 0, block(70));
    let mut init = vec![0u8];
    init.extend_from_slice(&NX.to_le_bytes());
    init.extend_from_slice(&NY.to_le_bytes());
    assert_eq!(
        Processor::process(&e, &program(), &frames, &init),
        init_frame::process(&e, &program(), &frames, &frame_args())
    );
    assert_eq!(
        Processor::process(&e, &program(), &frames, &[3]).err(),
        Some(Rejection::InvalidInstructionData)
    );
    assert_eq!(
        Processor::process(&e, &program(), &frames, &[]).err(),
        Some(Rejection::InvalidInstructionData)
    );
    assert_eq!(
        Processor::process(&e, &program(), &frames, &init[..16]).err(),
        Some(Rejection::ArgumentsUnreadable)
    );
    assert_eq!(
        Processor::process(&e, &program(), &accounts, &brief[..8]).err(),
        Some(Rejection::ArgumentsUnreadable)
    );
}
