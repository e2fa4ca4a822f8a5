#[allow(unused_imports)]
use extend_grid::error::CustomError;
#[allow(unused_imports)]
use extend_grid::error::Rejection;
#[allow(unused_imports)]
use extend_grid::holding::HoldingState;
#[allow(unused_imports)]
use extend_grid::holding::TokenHolding;
#[allow(unused_imports)]
use extend_grid::host::AccountView;
#[allow(unused_imports)]
use extend_grid::host::Effect;
#[allow(unused_imports)]
use extend_grid::host::Environment;
#[allow(unused_imports)]
use extend_grid::host::Outcome;
#[allow(unused_imports)]
use extend_grid::key::Key;
#[allow(unused_imports)]
use extend_grid::locator::Domain;
#[allow(unused_imports)]
use extend_grid::locator::Locator;
#[allow(unused_imports)]
use extend_grid::locator::RecordKey;
#[allow(unused_imports)]
use extend_grid::locator::Signer;
#[allow(unused_imports)]
use extend_grid::space::instruction::AcceptOfferArgs;
#[allow(unused_imports)]
use extend_grid::space::instruction::ChangeOfferArgs;
#[allow(unused_imports)]
use extend_grid::space::processor::Processor;
#[allow(unused_imports)]
use extend_grid::space::processor::accept_offer;
#[allow(unused_imports)]
use extend_grid::space::processor::accept_offer::assert_listed;
#[allow(unused_imports)]
use extend_grid::space::processor::accept_offer::marketplace_fee;
#[allow(unused_imports)]
use extend_grid::space::processor::change_offer;
#[allow(unused_imports)]
use extend_grid::space::state::NeighborhoodMetadata;
#[allow(unused_imports)]
use extend_grid::space::state::SpaceMetadata;

#[allow(dead_code)]
fn key(n: u8) -> Key {
    Key::new([n; 32])
}

#[allow(dead_code)]
fn env() -> Environment {
    Environment {
        system_program: Key::new(solana_program::system_program::id().to_bytes()),
        token_program: Key::new(spl_token::id().to_bytes()),
        associated_token_program: Key::new(spl_associated_token_account::id().to_bytes()),
        rent_sysvar: Key::new(solana_program::sysvar::rent::id().to_bytes()),
        registry_program: key(200),
        payment_mint: key(201),
        metadata_program: Key::new(metaplex_token_metadata::id().to_bytes()),
    }
}

#[allow(dead_code)]
fn account(key: Key, owner: Key, is_signer: bool, data: Vec<u8>) -> AccountView {
    AccountView { key, owner, is_signer, data }
}

#[allow(dead_code)]
fn wallet(key: Key, is_signer: bool) -> AccountView {
    account(key, env().system_program, is_signer, Vec::new())
}

#[allow(dead_code)]
fn padded(mut bytes: Vec<u8>, len: usize) -> Vec<u8> {
    bytes.resize(len, 0);
    bytes
}

#[allow(dead_code)]
fn holding_bytes(mint: &Key, owner: &Key, amount: u64, delegate: Option<Key>) -> Vec<u8> {
    let holding = spl_token::state::Account {
        mint: solana_program::pubkey::Pubkey::new_from_array(mint.bytes),
        owner: solana_program::pubkey::Pubkey::new_from_array(owner.bytes),
        amount,
        delegate: match delegate {
            Some(d) => solana_program::program_option::COption::Some(
                solana_program::pubkey::Pubkey::new_from_array(d.bytes),
            ),
            None => solana_program::program_option::COption::None,
        },
        state: spl_token::state::AccountState::Initialized,
        is_native: solana_program::program_option::COption::None,
        delegated_amount: if delegate.is_some() { amount } else { 0 },
        close_authority: solana_program::program_option::COption::None,
    };
    let mut bytes = vec![0u8; 165];
    solana_program::program_pack::Pack::pack(holding, &mut bytes).unwrap();
    bytes
}

#[allow(dead_code)]
fn holding_account(owner: &Key, mint: &Key, amount: u64, delegate: Option<Key>) -> AccountView {
    let e = env();
    let location = extend_grid::validation_utils::get_associated_token_address(&e, owner, mint)
        .unwrap();
    account(location, e.token_program, false, holding_bytes(mint, owner, amount, delegate))
}

#[allow(dead_code)]
fn located(authority: &Key, locator: &Locator) -> (Key, u8) {
    extend_grid::address::discover(authority, &locator.seed_bytes()).unwrap()
}

#[allow(dead_code)]
fn apply(accounts: &mut Vec<AccountView>, outcome: &Outcome) {
    for effect in outcome.effects.iter() {
        if let Effect::CreateRecord { record, space, owner, .. } = *effect {
            assert!(accounts[record].data.is_empty());
            accounts[record].data = vec![0u8; space as usize];
            accounts[record].owner = owner;
        }
    }
    for patch in outcome.patches.iter() {
        let data = &mut accounts[patch.account].data;
        assert!(patch.offset + patch.bytes.len() <= data.len());
        data[patch.offset..patch.offset + patch.bytes.len()].copy_from_slice(&patch.bytes);
    }
}

const X: i64 = 250;
const Y: i64 = -5;

fn program() -> Key {
    env().registry_program
}

fn mint() -> Key {
    key(30)
}

fn seller() -> Key {
    key(31)
}

fn buyer() -> Key {
    key(32)
}

fn creator() -> Key {
    key(33)
}

fn space_record(price: u64) -> AccountView {
    let locator = Locator {
        base: key(1),
        domain: Domain::SpaceMetadata,
        key: RecordKey::Coordinates(X, Y),
    };
    let (location, bump) = located(&program(), &locator);
    let space = SpaceMetadata { bump, mint: mint(), price, space_x: X, space_y: Y };
    account(location, program(), false, padded(space.encode(), 128))
}

fn neighborhood_record() -> AccountView {
    let locator = Locator {
        base: key(1),
        domain: Domain::NeighborhoodMetadata,
        key: RecordKey::Coordinates(1, -1),
    };
    let (location, bump) = located(&program(), &locator);
    let record = NeighborhoodMetadata {
        bump,
        creator: creator(),
        candymachine_config: key(41),
        candymachine_account: key(42),
        neighborhood_name: [0u8; 64],
    };
    account(location, program(), false, padded(record.encode(), 512))
}

fn delegate_locator() -> Locator {
    Locator { base: key(1), domain: Domain::SellDelegate, key: RecordKey::Whole }
}

fn sell_delegate() -> Key {
    located(&program(), &delegate_locator()).0
}

// base, space metadata, owner, owner's holding, sell delegate, token program
fn offer_scene() -> Vec<AccountView> {
    vec![
        wallet(key(1), false),
        space_record(0),
        wallet(seller(), true),
        holding_account(&seller(), &mint(), 1, None),
        wallet(sell_delegate(), false),
        wallet(env().token_program, false),
    ]
}

// base, neighborhood metadata, neighborhood creator, space metadata, asset,
// buyer, buyer's holding, seller, seller's holding, sell delegate, system
// program, token program, associated token program, rent sysvar
fn sale_scene(price: u64, buyer_has_holding: bool) -> Vec<AccountView> {
    let e = env();
    let buyer_holding = if buyer_has_holding {
        holding_account(&buyer(), &mint(), 0, None)
    } else {
        let mut absent = holding_account(&buyer(), &mint(), 0, None);
        absent.data = vec![];
        absent.owner = e.system_program;
        absent
    };
    vec![
        wallet(key(1), false),
        neighborhood_record(),
        wallet(creator(), false),
        space_record(price),
        wallet(mint(), false),
        wallet(buyer(), true),
        buyer_holding,
        wallet(seller(), false),
        holding_account(&seller(), &mint(), 1, Some(sell_delegate())),
        wallet(sell_delegate(), false),
        wallet(e.system_program, false),
        wallet(e.token_program, false),
        wallet(e.associated_token_program, false),
        wallet(e.rent_sysvar, false),
    ]
}

fn offer(price: u64) -> AcceptOfferArgs {
    AcceptOfferArgs { space_x: X, space_y: Y, price }
}

#[test]
fn marketplace_split() {
    assert_eq!(marketplace_fee(1000), 10);
    let mut accounts = sale_scene(1000, true);
    let outcome = accept_offer::process(&env(), &program(), &accounts, &offer(1000)).unwrap();
    let (_, bump) = located(&program(), &delegate_locator());
    assert_eq!(
        outcome.effects,
        vec![
            Effect::TransferAsset {
                source: 8,
                destination: 6,
                authority: 9,
                amount: 1,
                signer: Some(Signer { locator: delegate_locator(), disambiguator: bump }),
            },
            Effect::TransferFunds { from: 5, to: 7, amount: 990 },
            Effect::TransferFunds { from: 5, to: 2, amount: 10 },
        ]
    );
    assert_eq!(outcome.patches.len(), 1);
    assert_eq!(outcome.patches[0].account, 3);
    apply(&mut accounts, &outcome);
    let sold = SpaceMetadata::decode(&accounts[3].data).unwrap();
    assert_eq!(sold.price, 0);
    assert_eq!(sold.mint, mint());
    assert_eq!((sold.space_x, sold.space_y), (X, Y));

    // The listing is consumed: the same offer is refused on the record as written,
    assert_eq!(
        accept_offer::process(&env(), &program(), &accounts, &offer(1000)).err(),
        Some(Rejection::InvalidInstructionData)
    );
    // and once the ledger has moved the unit, an offer at zero is refused too.
    accounts[8] = holding_account(&seller(), &mint(), 0, None);
    accounts[6] = holding_account(&buyer(), &mint(), 1, None);
    assert_eq!(
        accept_offer::process(&env(), &program(), &accounts, &offer(0)).err(),
        Some(Rejection::InvalidAccountData)
    );
}

#[test]
fn marketplace_fee_is_a_hundredth_rounded_down() {
    assert_eq!(marketplace_fee(0), 0);
    assert_eq!(marketplace_fee(99), 0);
    assert_eq!(marketplace_fee(100), 1);
    assert_eq!(marketplace_fee(199), 1);
    assert_eq!(marketplace_fee(1050), 10);
    assert_eq!(marketplace_fee(u64::MAX), 184467440737095516);
}

#[test]
fn the_buyer_holding_is_created_when_missing() {
    let accounts = sale_scene(777, false);
    let outcome = accept_offer::process(&env(), &program(), &accounts, &offer(777)).unwrap();
    assert_eq!(outcome.effects.len(), 4);
    assert_eq!(
        outcome.effects[0],
        Effect::CreateHolding { payer: 5, wallet: 5, class: 4, holding: 6 }
    );
    assert_eq!(outcome.effects[2], Effect::TransferFunds { from: 5, to: 7, amount: 770 });
    assert_eq!(outcome.effects[3], Effect::TransferFunds { from: 5, to: 2, amount: 7 });

    // A missing holding must still be named by its canonical location.
    let mut misplaced = accounts.clone();
    misplaced[6].key = key(90);
    assert_eq!(
        accept_offer::process(&env(), &program(), &misplaced, &offer(777)).err(),
        Some(Rejection::Custom(CustomError::PublicKeyMismatch))
    );
}

#[test]
fn accept_offer_refusals() {
    let e = env();
    let good = sale_scene(1000, true);
    let run = |accounts: &Vec<AccountView>, args: &AcceptOfferArgs| {
        accept_offer::process(&e, &program(), accounts, args).err()
    };
    let mismatch = Some(Rejection::Custom(CustomError::PublicKeyMismatch));
    assert_eq!(run(&good, &offer(1000)), None);
    assert_eq!(run(&good[..13].to_vec(), &offer(1000)), Some(Rejection::NotEnoughAccountKeys));
    for program_index in 10..14 {
        let mut wrong = good.clone();
        wrong[program_index].key = key(99);
        assert_eq!(run(&wrong, &offer(1000)), mismatch);
    }
    let mut unreadable = good.clone();
    unreadable[3].data.truncate(10);
    assert_eq!(run(&unreadable, &offer(1000)), Some(Rejection::RecordUnreadable));

    let mut other_asset = good.clone();
    other_asset[4].key = key(98);
    assert_eq!(run(&other_asset, &offer(1000)), Some(Rejection::Custom(CustomError::MintMismatch)));

    assert!(run(&good, &AcceptOfferArgs { space_x: X, space_y: Y + 1, price: 1000 }).is_some());

    let mut no_neighborhood = good.clone();
    no_neighborhood[1].data = vec![];
    assert_eq!(run(&no_neighborhood, &offer(1000)), Some(Rejection::RecordUnreadable));

    let mut wrong_delegate = good.clone();
    wrong_delegate[9].key = key(97);
    assert_eq!(run(&wrong_delegate, &offer(1000)), mismatch);

    let mut foreign_buyer_holding = good.clone();
    foreign_buyer_holding[6] = holding_account(&key(77), &mint(), 0, None);
    assert_eq!(run(&foreign_buyer_holding, &offer(1000)), mismatch);

    let mut foreign_seller_holding = good.clone();
    foreign_seller_holding[8] = holding_account(&key(77), &mint(), 1, Some(sell_delegate()));
    assert_eq!(run(&foreign_seller_holding, &offer(1000)), mismatch);

    let mut wrong_creator = good.clone();
    wrong_creator[2].key = key(96);
    assert_eq!(run(&wrong_creator, &offer(1000)), mismatch);

    // Not listed: no delegate, or another one.
    let mut unlisted = good.clone();
    unlisted[8] = holding_account(&seller(), &mint(), 1, None);
    assert_eq!(run(&unlisted, &offer(1000)), Some(Rejection::InvalidAccountData));
    let mut other = good.clone();
    other[8] = holding_account(&seller(), &mint(), 1, Some(key(95)));
    assert_eq!(run(&other, &offer(1000)), Some(Rejection::InvalidAccountData));

    assert_eq!(run(&good, &offer(999)), Some(Rejection::InvalidInstructionData));
    assert_eq!(run(&good, &offer(0)), Some(Rejection::InvalidInstructionData));
}

#[test]
fn listed_means_the_sell_delegate_is_the_delegate() {
    let held = TokenHolding {
        mint: mint(),
        owner: seller(),
        amount: 1,
        delegate: Some(key(5)),
        state: HoldingState::Initialized,
    };
    assert_eq!(assert_listed(&held, &key(5)), Ok(()));
    assert_eq!(assert_listed(&held, &key(6)), Err(Rejection::InvalidAccountData));
    assert_eq!(
        assert_listed(&TokenHolding { delegate: None, ..held }, &key(5)),
        Err(Rejection::InvalidAccountData)
    );
}

#[test]
fn change_offer_lists_and_withdraws() {
    let e = env();
    let mut accounts = offer_scene();
    let list = ChangeOfferArgs { space_x: X, space_y: Y, price: 1000, create: true };
    let outcome = change_offer::process(&e, &program(), &accounts, &list).unwrap();
    assert_eq!(
        outcome.effects,
        vec![Effect::Approve { holding: 3, delegate: 4, authority: 2, amount: 1 }]
    );
    apply(&mut accounts, &outcome);
    assert_eq!(SpaceMetadata::decode(&accounts[1].data).unwrap().price, 1000);

    // Withdrawal writes zero whatever price the arguments carry.
    let withdraw = ChangeOfferArgs { create: false, ..list };
    let outcome = change_offer::process(&e, &program(), &accounts, &withdraw).unwrap();
    assert_eq!(outcome.effects, vec![Effect::Revoke { holding: 3, authority: 2 }]);
    apply(&mut accounts, &outcome);
    let space = SpaceMetadata::decode(&accounts[1].data).unwrap();
    assert_eq!(space.price, 0);
    assert_eq!(space.mint, mint());
}

#[test]
fn change_offer_refusals() {
    let e = env();
    let good = offer_scene();
    let list = ChangeOfferArgs { space_x: X, space_y: Y, price: 1000, create: true };
    let run = |accounts: &Vec<AccountView>, args: &ChangeOfferArgs| {
        change_offer::process(&e, &program(), accounts, args).err()
    };
    let mismatch = Some(Rejection::Custom(CustomError::PublicKeyMismatch));
    assert_eq!(run(&good, &list), None);
    assert_eq!(run(&good[..5].to_vec(), &list), Some(Rejection::NotEnoughAccountKeys));
    let mut unsigned = good.clone();
    unsigned[2].is_signer = false;
    assert_eq!(run(&unsigned, &list), Some(Rejection::MissingRequiredSignature));
    let mut wrong_ledger = good.clone();
    wrong_ledger[5].key = key(99);
    assert_eq!(run(&wrong_ledger, &list), mismatch);
    let mut unreadable = good.clone();
    unreadable[1].data = vec![];
    assert_eq!(run(&unreadable, &list), Some(Rejection::RecordUnreadable));
    let mut moved = good.clone();
    moved[1].key = key(98);
    assert_eq!(run(&moved, &list), mismatch);
    let mut wrong_delegate = good.clone();
    wrong_delegate[4].key = key(97);
    assert_eq!(run(&wrong_delegate, &list), mismatch);
    let mut not_owner = good.clone();
    not_owner[3] = holding_account(&seller(), &mint(), 0, None);
    assert_eq!(run(&not_owner, &list), Some(Rejection::Custom(CustomError::MissingTokenOwner)));
    // A stranger with a holding of their own asset cannot list this space.
    let mut stranger = good.clone();
    stranger[2] = wallet(key(70), true);
    stranger[3] = holding_account(&key(70), &key(71), 1, None);
    assert_eq!(run(&stranger, &list), mismatch);
}

#[test]
fn offer_then_sale_through_the_processor() {
    let e = env();
    let mut accounts = offer_scene();
    let mut data = vec![3u8];
    data.extend_from_slice(&X.to_le_bytes());
    data.extend_from_slice(&Y.to_le_bytes());
    data.extend_from_slice(&1000u64.to_le_bytes());
    data.push(1);
    let outcome = Processor::process(&e, &program(), &accounts, &data).unwrap();
    apply(&mut accounts, &outcome);

    let mut sale = sale_scene(0, true);
    sale[3] = accounts[1].clone();
    let mut accept = vec![4u8];
    accept.extend_from_slice(&X.to_le_bytes());
    accept.extend_from_slice(&Y.to_le_bytes());
    accept.extend_from_slice(&1000u64.to_le_bytes());
    let outcome = Processor::process(&e, &program(), &sale, &accept).unwrap();
    assert_eq!(outcome.effects[1], Effect::TransferFunds { from: 5, to: 7, amount: 990 });
    assert_eq!(outcome.effects[2], Effect::TransferFunds { from: 5, to: 2, amount: 10 });
    assert_eq!(
        Processor::process(&e, &program(), &sale, &accept[..24]).err(),
        Some(Rejection::ArgumentsUnreadable)
    );
    assert_eq!(
        Processor::process(&e, &program(), &sale, &[10]).err(),
        Some(Rejection::InvalidInstructionData)
    );
    assert_eq!(
        Processor::process(&e, &program(), &sale, &[]).err(),
        Some(Rejection::InvalidInstructionData)
    );
}
