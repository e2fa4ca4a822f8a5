#[allow(unused_imports)]
use extend_grid::color::instruction::ChangeColorArgs;
#[allow(unused_imports)]
use extend_grid::color::instruction::ChangeColorBriefArgs;
#[allow(unused_imports)]
use extend_grid::color::instruction::ColorInstruction;
#[allow(unused_imports)]
use extend_grid::color::instruction::InitFrameArgs;
#[allow(unused_imports)]
use extend_grid::color::state::NeighborhoodFrameBase;
#[allow(unused_imports)]
use extend_grid::color::state::NeighborhoodFramePointer;
#[allow(unused_imports)]
use extend_grid::color::state::is_blank_block;
#[allow(unused_imports)]
use extend_grid::color::state::stamp_block;
#[allow(unused_imports)]
use extend_grid::error::CustomError;
#[allow(unused_imports)]
use extend_grid::error::Rejection;
#[allow(unused_imports)]
use extend_grid::host::AccountView;
#[allow(unused_imports)]
use extend_grid::host::Effect;
#[allow(unused_imports)]
use extend_grid::host::Environment;
#[allow(unused_imports)]
use extend_grid::host::Outcome;
#[allow(unused_imports)]
use extend_grid::key::Key;
#[allow(unused_imports)]
use extend_grid::locator::Locator;
#[allow(unused_imports)]
use extend_grid::rent::instruction::AcceptRentArgs;
#[allow(unused_imports)]
use extend_grid::rent::instruction::RentInstruction;
#[allow(unused_imports)]
use extend_grid::rent::instruction::SetRentArgs;
#[allow(unused_imports)]
use extend_grid::rent::state::RentAccount;
#[allow(unused_imports)]
use extend_grid::space::instruction::AcceptOfferArgs;
#[allow(unused_imports)]
use extend_grid::space::instruction::ChangeNeighborhoodNameArgs;
#[allow(unused_imports)]
use extend_grid::space::instruction::ChangeOfferArgs;
#[allow(unused_imports)]
use extend_grid::space::instruction::InitBaseArgs;
#[allow(unused_imports)]
use extend_grid::space::instruction::InitNeighborhoodMetadataArgs;
#[allow(unused_imports)]
use extend_grid::space::instruction::InitSpaceMetadataArgs;
#[allow(unused_imports)]
use extend_grid::space::instruction::InitVoucherSystemArgs;
#[allow(unused_imports)]
use extend_grid::space::instruction::RevokeAuthorityPrivilegesArgs;
#[allow(unused_imports)]
use extend_grid::space::instruction::SpaceInstruction;
#[allow(unused_imports)]
use extend_grid::space::instruction::TempAddxyArgs;
#[allow(unused_imports)]
use extend_grid::space::instruction::UpdateAuthorityArgs;
#[allow(unused_imports)]
use extend_grid::space::state::Base;
#[allow(unused_imports)]
use extend_grid::space::state::NeighborhoodList;
#[allow(unused_imports)]
use extend_grid::space::state::NeighborhoodMetadata;
#[allow(unused_imports)]
use extend_grid::space::state::SpaceMetadata;
#[allow(unused_imports)]
use extend_grid::wire::get_array;
#[allow(unused_imports)]
use extend_grid::wire::get_i16;
#[allow(unused_imports)]
use extend_grid::wire::get_i64;
#[allow(unused_imports)]
use extend_grid::wire::get_key;
#[allow(unused_imports)]
use extend_grid::wire::get_u32;
#[allow(unused_imports)]
use extend_grid::wire::get_u64;
#[allow(unused_imports)]
use extend_grid::wire::put_bytes;
#[allow(unused_imports)]
use extend_grid::wire::put_flag;
#[allow(unused_imports)]
use extend_grid::wire::put_i64;
#[allow(unused_imports)]
use extend_grid::wire::put_key;
#[allow(unused_imports)]
use extend_grid::wire::put_u32;
#[allow(unused_imports)]
use extend_grid::wire::put_u64;

#[allow(dead_code)]
fn key(n: u8) -> Key {
    Key::new([n; 32])
}

#[allow(dead_code)]
fn env() -> Environment {
    Environment {
        system_program: Key::new(solana_program::system_program::id().to_bytes()),
        token_program: Key::new(spl_token::id().to_bytes()),
        associated_token_program: Key::new(spl_associated_token_account::id().to_bytes()),
        rent_sysvar: Key::new(solana_program::sysvar::rent::id().to_bytes()),
        registry_program: key(200),
        payment_mint: key(201),
        metadata_program: Key::new(metaplex_token_metadata::id().to_bytes()),
    }
}

#[allow(dead_code)]
fn account(key: Key, owner: Key, is_signer: bool, data: Vec<u8>) -> AccountView {
    AccountView { key, owner, is_signer, data }
}

#[allow(dead_code)]
fn wallet(key: Key, is_signer: bool) -> AccountView {
    account(key, env().system_program, is_signer, Vec::new())
}

#[allow(dead_code)]
fn padded(mut bytes: Vec<u8>, len: usize) -> Vec<u8> {
    bytes.resize(len, 0);
    bytes
}

#[allow(dead_code)]
fn holding_bytes(mint: &Key, owner: &Key, amount: u64, delegate: Option<Key>) -> Vec<u8> {
    let holding = spl_token::state::Account {
        mint: solana_program::pubkey::Pubkey::new_from_array(mint.bytes),
        owner: solana_program::pubkey::Pubkey::new_from_array(owner.bytes),
        amount,
        delegate: match delegate {
            Some(d) => solana_program::program_option::COption::Some(
                solana_program::pubkey::Pubkey::new_from_array(d.bytes),
            ),
            None => solana_program::program_option::COption::None,
        },
        state: spl_token::state::AccountState::Initialized,
        is_native: solana_program::program_option::COption::None,
        delegated_amount: if delegate.is_some() { amount } else { 0 },
        close_authority: solana_program::program_option::COption::None,
    };
    let mut bytes = vec![0u8; 165];
    solana_program::program_pack::Pack::pack(holding, &mut bytes).unwrap();
    bytes
}

#[allow(dead_code)]
fn holding_account(owner: &Key, mint: &Key, amount: u64, delegate: Option<Key>) -> AccountView {
    let e = env();
    let location = extend_grid::validation_utils::get_associated_token_address(&e, owner, mint)
        .unwrap();
    account(location, e.token_program, false, holding_bytes(mint, owner, amount, delegate))
}

#[allow(dead_code)]
fn located(authority: &Key, locator: &Locator) -> (Key, u8) {
    extend_grid::address::discover(authority, &locator.seed_bytes()).unwrap()
}

#[allow(dead_code)]
fn apply(accounts: &mut Vec<AccountView>, outcome: &Outcome) {
    for effect in outcome.effects.iter() {
        if let Effect::CreateRecord { record, space, owner, .. } = *effect {
            assert!(accounts[record].data.is_empty());
            accounts[record].data = vec![0u8; space as usize];
            accounts[record].owner = owner;
        }
    }
    for patch in outcome.patches.iter() {
        let data = &mut accounts[patch.account].data;
        assert!(patch.offset + patch.bytes.len() <= data.len());
        data[patch.offset..patch.offset + patch.bytes.len()].copy_from_slice(&patch.bytes);
    }
}

#[test]
fn wire_integers_are_little_endian() {
    let mut out = vec![9u8];
    put_u64(&mut out, 0x0102030405060708);
    put_i64(&mut out, -2);
    put_u32(&mut out, 0xA0B0C0D0);
    put_flag(&mut out, true);
    put_flag(&mut out, false);
    put_key(&mut out, &key(7));
    put_bytes(&mut out, &[1, 2, 3]);
    let mut expected = vec![9u8, 8, 7, 6, 5, 4, 3, 2, 1];
    expected.extend_from_slice(&[0xFE, 0xFF, 0xFF, 0xFF, 0xFF, 0xFF, 0xFF, 0xFF]);
    expected.extend_from_slice(&[0xD0, 0xC0, 0xB0, 0xA0]);
    expected.extend_from_slice(&[1, 0]);
    expected.extend_from_slice(&[7u8; 32]);
    expected.extend_from_slice(&[1, 2, 3]);
    assert_eq!(out, expected);
    assert_eq!(get_u64(&out, 1), 0x0102030405060708);
    assert_eq!(get_i64(&out, 9), -2);
    assert_eq!(get_u32(&out, 17), 0xA0B0C0D0);
    assert_eq!(get_key(&out, 23), key(7));
    assert_eq!(get_array::<3>(&out, 55), [1, 2, 3]);
    assert_eq!(get_i16(&[0xFB, 0xFF], 0), -5);
    assert_eq!(get_i16(&[0xFA, 0x00], 0), 250);
}

#[test]
fn key_helpers() {
    assert_eq!(Key::zero(), Key::new([0u8; 32]));
    assert!(key(3).same(&key(3)));
    assert!(!key(3).same(&key(4)));
    let mut almost = [3u8; 32];
    almost[31] = 4;
    assert!(!key(3).same(&Key::new(almost)));
    assert_eq!(key(3).to_vec(), vec![3u8; 32]);
}

#[test]
fn base_layout() {
    let base = Base { neighborhood_count: 3, authority: key(9), authority_privileges: true };
    let bytes = base.encode();
    let mut expected = vec![3u8, 0, 0, 0, 0, 0, 0, 0];
    expected.extend_from_slice(&[9u8; 32]);
    expected.push(1);
    assert_eq!(bytes, expected);
    assert_eq!(bytes.len(), Base::LEN);
    assert_eq!(Base::decode(&bytes), Some(base));
    assert_eq!(Base::decode(&padded(bytes.clone(), 2048)), Some(base));
    assert_eq!(Base::decode(&bytes[..40]), None);
    let mut bad_flag = bytes.clone();
    bad_flag[40] = 2;
    assert_eq!(Base::decode(&bad_flag), None);
    assert_eq!(
        Base::decode(&vec![0u8; 2048]),
        Some(Base { neighborhood_count: 0, authority: Key::zero(), authority_privileges: false })
    );
}

#[test]
fn neighborhood_metadata_layout() {
    let mut name = [0u8; 64];
    name[..5].copy_from_slice(b"Hello");
    let record = NeighborhoodMetadata {
        bump: 254,
        creator: key(1),
        candymachine_config: key(2),
        candymachine_account: key(3),
        neighborhood_name: name,
    };
    let bytes = record.encode();
    assert_eq!(bytes.len(), NeighborhoodMetadata::LEN);
    assert_eq!(bytes[0], 254);
    assert_eq!(&bytes[1..33], &[1u8; 32]);
    assert_eq!(&bytes[33..65], &[2u8; 32]);
    assert_eq!(&bytes[65..97], &[3u8; 32]);
    assert_eq!(&bytes[97..161], &name[..]);
    assert_eq!(NeighborhoodMetadata::decode(&padded(bytes.clone(), 512)), Some(record));
    assert_eq!(NeighborhoodMetadata::decode(&bytes[..160]), None);
}

#[test]
fn space_metadata_layout() {
    let record = SpaceMetadata { bump: 253, mint: key(8), price: 1000, space_x: 250, space_y: -5 };
    let bytes = record.encode();
    let mut expected = vec![253u8];
    expected.extend_from_slice(&[8u8; 32]);
    expected.extend_from_slice(&1000u64.to_le_bytes());
    expected.extend_from_slice(&250i64.to_le_bytes());
    expected.extend_from_slice(&(-5i64).to_le_bytes());
    assert_eq!(bytes, expected);
    assert_eq!(bytes.len(), SpaceMetadata::LEN);
    assert_eq!(SpaceMetadata::decode(&padded(bytes.clone(), 128)), Some(record));
    assert_eq!(SpaceMetadata::decode(&bytes[..56]), None);
    assert_eq!(SpaceMetadata::decode(&[]), None);
}

#[test]
fn neighborhood_list_layout() {
    let list = NeighborhoodList {
        bump: 255,
        neighborhoods_x: vec![0, -1, 7],
        neighborhoods_y: vec![2, 3, -9],
    };
    let bytes = list.encode();
    let mut expected = vec![255u8, 3, 0, 0, 0];
    for x in [0i64, -1, 7] {
        expected.extend_from_slice(&x.to_le_bytes());
    }
    expected.extend_from_slice(&[3, 0, 0, 0]);
    for y in [2i64, 3, -9] {
        expected.extend_from_slice(&y.to_le_bytes());
    }
    assert_eq!(bytes, expected);
    assert_eq!(NeighborhoodList::decode(&padded(bytes.clone(), 10240)), Some(list));
    assert_eq!(NeighborhoodList::decode(&bytes[..bytes.len() - 1]), None);
    assert_eq!(NeighborhoodList::decode(&bytes[..8]), None);
    assert_eq!(
        NeighborhoodList::decode(&vec![0u8; 10240]),
        Some(NeighborhoodList { bump: 0, neighborhoods_x: vec![], neighborhoods_y: vec![] })
    );
    // A count that the bytes cannot hold is refused, however large.
    let mut huge = vec![0u8; 64];
    huge[1..5].copy_from_slice(&u32::MAX.to_le_bytes());
    assert_eq!(NeighborhoodList::decode(&huge), None);
    let mut second = vec![0u8; 64];
    second[5..9].copy_from_slice(&u32::MAX.to_le_bytes());
    assert_eq!(NeighborhoodList::decode(&second), None);
    // The two halves may differ in length on the wire.
    let uneven = NeighborhoodList { bump: 1, neighborhoods_x: vec![4], neighborhoods_y: vec![] };
    assert_eq!(NeighborhoodList::decode(&uneven.encode()), Some(uneven));
}

#[test]
fn frame_records_layout() {
    let base = NeighborhoodFrameBase { bump: 250, length: 0x0102 };
    assert_eq!(base.encode(), vec![250u8, 2, 1, 0, 0, 0, 0, 0, 0]);
    assert_eq!(NeighborhoodFrameBase::decode(&padded(base.encode(), 128)), Some(base));
    assert_eq!(NeighborhoodFrameBase::decode(&[250, 2, 1, 0, 0, 0, 0, 0]), None);
    let pointer = NeighborhoodFramePointer { bump: 249, framekey: key(6) };
    let mut expected = vec![249u8];
    expected.extend_from_slice(&[6u8; 32]);
    assert_eq!(pointer.encode(), expected);
    assert_eq!(NeighborhoodFramePointer::decode(&padded(expected.clone(), 128)), Some(pointer));
    assert_eq!(NeighborhoodFramePointer::decode(&expected[..32]), None);
}

#[test]
fn rent_account_layout() {
    let record = RentAccount {
        bump: 251,
        mint: key(1),
        price: 10,
        min_duration: 100,
        max_duration: 1000,
        max_timestamp: 5000,
        lister: key(2),
        lessee: key(3),
        rent_end: 4500,
    };
    let bytes = record.encode();
    let mut expected = vec![251u8];
    expected.extend_from_slice(&[1u8; 32]);
    for v in [10u64, 100, 1000, 5000] {
        expected.extend_from_slice(&v.to_le_bytes());
    }
    expected.extend_from_slice(&[2u8; 32]);
    expected.extend_from_slice(&[3u8; 32]);
    expected.extend_from_slice(&4500u64.to_le_bytes());
    assert_eq!(bytes, expected);
    assert_eq!(bytes.len(), RentAccount::LEN);
    assert_eq!(RentAccount::decode(&padded(bytes.clone(), 256)), Some(record));
    assert_eq!(RentAccount::decode(&bytes[..136]), None);
}

#[test]
fn stamped_block_layout() {
    let block = stamp_block(120017 + 3, -7, 12);
    assert_eq!(block.len(), 120020);
    assert!(block[..120000].iter().all(|b| *b == 0));
    assert_eq!(&block[120000..120008], &(-7i64).to_le_bytes());
    assert_eq!(&block[120008..120016], &12i64.to_le_bytes());
    assert_eq!(block[120016], 1);
    assert_eq!(&block[120017..], &[0, 0, 0]);
    assert!(!is_blank_block(&block));
    assert!(is_blank_block(&vec![7u8; 120016].into_iter().chain([0u8]).collect::<Vec<u8>>()));
    assert!(!is_blank_block(&vec![0u8; 120016]));
    assert!(is_blank_block(&vec![0u8; 120017]));
}

#[test]
fn space_arguments_decode() {
    assert_eq!(InitBaseArgs::try_from_slice(&[]), Some(InitBaseArgs {}));
    assert_eq!(InitBaseArgs::try_from_slice(&[0]), None);
    assert_eq!(RevokeAuthorityPrivilegesArgs::try_from_slice(&[]), Some(RevokeAuthorityPrivilegesArgs {}));
    assert_eq!(RevokeAuthorityPrivilegesArgs::try_from_slice(&[1]), None);
    assert_eq!(UpdateAuthorityArgs::try_from_slice(&[]), Some(UpdateAuthorityArgs {}));
    assert_eq!(UpdateAuthorityArgs::try_from_slice(&[1, 2]), None);

    let mut bytes = Vec::new();
    bytes.extend_from_slice(&(-3i64).to_le_bytes());
    bytes.extend_from_slice(&4i64.to_le_bytes());
    assert_eq!(
        InitSpaceMetadataArgs::try_from_slice(&bytes),
        Some(InitSpaceMetadataArgs { space_x: -3, space_y: 4 })
    );
    assert_eq!(
        InitVoucherSystemArgs::try_from_slice(&bytes),
        Some(InitVoucherSystemArgs { neighborhood_x: -3, neighborhood_y: 4 })
    );
    assert_eq!(TempAddxyArgs::try_from_slice(&bytes), Some(TempAddxyArgs { space_x: -3, space_y: 4 }));
    assert_eq!(InitSpaceMetadataArgs::try_from_slice(&bytes[..15]), None);
    bytes.extend_from_slice(&1000u64.to_le_bytes());
    assert_eq!(
        AcceptOfferArgs::try_from_slice(&bytes),
        Some(AcceptOfferArgs { space_x: -3, space_y: 4, price: 1000 })
    );
    assert_eq!(InitSpaceMetadataArgs::try_from_slice(&bytes), None);
    let mut offer = bytes.clone();
    offer.push(1);
    assert_eq!(
        ChangeOfferArgs::try_from_slice(&offer),
        Some(ChangeOfferArgs { space_x: -3, space_y: 4, price: 1000, create: true })
    );
    offer[24] = 0;
    assert_eq!(
        ChangeOfferArgs::try_from_slice(&offer),
        Some(ChangeOfferArgs { space_x: -3, space_y: 4, price: 1000, create: false })
    );
    offer[24] = 2;
    assert_eq!(ChangeOfferArgs::try_from_slice(&offer), None);
    offer[24] = 1;
    offer.push(0);
    assert_eq!(ChangeOfferArgs::try_from_slice(&offer), None);

    let mut name = [0u8; 64];
    name[0] = b'N';
    let mut init = bytes.clone();
    init.extend_from_slice(&name);
    assert_eq!(
        InitNeighborhoodMetadataArgs::try_from_slice(&init),
        Some(InitNeighborhoodMetadataArgs {
            neighborhood_x: -3,
            neighborhood_y: 4,
            price: 1000,
            neighborhood_name: name,
        })
    );
    assert_eq!(InitNeighborhoodMetadataArgs::try_from_slice(&init[..87]), None);
    let mut rename = bytes[..16].to_vec();
    rename.extend_from_slice(&name);
    assert_eq!(
        ChangeNeighborhoodNameArgs::try_from_slice(&rename),
        Some(ChangeNeighborhoodNameArgs {
            neighborhood_x: -3,
            neighborhood_y: 4,
            neighborhood_name: name,
        })
    );
}

#[test]
fn color_arguments_decode() {
    let mut bytes = Vec::new();
    bytes.extend_from_slice(&250i64.to_le_bytes());
    bytes.extend_from_slice(&(-5i64).to_le_bytes());
    assert_eq!(
        InitFrameArgs::try_from_slice(&bytes),
        Some(InitFrameArgs { neighborhood_x: 250, neighborhood_y: -5 })
    );
    bytes.extend_from_slice(&3u64.to_le_bytes());
    bytes.extend_from_slice(&[10, 20, 30]);
    assert_eq!(
        ChangeColorArgs::try_from_slice(&bytes),
        Some(ChangeColorArgs { space_x: 250, space_y: -5, frame: 3, r: 10, g: 20, b: 30 })
    );
    assert_eq!(ChangeColorArgs::try_from_slice(&bytes[..26]), None);
    let brief = [0xFA, 0x00, 0xFB, 0xFF, 3, 10, 20, 30];
    assert_eq!(
        ChangeColorBriefArgs::try_from_slice(&brief),
        Some(ChangeColorBriefArgs { space_x: 250, space_y: -5, frame: 3, r: 10, g: 20, b: 30 })
    );
    assert_eq!(ChangeColorBriefArgs::try_from_slice(&brief[..7]), None);
}

#[test]
fn rent_arguments_decode() {
    let mut bytes = Vec::new();
    bytes.extend_from_slice(&1i64.to_le_bytes());
    bytes.extend_from_slice(&(-1i64).to_le_bytes());
    bytes.extend_from_slice(&10u64.to_le_bytes());
    bytes.extend_from_slice(&800u64.to_le_bytes());
    assert_eq!(
        AcceptRentArgs::try_from_slice(&bytes),
        Some(AcceptRentArgs { space_x: 1, space_y: -1, price: 10, rent_time: 800 })
    );
    bytes.extend_from_slice(&1000u64.to_le_bytes());
    bytes.extend_from_slice(&5000u64.to_le_bytes());
    bytes.push(1);
    assert_eq!(
        SetRentArgs::try_from_slice(&bytes),
        Some(SetRentArgs {
            space_x: 1,
            space_y: -1,
            price: 10,
            min_duration: 800,
            max_duration: 1000,
            max_timestamp: 5000,
            create: true,
        })
    );
    bytes[48] = 7;
    assert_eq!(SetRentArgs::try_from_slice(&bytes), None);
    assert_eq!(AcceptRentArgs::try_from_slice(&bytes), None);
}

#[test]
fn instruction_tags() {
    assert_eq!(SpaceInstruction::unpack(&0), Ok(SpaceInstruction::InitBase));
    assert_eq!(SpaceInstruction::unpack(&1), Ok(SpaceInstruction::InitNeighborhoodMetadata));
    assert_eq!(SpaceInstruction::unpack(&2), Ok(SpaceInstruction::InitSpaceMetadata));
    assert_eq!(SpaceInstruction::unpack(&3), Ok(SpaceInstruction::ChangeOffer));
    assert_eq!(SpaceInstruction::unpack(&4), Ok(SpaceInstruction::AcceptOffer));
    assert_eq!(SpaceInstruction::unpack(&5), Ok(SpaceInstruction::InitVoucherSystem));
    assert_eq!(SpaceInstruction::unpack(&6), Ok(SpaceInstruction::RevokeAuthorityPrivileges));
    assert_eq!(SpaceInstruction::unpack(&7), Ok(SpaceInstruction::UpdateAuthority));
    assert_eq!(SpaceInstruction::unpack(&8), Ok(SpaceInstruction::ChangeNeighborhoodName));
    assert_eq!(SpaceInstruction::unpack(&9), Ok(SpaceInstruction::TempAddxy));
    assert_eq!(SpaceInstruction::unpack(&10), Err(Rejection::InvalidInstructionData));
    assert_eq!(SpaceInstruction::unpack(&255), Err(Rejection::InvalidInstructionData));
    assert_eq!(ColorInstruction::unpack(&0), Ok(ColorInstruction::InitFrame));
    assert_eq!(ColorInstruction::unpack(&1), Ok(ColorInstruction::ChangeColor));
    assert_eq!(ColorInstruction::unpack(&2), Ok(ColorInstruction::ChangeColorBrief));
    assert_eq!(ColorInstruction::unpack(&3), Err(Rejection::InvalidInstructionData));
    assert_eq!(RentInstruction::unpack(&0), Ok(RentInstruction::SetRent));
    assert_eq!(RentInstruction::unpack(&1), Ok(RentInstruction::AcceptRent));
    assert_eq!(RentInstruction::unpack(&2), Err(Rejection::InvalidInstructionData));
}

#[test]
fn custom_error_codes_and_names() {
    assert_eq!(CustomError::WrongAuthority.code(), 0);
    assert_eq!(CustomError::MissingTokenOwner.code(), 2);
    assert_eq!(CustomError::OwnerAccountMismatch.code(), 8);
    assert_eq!(CustomError::PublicKeyMismatch.code(), 9);
    assert_eq!(CustomError::UninitializedAccount.code(), 10);
    assert_eq!(CustomError::MintMismatch.code(), 12);
    assert_eq!(CustomError::ColorClusterAlreadyInitialized.code(), 15);
    assert_eq!(CustomError::PublicKeyMismatch.message(), "PublicKeyMismatch");
    assert_eq!(CustomError::UnterminatedRent.message(), "UnterminatedRent");
    assert_eq!(CustomError::ColorClusterAlreadyInitialized.message(), "ColorClusterAlreadyInitialized");
}
