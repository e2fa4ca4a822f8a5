use extend_grid::address::check_discovered;
use extend_grid::address::check_location;
use extend_grid::address::discover;
use extend_grid::address::reconstruct;
use extend_grid::address::seeds_with_disambiguator;
use extend_grid::error::CustomError;
use extend_grid::error::Rejection;
use extend_grid::host::Environment;
use extend_grid::key::Key;
use extend_grid::locator::Domain;
use extend_grid::locator::Locator;
use extend_grid::locator::RecordKey;
use extend_grid::validation_utils::get_associated_token_address;
use solana_program::pubkey::Pubkey;

fn key(n: u8) -> Key {
    Key::new([n; 32])
}

fn pubkey(k: &Key) -> Pubkey {
    Pubkey::new_from_array(k.bytes)
}

fn env() -> Environment {
    Environment {
        system_program: Key::new(solana_program::system_program::id().to_bytes()),
        token_program: Key::new(spl_token::id().to_bytes()),
        associated_token_program: Key::new(spl_associated_token_account::id().to_bytes()),
        rent_sysvar: Key::new(solana_program::sysvar::rent::id().to_bytes()),
        registry_program: key(200),
        payment_mint: key(201),
        metadata_program: Key::new(metaplex_token_metadata::id().to_bytes()),
    }
}

#[test]
fn discover_agrees_with_the_host() {
    let program = key(7);
    let seeds = vec![b"vault".to_vec(), vec![1, 2, 3]];
    let (expected, bump) =
        Pubkey::find_program_address(&[b"vault", &[1, 2, 3]], &pubkey(&program));
    let (found, disambiguator) = discover(&program, &seeds).unwrap();
    assert_eq!(found.bytes, expected.to_bytes());
    assert_eq!(disambiguator, bump);
    assert_ne!(found, program);
}

#[test]
fn reconstruct_inverts_discover() {
    for n in 0..40u8 {
        let program = key(n);
        let seeds = vec![vec![n], b"space_metadata".to_vec(), (n as i64 - 20).to_le_bytes().to_vec()];
        let (found, disambiguator) = discover(&program, &seeds).unwrap();
        assert!(disambiguator >= 1);
        assert_eq!(reconstruct(&program, &seeds, disambiguator), Ok(found));
        assert_eq!(check_location(&program, &seeds, disambiguator, &found), Ok(()));
        assert_eq!(check_discovered(&program, &seeds, &found), Ok(disambiguator));
    }
}

#[test]
fn discover_returns_the_highest_valid_disambiguator() {
    let program = key(9);
    let seeds = vec![b"neighborhood_list".to_vec()];
    let (_, disambiguator) = discover(&program, &seeds).unwrap();
    let mut b = 255u8;
    while b > disambiguator {
        assert_eq!(reconstruct(&program, &seeds, b), Err(Rejection::InvalidSeeds));
        b -= 1;
    }
}

#[test]
fn reconstruct_agrees_with_the_host() {
    let program = key(3);
    let seeds = vec![b"abc".to_vec()];
    let mut valid = 0;
    let mut invalid = 0;
    for b in 0..=255u8 {
        let expected = Pubkey::create_program_address(&[b"abc", &[b]], &pubkey(&program));
        match reconstruct(&program, &seeds, b) {
            Ok(k) => {
                assert_eq!(k.bytes, expected.unwrap().to_bytes());
                valid += 1;
            }
            Err(e) => {
                assert_eq!(e, Rejection::InvalidSeeds);
                assert!(expected.is_err());
                invalid += 1;
            }
        }
    }
    assert!(valid > 0);
    assert!(invalid > 0);
}

#[test]
fn too_many_or_too_long_seeds_are_refused() {
    let program = key(1);
    let sixteen: Vec<Vec<u8>> = (0..16u8).map(|i| vec![i]).collect();
    assert_eq!(reconstruct(&program, &sixteen, 255), Err(Rejection::MaxSeedLengthExceeded));
    assert_eq!(discover(&program, &sixteen), None);
    assert_eq!(check_discovered(&program, &sixteen, &key(2)), Err(Rejection::InvalidSeeds));
    let fifteen: Vec<Vec<u8>> = (0..15u8).map(|i| vec![i]).collect();
    assert!(discover(&program, &fifteen).is_some());
    let long = vec![vec![0u8; 33]];
    assert_eq!(reconstruct(&program, &long, 255), Err(Rejection::MaxSeedLengthExceeded));
    assert_eq!(discover(&program, &long), None);
    let longest = vec![vec![0u8; 32]];
    assert!(discover(&program, &longest).is_some());
}

#[test]
fn a_wrong_location_is_a_key_mismatch() {
    let program = key(5);
    let seeds = vec![b"rent_account".to_vec()];
    let (found, disambiguator) = discover(&program, &seeds).unwrap();
    let other = key(6);
    assert_eq!(
        check_location(&program, &seeds, disambiguator, &other),
        Err(Rejection::Custom(CustomError::PublicKeyMismatch))
    );
    assert_eq!(
        check_discovered(&program, &seeds, &other),
        Err(Rejection::Custom(CustomError::PublicKeyMismatch))
    );
    // Another authority derives another location from the same seeds.
    assert_eq!(
        check_location(&key(8), &seeds, disambiguator, &found).is_ok(),
        false
    );
}

#[test]
fn seeds_with_disambiguator_appends_one_seed() {
    let seeds = vec![vec![1u8, 2], vec![], vec![3]];
    assert_eq!(
        seeds_with_disambiguator(&seeds, 254),
        vec![vec![1u8, 2], vec![], vec![3], vec![254]]
    );
}

#[test]
fn locator_seeds_are_base_tag_and_key() {
    let base = key(4);
    let whole = Locator { base, domain: Domain::SellDelegate, key: RecordKey::Whole };
    assert_eq!(whole.seed_bytes(), vec![vec![4u8; 32], b"sell_delegate".to_vec()]);
    let space = Locator {
        base,
        domain: Domain::SpaceMetadata,
        key: RecordKey::Coordinates(-2, 258),
    };
    assert_eq!(
        space.seed_bytes(),
        vec![
            vec![4u8; 32],
            b"space_metadata".to_vec(),
            (-2i64).to_le_bytes().to_vec(),
            258i64.to_le_bytes().to_vec(),
        ]
    );
    let frame = Locator {
        base,
        domain: Domain::NeighborhoodFramePointer,
        key: RecordKey::Frame(1, -1, 7),
    };
    assert_eq!(
        frame.seed_bytes(),
        vec![
            vec![4u8; 32],
            b"neighborhood_frame_pointer".to_vec(),
            1i64.to_le_bytes().to_vec(),
            (-1i64).to_le_bytes().to_vec(),
            7u64.to_le_bytes().to_vec(),
        ]
    );
}

#[test]
fn domain_tags() {
    assert_eq!(Domain::NeighborhoodMetadata.tag_bytes(), b"neighborhood_metadata".to_vec());
    assert_eq!(Domain::NeighborhoodList.tag_bytes(), b"neighborhood_list".to_vec());
    assert_eq!(Domain::VoucherMint.tag_bytes(), b"voucher_mint".to_vec());
    assert_eq!(Domain::VoucherSink.tag_bytes(), b"voucher_sink".to_vec());
    assert_eq!(Domain::SpaceMetadata.tag_bytes(), b"space_metadata".to_vec());
    assert_eq!(Domain::SellDelegate.tag_bytes(), b"sell_delegate".to_vec());
    assert_eq!(Domain::NeighborhoodFrameBase.tag_bytes(), b"neighborhood_frame_base".to_vec());
    assert_eq!(
        Domain::NeighborhoodFramePointer.tag_bytes(),
        b"neighborhood_frame_pointer".to_vec()
    );
    assert_eq!(Domain::RentAccount.tag_bytes(), b"rent_account".to_vec());
}

#[test]
fn locator_check_fresh_then_check() {
    let program = key(11);
    let locator = Locator {
        base: key(12),
        domain: Domain::NeighborhoodMetadata,
        key: RecordKey::Coordinates(3, -4),
    };
    let (location, _) = discover(&program, &locator.seed_bytes()).unwrap();
    let disambiguator = locator.check_fresh(&program, &location).unwrap();
    assert_eq!(locator.check(&program, disambiguator, &location), Ok(()));
    let elsewhere = Locator { key: RecordKey::Coordinates(3, -5), ..locator };
    assert_eq!(
        elsewhere.check(&program, disambiguator, &location).is_ok(),
        false
    );
}

#[test]
fn associated_address_agrees_with_the_ledger() {
    let wallet = key(21);
    let mint = key(22);
    let expected = spl_associated_token_account::get_associated_token_address(
        &pubkey(&wallet),
        &pubkey(&mint),
    );
    let found = get_associated_token_address(&env(), &wallet, &mint).unwrap();
    assert_eq!(found.bytes, expected.to_bytes());
}
