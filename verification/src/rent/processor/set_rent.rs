//! Listing of a space for rent, and withdrawal of the listing.

use crate::error::Rejection;
use crate::host::assert_enough;
use crate::host::assert_signed;
use crate::host::enough;
use crate::host::require;
use crate::host::signed;
use crate::host::verdict;
use crate::host::AccountView;
use crate::host::Effect;
use crate::host::Environment;
use crate::host::Outcome;
use crate::host::OutcomeView;
use crate::key::Key;
use crate::locator::Domain;
use crate::locator::Locator;
use crate::locator::RecordKey;
use crate::locator::Signer;
use crate::rent::instruction::SetRentArgs;
use crate::rent::state::RentAccount;
use crate::rent::state::RENT_ACCOUNT_RESERVE;
use crate::space::state::SpaceMetadata;
use crate::validation_utils::assert_custody;
use crate::validation_utils::assert_keys_equal;
use crate::validation_utils::custody;
use crate::validation_utils::keys_equal;
use crate::wire::key_of;
use vstd::prelude::*;

verus! {

/// Position of each record in the list that the operation is handed.
pub const BASE: usize = 0;

pub const SPACE_METADATA: usize = 1;

pub const RENT_ACCOUNT: usize = 2;

pub const LESSOR: usize = 3;

pub const LESSOR_HOLDING: usize = 4;

pub const SYSTEM_PROGRAM: usize = 5;

/// Number of records that the operation reads.
pub const ACCOUNTS: usize = 6;

/// The listing after the lessor set or withdrew the terms.
///
/// Terms are accepted only if a lease of the minimum duration that starts
/// now ends by the latest end. Withdrawal clears price, durations and latest
/// end. Neither touches the lease in progress: lessee and end of lease stay.
pub open spec fn terms_set(listing: RentAccount, lessor: Key, args: SetRentArgs, now: u64) -> Result<
    RentAccount,
    Rejection,
> {
    if args.create && now + args.min_duration > args.max_timestamp {
        Err(Rejection::InvalidInstructionData)
    } else if args.create {
        Ok(
            RentAccount {
                price: args.price,
                min_duration: args.min_duration,
                max_duration: args.max_duration,
                max_timestamp: args.max_timestamp,
                lister: lessor,
                ..listing
            },
        )
    } else {
        Ok(RentAccount { price: 0, min_duration: 0, max_duration: 0, max_timestamp: 0, ..listing })
    }
}

/// Sets the terms of a listing, or withdraws them.
pub fn set_terms(listing: &RentAccount, lessor: &Key, args: &SetRentArgs, now: u64) -> (r: Result<
    RentAccount,
    Rejection,
>)
    ensures
        r == terms_set(*listing, *lessor, *args, now),
{
    if args.create {
        let fits = match now.checked_add(args.min_duration) {
            Some(earliest_end) => earliest_end <= args.max_timestamp,
            None => false,
        };
        if !fits {
            return Err(Rejection::InvalidInstructionData);
        }
        Ok(
            RentAccount {
                price: args.price,
                min_duration: args.min_duration,
                max_duration: args.max_duration,
                max_timestamp: args.max_timestamp,
                lister: *lessor,
                ..*listing
            },
        )
    } else {
        Ok(RentAccount { price: 0, min_duration: 0, max_duration: 0, max_timestamp: 0, ..*listing })
    }
}

/// Neither listing nor withdrawal touches a lease in progress, the asset that
/// the listing is for, or its disambiguation byte.
pub proof fn lemma_lease_untouched(listing: RentAccount, lessor: Key, args: SetRentArgs, now: u64)
    ensures
        terms_set(listing, lessor, args, now) matches Ok(next) ==> {
            &&& next.lessee == listing.lessee
            &&& next.rent_end == listing.rent_end
            &&& next.mint == listing.mint
            &&& next.bump == listing.bump
        },
        !args.create ==> terms_set(listing, lessor, args, now) is Ok,
{
}

/// The listing before any terms were set: all zero but the disambiguation
/// byte and the asset.
pub open spec fn empty_listing(disambiguator: u8, mint: Key) -> RentAccount {
    RentAccount {
        bump: disambiguator,
        mint,
        price: 0,
        min_duration: 0,
        max_duration: 0,
        max_timestamp: 0,
        lister: key_of(Seq::new(32, |i: int| 0u8)),
        lessee: key_of(Seq::new(32, |i: int| 0u8)),
        rent_end: 0,
    }
}

/// The listing as the operation finds it: the stored one, or, where the
/// record does not exist yet, an empty one.
pub open spec fn current_listing(account: AccountView, disambiguator: u8, mint: Key) -> Option<
    RentAccount,
> {
    if account.data@.len() == 0 {
        Some(empty_listing(disambiguator, mint))
    } else {
        RentAccount::parse(account.data@)
    }
}

/// The logical address of a record of the space at the coordinates in `args`.
pub open spec fn space_record(base: Key, domain: Domain, args: SetRentArgs) -> Locator {
    Locator { base, domain, key: RecordKey::Coordinates(args.space_x, args.space_y) }
}

/// What the host is asked to do: create the rent listing where it is missing,
/// and write the listing.
pub open spec fn written(
    program_id: Key,
    accounts: Seq<AccountView>,
    args: SetRentArgs,
    disambiguator: u8,
    listing: RentAccount,
) -> OutcomeView {
    OutcomeView {
        effects: if accounts[2].data@.len() == 0 {
            seq![
                Effect::CreateRecord {
                    payer: 3,
                    record: 2,
                    space: RENT_ACCOUNT_RESERVE as u64,
                    owner: program_id,
                    signer: Some(
                        Signer {
                            locator: space_record(accounts[0].key, Domain::RentAccount, args),
                            disambiguator,
                        },
                    ),
                },
            ]
        } else {
            seq![]
        },
        patches: seq![(2, 0, listing.encoding())],
    }
}

/// The outcome of the operation: the first check that fails rejects it; where
/// none fails, the listing is written.
///
/// In order: the list holds every record; the lessor authorized the call; the
/// system program is the deployment's; the space's metadata decodes and lies
/// at its location under the registry's authority; the lessor has exclusive
/// custody of the space's asset; the rent listing lies at its discovered
/// location; it decodes, where it exists; and the terms are acceptable.
pub open spec fn outcome_of(
    env: Environment,
    program_id: Key,
    accounts: Seq<AccountView>,
    args: SetRentArgs,
    now: u64,
) -> Result<OutcomeView, Rejection> {
    let base = accounts[0].key;
    require(
        enough(accounts, 6),
        require(
            signed(accounts[3]),
            require(
                keys_equal(env.system_program, accounts[5].key),
                match SpaceMetadata::parse(accounts[1].data@) {
                    None => Err(Rejection::RecordUnreadable),
                    Some(space) => require(
                        space_record(base, Domain::SpaceMetadata, args).checks(
                            env.registry_program@,
                            space.bump,
                            accounts[1].key@,
                        ),
                        require(
                            custody(env, accounts[4], accounts[3].key, space.mint),
                            match space_record(base, Domain::RentAccount, args).discovers(
                                program_id@,
                                accounts[2].key@,
                            ) {
                                Err(e) => Err(e),
                                Ok(disambiguator) => match current_listing(
                                    accounts[2],
                                    disambiguator,
                                    space.mint,
                                ) {
                                    None => Err(Rejection::RecordUnreadable),
                                    Some(listing) => match terms_set(
                                        listing,
                                        accounts[3].key,
                                        args,
                                        now,
                                    ) {
                                        Err(e) => Err(e),
                                        Ok(next) => Ok(
                                            written(program_id, accounts, args, disambiguator, next),
                                        ),
                                    },
                                },
                            },
                        ),
                    ),
                },
            ),
        ),
    )
}

/// Listing and withdrawal leave a lease in progress as it is: the listing as
/// written names the same lessee and the same end of lease as the one found.
pub proof fn lemma_lease_survives(
    env: Environment,
    program_id: Key,
    accounts: Seq<AccountView>,
    args: SetRentArgs,
    now: u64,
)
    requires
        outcome_of(env, program_id, accounts, args, now) is Ok,
        accounts[2].data@.len() > 0,
    ensures
        ({
            let before = RentAccount::parse(accounts[2].data@).unwrap();
            let after = RentAccount::parse(
                crate::host::patched(
                    accounts[2].data@,
                    0,
                    outcome_of(env, program_id, accounts, args, now).unwrap().patches[0].2,
                ),
            );
            &&& after is Some
            &&& after.unwrap().lessee == before.lessee
            &&& after.unwrap().rent_end == before.rent_end
            &&& after.unwrap().mint == before.mint
            &&& !args.create ==> after.unwrap().price == 0 && after.unwrap().max_timestamp == 0
                && after.unwrap().lister == before.lister
            &&& args.create ==> after.unwrap().price == args.price && after.unwrap().lister
                == accounts[3].key
        }),
{
    let before = RentAccount::parse(accounts[2].data@).unwrap();
    let next = terms_set(before, accounts[3].key, args, now).unwrap();
    let data = accounts[2].data@;
    next.lemma_round_trip(data.subrange(137, data.len() as int));
    crate::host::lemma_patched_prefix(data, next.encoding());
}

/// Lists the space at the coordinates in `args` for rent on behalf of its
/// owner, or withdraws the listing. `now` is the host's clock, read once.
pub fn process(
    env: &Environment,
    program_id: &Key,
    accounts: &[AccountView],
    args: &SetRentArgs,
    now: u64,
) -> (r: Result<Outcome, Rejection>)
    ensures
        verdict(r) == outcome_of(*env, *program_id, accounts@, *args, now),
{
    assert_enough(accounts, ACCOUNTS)?;
    let base = &accounts[BASE];
    let space_metadata = &accounts[SPACE_METADATA];
    let rent_account = &accounts[RENT_ACCOUNT];
    let lessor = &accounts[LESSOR];

    assert_signed(lessor)?;
    assert_keys_equal(env.system_program, accounts[SYSTEM_PROGRAM].key)?;

    let space = match SpaceMetadata::decode(space_metadata.data.as_slice()) {
        Some(s) => s,
        None => return Err(Rejection::RecordUnreadable),
    };
    let coordinates = RecordKey::Coordinates(args.space_x, args.space_y);
    let space_locator = Locator { base: base.key, domain: Domain::SpaceMetadata, key: coordinates };
    space_locator.check(&env.registry_program, space.bump, &space_metadata.key)?;

    assert_custody(env, &accounts[LESSOR_HOLDING], &lessor.key, &space.mint)?;

    let rent_locator = Locator { base: base.key, domain: Domain::RentAccount, key: coordinates };
    let disambiguator = rent_locator.check_fresh(program_id, &rent_account.key)?;
    let create = rent_account.data.len() == 0;
    let listing = if create {
        let zero = Key::zero();
        proof {
            crate::wire::lemma_key_of_view(zero);
        }
        RentAccount {
            bump: disambiguator,
            mint: space.mint,
            price: 0,
            min_duration: 0,
            max_duration: 0,
            max_timestamp: 0,
            lister: zero,
            lessee: zero,
            rent_end: 0,
        }
    } else {
        match RentAccount::decode(rent_account.data.as_slice()) {
            Some(l) => l,
            None => return Err(Rejection::RecordUnreadable),
        }
    };
    let next = set_terms(&listing, &lessor.key, args, now)?;
    let mut outcome = Outcome::new();
    if create {
        outcome.effect(
            Effect::CreateRecord {
                payer: LESSOR,
                record: RENT_ACCOUNT,
                space: RENT_ACCOUNT_RESERVE as u64,
                owner: *program_id,
                signer: Some(Signer { locator: rent_locator, disambiguator }),
            },
        );
    }
    outcome.patch(RENT_ACCOUNT, 0, next.encode());
    proof {
        let expected = written(*program_id, accounts@, *args, disambiguator, next);
        assert(outcome@.effects =~= expected.effects);
        assert(outcome@.patches =~= expected.patches);
    }
    Ok(outcome)
}

} // verus!
