//! Acceptance of a rent listing: the lessee pays the whole lease up front and
//! holds the space until the lease ends.

use crate::error::CustomError;
use crate::error::Rejection;
use crate::host::assert_enough;
use crate::host::assert_signed;
use crate::host::enough;
use crate::host::lemma_patched_prefix;
use crate::host::patched;
use crate::host::require;
use crate::host::signed;
use crate::host::verdict;
use crate::host::AccountView;
use crate::host::Effect;
use crate::host::Environment;
use crate::host::Outcome;
use crate::host::OutcomeView;
use crate::key::Key;
use crate::locator::Domain;
use crate::locator::Locator;
use crate::locator::RecordKey;
use crate::rent::instruction::AcceptRentArgs;
use crate::rent::state::RentAccount;
use crate::space::state::SpaceMetadata;
use crate::validation_utils::assert_custody;
use crate::validation_utils::assert_keys_equal;
use crate::validation_utils::custody;
use crate::validation_utils::keys_equal;
use vstd::prelude::*;

verus! {

/// Position of each record in the list that the operation is handed.
pub const BASE: usize = 0;

pub const SPACE_METADATA: usize = 1;

pub const RENT_ACCOUNT: usize = 2;

pub const LESSEE: usize = 3;

pub const LESSOR: usize = 4;

pub const LESSOR_HOLDING: usize = 5;

pub const SYSTEM_PROGRAM: usize = 6;

/// Number of records that the operation reads.
pub const ACCOUNTS: usize = 7;

/// A lease that was granted: the listing with the lessee and the end of the
/// lease recorded, and what the lessee pays up front.
#[derive(Clone, Copy, Debug, PartialEq, Eq)]
pub struct Lease {
    pub listing: RentAccount,
    pub payment: u64,
}

/// Whether a lease of the requested duration that starts now would end after
/// the listing's latest end.
pub open spec fn exceeds_latest_end(listing: RentAccount, requested: u64, now: u64) -> bool {
    listing.max_timestamp < now + requested
}

/// How long a granted lease runs: as long as requested, but not beyond the
/// listing's latest end.
pub open spec fn effective_duration(listing: RentAccount, requested: u64, now: u64) -> int {
    if requested <= listing.max_timestamp - now {
        requested as int
    } else {
        listing.max_timestamp - now
    }
}

/// The lease that a request is granted, or why it is refused.
///
/// Refused, in this order: a listing whose lease is still running; a lessor
/// who is not the lister; a duration below the minimum, unless the lease
/// would run past the latest end; a duration above the maximum; a price that
/// is not the listed one; a latest end that has passed; and a payment beyond
/// 64 bits. Otherwise the lease runs for the effective duration, is paid for
/// at the listed price per unit of time, and ends that long from now.
pub open spec fn lease_of(
    listing: RentAccount,
    lessee: Key,
    lessor: Key,
    price: u64,
    requested: u64,
    now: u64,
) -> Result<Lease, Rejection> {
    let duration = effective_duration(listing, requested, now);
    if listing.rent_end > now {
        Err(Rejection::InvalidInstructionData)
    } else if listing.lister@ != lessor@ {
        Err(Rejection::Custom(CustomError::PublicKeyMismatch))
    } else if !exceeds_latest_end(listing, requested, now) && listing.min_duration > requested {
        Err(Rejection::InvalidInstructionData)
    } else if listing.max_duration < requested {
        Err(Rejection::InvalidInstructionData)
    } else if listing.price != price {
        Err(Rejection::InvalidInstructionData)
    } else if listing.max_timestamp < now {
        Err(Rejection::InvalidInstructionData)
    } else if price * duration > u64::MAX {
        Err(Rejection::InvalidInstructionData)
    } else {
        Ok(
            Lease {
                listing: RentAccount { rent_end: (now + duration) as u64, lessee, ..listing },
                payment: (price * duration) as u64,
            },
        )
    }
}

/// Decides a request to rent a listed space for `requested` units of time
/// from `now` on at `price` per unit.
pub fn grant_lease(
    listing: &RentAccount,
    lessee: &Key,
    lessor: &Key,
    price: u64,
    requested: u64,
    now: u64,
) -> (r: Result<Lease, Rejection>)
    ensures
        r == lease_of(*listing, *lessee, *lessor, price, requested, now),
{
    if listing.rent_end > now {
        return Err(Rejection::InvalidInstructionData);
    }
    assert_keys_equal(listing.lister, *lessor)?;
    let exceeds = match now.checked_add(requested) {
        Some(end) => listing.max_timestamp < end,
        None => true,
    };
    if !exceeds && listing.min_duration > requested {
        return Err(Rejection::InvalidInstructionData);
    }
    if listing.max_duration < requested {
        return Err(Rejection::InvalidInstructionData);
    }
    if listing.price != price {
        return Err(Rejection::InvalidInstructionData);
    }
    if listing.max_timestamp < now {
        return Err(Rejection::InvalidInstructionData);
    }
    let left: u64 = listing.max_timestamp - now;
    let duration: u64 = if requested <= left {
        requested
    } else {
        left
    };
    match price.checked_mul(duration) {
        None => Err(Rejection::InvalidInstructionData),
        Some(payment) => Ok(
            Lease {
                listing: RentAccount { rent_end: now + duration, lessee: *lessee, ..*listing },
                payment,
            },
        ),
    }
}

/// A granted lease runs for the requested time cut off at the latest end: it
/// never ends after it, is paid for in full at the listed price, names the
/// lessee, and leaves the terms as they were.
pub proof fn lemma_lease_truncated(
    listing: RentAccount,
    lessee: Key,
    lessor: Key,
    price: u64,
    requested: u64,
    now: u64,
)
    requires
        lease_of(listing, lessee, lessor, price, requested, now) is Ok,
    ensures
        ({
            let lease = lease_of(listing, lessee, lessor, price, requested, now).unwrap();
            let duration = effective_duration(listing, requested, now);
            &&& 0 <= duration <= requested
            &&& duration == requested || duration == listing.max_timestamp - now
            &&& lease.listing.rent_end == now + duration
            &&& lease.listing.rent_end <= listing.max_timestamp
            &&& lease.payment == price * duration
            &&& lease.listing.lessee == lessee
            &&& lease.listing.price == listing.price
            &&& lease.listing.min_duration == listing.min_duration
            &&& lease.listing.max_duration == listing.max_duration
            &&& lease.listing.max_timestamp == listing.max_timestamp
            &&& lease.listing.lister == listing.lister
        }),
{
}

/// On a free listing at 10 per unit of time, for 100 to 1000 units and
/// ending 500 from now at the latest: a request for 800 units is granted 500,
/// costs 5000 and ends 500 from now; a request for 50 units is refused.
pub proof fn lemma_lease_clamped_and_refused(listing: RentAccount, lessee: Key, now: u64)
    requires
        now + 500 <= u64::MAX,
        listing.price == 10,
        listing.min_duration == 100,
        listing.max_duration == 1000,
        listing.max_timestamp == now + 500,
        listing.rent_end <= now,
    ensures
        lease_of(listing, lessee, listing.lister, 10, 800, now) matches Ok(lease) && lease.payment
            == 5000 && lease.listing.rent_end == now + 500 && effective_duration(listing, 800, now)
            == 500,
        lease_of(listing, lessee, listing.lister, 10, 50, now) == Err::<Lease, Rejection>(
            Rejection::InvalidInstructionData,
        ),
{
}

/// While a lease runs, the listing grants no other.
pub proof fn lemma_leased_is_taken(
    listing: RentAccount,
    lessee: Key,
    lessor: Key,
    price: u64,
    requested: u64,
    now: u64,
)
    requires
        listing.rent_end > now,
    ensures
        lease_of(listing, lessee, lessor, price, requested, now) is Err,
{
}

/// The rejection of a lessee who is the lessor.
pub open spec fn distinct_parties(lessee: Key, lessor: Key) -> Result<(), Rejection> {
    if lessee@ == lessor@ {
        Err(Rejection::InvalidAccountData)
    } else {
        Ok(())
    }
}

/// The logical address of a record of the space at the coordinates in `args`.
pub open spec fn space_record(base: Key, domain: Domain, args: AcceptRentArgs) -> Locator {
    Locator { base, domain, key: RecordKey::Coordinates(args.space_x, args.space_y) }
}

/// What the host is asked to do: move the payment from lessee to lessor, and
/// write the listing with the lease recorded.
pub open spec fn settled(lease: Lease) -> OutcomeView {
    OutcomeView {
        effects: seq![Effect::TransferFunds { from: 3, to: 4, amount: lease.payment }],
        patches: seq![(2, 0, lease.listing.encoding())],
    }
}

/// The outcome of the operation: the first check that fails rejects it; where
/// none fails, the lease is granted.
///
/// In order: the list holds every record; the lessee authorized the call;
/// lessee and lessor are two identities; the system program is the
/// deployment's; the space's metadata decodes and lies at its location under
/// the registry's authority; the lessor has exclusive custody of the space's
/// asset; the rent listing decodes and lies at its reconstructed location;
/// and the listing grants the lease.
pub open spec fn outcome_of(
    env: Environment,
    program_id: Key,
    accounts: Seq<AccountView>,
    args: AcceptRentArgs,
    now: u64,
) -> Result<OutcomeView, Rejection> {
    let base = accounts[0].key;
    require(
        enough(accounts, 7),
        require(
            signed(accounts[3]),
            require(
                distinct_parties(accounts[3].key, accounts[4].key),
                require(
                    keys_equal(env.system_program, accounts[6].key),
                    match SpaceMetadata::parse(accounts[1].data@) {
                        None => Err(Rejection::RecordUnreadable),
                        Some(space) => require(
                            space_record(base, Domain::SpaceMetadata, args).checks(
                                env.registry_program@,
                                space.bump,
                                accounts[1].key@,
                            ),
                            require(
                                custody(env, accounts[5], accounts[4].key, space.mint),
                                match RentAccount::parse(accounts[2].data@) {
                                    None => Err(Rejection::RecordUnreadable),
                                    Some(listing) => require(
                                        space_record(base, Domain::RentAccount, args).checks(
                                            program_id@,
                                            listing.bump,
                                            accounts[2].key@,
                                        ),
                                        match lease_of(
                                            listing,
                                            accounts[3].key,
                                            accounts[4].key,
                                            args.price,
                                            args.rent_time,
                                            now,
                                        ) {
                                            Err(e) => Err(e),
                                            Ok(lease) => Ok(settled(lease)),
                                        },
                                    ),
                                },
                            ),
                        ),
                    },
                ),
            ),
        ),
    )
}

/// A granted lease holds until it ends. The listing as the lease writes it
/// names the lessee and the end of the lease and keeps the terms; and whatever
/// else has become of the records since, no request is granted on it before
/// that end.
pub proof fn lemma_lease_holds(
    env: Environment,
    program_id: Key,
    accounts: Seq<AccountView>,
    args: AcceptRentArgs,
    now: u64,
    later: Seq<AccountView>,
    later_args: AcceptRentArgs,
    then: u64,
)
    requires
        outcome_of(env, program_id, accounts, args, now) is Ok,
        later[2].data@ == patched(
            accounts[2].data@,
            0,
            outcome_of(env, program_id, accounts, args, now).unwrap().patches[0].2,
        ),
    ensures
        ({
            let before = RentAccount::parse(accounts[2].data@).unwrap();
            let lease = lease_of(
                before,
                accounts[3].key,
                accounts[4].key,
                args.price,
                args.rent_time,
                now,
            ).unwrap();
            &&& RentAccount::parse(later[2].data@) == Some(lease.listing)
            &&& lease.listing.rent_end == now + effective_duration(before, args.rent_time, now)
            &&& lease.listing.rent_end <= before.max_timestamp
            &&& then < lease.listing.rent_end ==> outcome_of(
                env,
                program_id,
                later,
                later_args,
                then,
            ) is Err
        }),
{
    let before = RentAccount::parse(accounts[2].data@).unwrap();
    let lease = lease_of(
        before,
        accounts[3].key,
        accounts[4].key,
        args.price,
        args.rent_time,
        now,
    ).unwrap();
    let data = accounts[2].data@;
    lease.listing.lemma_round_trip(data.subrange(137, data.len() as int));
    lemma_patched_prefix(data, lease.listing.encoding());
}

/// Rents the space at the coordinates in `args` to the lessee. `now` is the
/// host's clock, read once.
pub fn process(
    env: &Environment,
    program_id: &Key,
    accounts: &[AccountView],
    args: &AcceptRentArgs,
    now: u64,
) -> (r: Result<Outcome, Rejection>)
    ensures
        verdict(r) == outcome_of(*env, *program_id, accounts@, *args, now),
{
    assert_enough(accounts, ACCOUNTS)?;
    let base = &accounts[BASE];
    let space_metadata = &accounts[SPACE_METADATA];
    let rent_account = &accounts[RENT_ACCOUNT];
    let lessee = &accounts[LESSEE];
    let lessor = &accounts[LESSOR];

    assert_signed(lessee)?;
    if lessee.key.same(&lessor.key) {
        return Err(Rejection::InvalidAccountData);
    }
    assert_keys_equal(env.system_program, accounts[SYSTEM_PROGRAM].key)?;

    let space = match SpaceMetadata::decode(space_metadata.data.as_slice()) {
        Some(s) => s,
        None => return Err(Rejection::RecordUnreadable),
    };
    let coordinates = RecordKey::Coordinates(args.space_x, args.space_y);
    let space_locator = Locator { base: base.key, domain: Domain::SpaceMetadata, key: coordinates };
    space_locator.check(&env.registry_program, space.bump, &space_metadata.key)?;

    assert_custody(env, &accounts[LESSOR_HOLDING], &lessor.key, &space.mint)?;

    let listing = match RentAccount::decode(rent_account.data.as_slice()) {
        Some(l) => l,
        None => return Err(Rejection::RecordUnreadable),
    };
    let rent_locator = Locator { base: base.key, domain: Domain::RentAccount, key: coordinates };
    rent_locator.check(program_id, listing.bump, &rent_account.key)?;

    let lease = grant_lease(&listing, &lessee.key, &lessor.key, args.price, args.rent_time, now)?;
    let mut outcome = Outcome::new();
    outcome.effect(Effect::TransferFunds { from: LESSEE, to: LESSOR, amount: lease.payment });
    outcome.patch(RENT_ACCOUNT, 0, lease.listing.encode());
    proof {
        assert(outcome@.effects =~= settled(lease).effects);
        assert(outcome@.patches =~= settled(lease).patches);
    }
    Ok(outcome)
}

} // verus!
