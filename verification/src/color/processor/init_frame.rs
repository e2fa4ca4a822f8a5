//! Addition of a frame to a neighborhood: the next frame pointer is written,
//! the frame count grows by one, and the canvas block is cleared and stamped.

use crate::color::instruction::InitFrameArgs;
use crate::color::state::is_blank_block;
use crate::color::state::block_is_blank;
use crate::color::state::stamp_block;
use crate::color::state::stamped_block;
use crate::color::state::NeighborhoodFrameBase;
use crate::color::state::NeighborhoodFramePointer;
use crate::color::state::MAX_FRAMES;
use crate::color::state::NEIGHBORHOOD_FRAME_BASE_RESERVE;
use crate::color::state::NEIGHBORHOOD_FRAME_POINTER_RESERVE;
use crate::error::Rejection;
use crate::host::assert_enough;
use crate::host::assert_fresh;
use crate::host::assert_signed;
use crate::host::enough;
use crate::host::fresh;
use crate::host::require;
use crate::host::signed;
use crate::host::verdict;
use crate::host::AccountView;
use crate::host::Effect;
use crate::host::Environment;
use crate::host::Outcome;
use crate::host::OutcomeView;
use crate::key::Key;
use crate::locator::Domain;
use crate::locator::Locator;
use crate::locator::RecordKey;
use crate::locator::Signer;
use crate::space::state::NeighborhoodMetadata;
use crate::validation_utils::assert_keys_equal;
use crate::validation_utils::keys_equal;
use vstd::prelude::*;

verus! {

/// Position of each record in the list that the operation is handed.
pub const BASE: usize = 0;

pub const CANVAS_BLOCK: usize = 1;

pub const FRAME_BASE: usize = 2;

pub const FRAME_POINTER: usize = 3;

pub const NEIGHBORHOOD_METADATA: usize = 4;

pub const FEE_PAYER: usize = 5;

pub const SYSTEM_PROGRAM: usize = 6;

/// Number of records that the operation reads.
pub const ACCOUNTS: usize = 7;

/// The frame base after one more frame, or the rejection of a frame beyond
/// `MAX_FRAMES`.
pub open spec fn admitted(current: NeighborhoodFrameBase) -> Result<
    NeighborhoodFrameBase,
    Rejection,
> {
    if current.length >= MAX_FRAMES {
        Err(Rejection::InvalidInstructionData)
    } else {
        Ok(NeighborhoodFrameBase { bump: current.bump, length: (current.length + 1) as u64 })
    }
}

/// Admits one more frame to a neighborhood that has fewer than `MAX_FRAMES`.
/// The new frame's index is the count before the call.
pub fn admit_frame(current: &NeighborhoodFrameBase) -> (r: Result<NeighborhoodFrameBase, Rejection>)
    ensures
        r == admitted(*current),
{
    if current.length >= MAX_FRAMES {
        Err(Rejection::InvalidInstructionData)
    } else {
        Ok(NeighborhoodFrameBase { bump: current.bump, length: current.length + 1 })
    }
}

/// A neighborhood takes frames exactly until it holds `MAX_FRAMES`: every
/// admission raises the count by one and never beyond the limit, and a full
/// neighborhood admits none.
pub proof fn lemma_frame_capacity(current: NeighborhoodFrameBase)
    ensures
        current.length < MAX_FRAMES <==> admitted(current) is Ok,
        admitted(current) matches Ok(next) ==> next.length == current.length + 1 && next.length
            <= MAX_FRAMES && next.bump == current.bump,
        current.length == MAX_FRAMES ==> admitted(current) == Err::<
            NeighborhoodFrameBase,
            Rejection,
        >(Rejection::InvalidInstructionData),
{
}

/// The frame base as the operation finds it: the stored one, or, where the
/// record does not exist yet, an empty one with the discovered
/// disambiguation byte.
pub open spec fn current_frame_base(account: AccountView, disambiguator: u8) -> Option<
    NeighborhoodFrameBase,
> {
    if account.data@.len() == 0 {
        Some(NeighborhoodFrameBase { bump: disambiguator, length: 0 })
    } else {
        NeighborhoodFrameBase::parse(account.data@)
    }
}

/// The rejection of a canvas block that is too small or already stamped.
pub open spec fn blank(block: AccountView) -> Result<(), Rejection> {
    if block_is_blank(block.data@) {
        Ok(())
    } else {
        Err(Rejection::InvalidAccountData)
    }
}

/// The logical address of a record of the neighborhood at the coordinates in
/// `args`.
pub open spec fn neighborhood_record(base: Key, domain: Domain, args: InitFrameArgs) -> Locator {
    Locator {
        base,
        domain,
        key: RecordKey::Coordinates(args.neighborhood_x, args.neighborhood_y),
    }
}

/// The logical address of the pointer to frame `index` of the neighborhood at
/// the coordinates in `args`.
pub open spec fn frame_pointer_record(base: Key, args: InitFrameArgs, index: u64) -> Locator {
    Locator {
        base,
        domain: Domain::NeighborhoodFramePointer,
        key: RecordKey::Frame(args.neighborhood_x, args.neighborhood_y, index),
    }
}

/// The new frame as the host carries it out: the frame base is created where
/// it is missing; the frame pointer is created; the pointer is written to name
/// the canvas block; the frame base is written with the raised count; and the
/// canvas block is overwritten with a stamped, cleared block.
pub open spec fn new_frame(
    program_id: Key,
    accounts: Seq<AccountView>,
    args: InitFrameArgs,
    base_disambiguator: u8,
    pointer_disambiguator: u8,
    current: NeighborhoodFrameBase,
) -> OutcomeView {
    let base = accounts[0].key;
    let create_pointer = Effect::CreateRecord {
        payer: 5,
        record: 3,
        space: NEIGHBORHOOD_FRAME_POINTER_RESERVE as u64,
        owner: program_id,
        signer: Some(
            Signer {
                locator: frame_pointer_record(base, args, current.length),
                disambiguator: pointer_disambiguator,
            },
        ),
    };
    let create_base = Effect::CreateRecord {
        payer: 5,
        record: 2,
        space: NEIGHBORHOOD_FRAME_BASE_RESERVE as u64,
        owner: program_id,
        signer: Some(
            Signer {
                locator: neighborhood_record(base, Domain::NeighborhoodFrameBase, args),
                disambiguator: base_disambiguator,
            },
        ),
    };
    OutcomeView {
        effects: if accounts[2].data@.len() == 0 {
            seq![create_base, create_pointer]
        } else {
            seq![create_pointer]
        },
        patches: seq![
            (
                3,
                0,
                (NeighborhoodFramePointer {
                    bump: pointer_disambiguator,
                    framekey: accounts[1].key,
                }).encoding(),
            ),
            (2, 0, admitted(current).unwrap().encoding()),
            (
                1,
                0,
                stamped_block(accounts[1].data@.len(), args.neighborhood_x, args.neighborhood_y),
            ),
        ],
    }
}

/// The outcome of the operation: the first check that fails rejects it; where
/// none fails, the frame is added.
///
/// In order: the list holds every record; the fee payer authorized the call;
/// the system program is the deployment's; the frame base lies at its
/// discovered location; it decodes, where it exists; the neighborhood has
/// fewer than `MAX_FRAMES` frames; the frame pointer for the next index lies
/// at its discovered location and does not exist yet; the neighborhood's
/// metadata decodes and lies at its location under the registry's authority;
/// and the canvas block has room for cells and header and carries no stamp.
pub open spec fn outcome_of(
    env: Environment,
    program_id: Key,
    accounts: Seq<AccountView>,
    args: InitFrameArgs,
) -> Result<OutcomeView, Rejection> {
    let base = accounts[0].key;
    let frame_base = neighborhood_record(base, Domain::NeighborhoodFrameBase, args).discovers(
        program_id@,
        accounts[2].key@,
    );
    require(
        enough(accounts, 7),
        require(
            signed(accounts[5]),
            require(
                keys_equal(env.system_program, accounts[6].key),
                match frame_base {
                    Err(e) => Err(e),
                    Ok(base_disambiguator) => match current_frame_base(
                        accounts[2],
                        base_disambiguator,
                    ) {
                        None => Err(Rejection::RecordUnreadable),
                        Some(current) => match admitted(current) {
                            Err(e) => Err(e),
                            Ok(_) => match frame_pointer_record(
                                base,
                                args,
                                current.length,
                            ).discovers(program_id@, accounts[3].key@) {
                                Err(e) => Err(e),
                                Ok(pointer_disambiguator) => require(
                                    fresh(accounts[3]),
                                    match NeighborhoodMetadata::parse(accounts[4].data@) {
                                        None => Err(Rejection::RecordUnreadable),
                                        Some(metadata) => require(
                                            neighborhood_record(
                                                base,
                                                Domain::NeighborhoodMetadata,
                                                args,
                                            ).checks(
                                                env.registry_program@,
                                                metadata.bump,
                                                accounts[4].key@,
                                            ),
                                            require(
                                                blank(accounts[1]),
                                                Ok(
                                                    new_frame(
                                                        program_id,
                                                        accounts,
                                                        args,
                                                        base_disambiguator,
                                                        pointer_disambiguator,
                                                        current,
                                                    ),
                                                ),
                                            ),
                                        ),
                                    },
                                ),
                            },
                        },
                    },
                },
            ),
        ),
    )
}

/// A neighborhood that holds `MAX_FRAMES` frames takes no other: whatever the
/// other records and the arguments, the operation is rejected.
pub proof fn lemma_full_neighborhood_refuses(
    env: Environment,
    program_id: Key,
    accounts: Seq<AccountView>,
    args: InitFrameArgs,
)
    requires
        accounts[2].data@.len() > 0,
        NeighborhoodFrameBase::parse(accounts[2].data@) matches Some(frames) && frames.length
            >= MAX_FRAMES,
    ensures
        outcome_of(env, program_id, accounts, args) is Err,
{
}

/// Every frame added raises the stored count by one and is written at the
/// index that the count named before.
pub proof fn lemma_frame_appended(
    env: Environment,
    program_id: Key,
    accounts: Seq<AccountView>,
    args: InitFrameArgs,
)
    requires
        outcome_of(env, program_id, accounts, args) is Ok,
        accounts[2].data@.len() > 0,
    ensures
        ({
            let before = NeighborhoodFrameBase::parse(accounts[2].data@).unwrap();
            let patches = outcome_of(env, program_id, accounts, args).unwrap().patches;
            &&& before.length < MAX_FRAMES
            &&& patches.len() == 3
            &&& patches[1] == (
                2usize,
                0usize,
                (NeighborhoodFrameBase {
                    bump: before.bump,
                    length: (before.length + 1) as u64,
                }).encoding(),
            )
            &&& frame_pointer_record(accounts[0].key, args, before.length).discovers(
                program_id@,
                accounts[3].key@,
            ) is Ok
        }),
{
}

/// Adds a frame to a neighborhood, with the canvas block that the caller
/// supplies.
pub fn process(
    env: &Environment,
    program_id: &Key,
    accounts: &[AccountView],
    args: &InitFrameArgs,
) -> (r: Result<Outcome, Rejection>)
    ensures
        verdict(r) == outcome_of(*env, *program_id, accounts@, *args),
{
    assert_enough(accounts, ACCOUNTS)?;
    let base = &accounts[BASE];
    let color_frame_cluster = &accounts[CANVAS_BLOCK];
    let neighborhood_frame_base = &accounts[FRAME_BASE];
    let neighborhood_frame_pointer = &accounts[FRAME_POINTER];
    let neighborhood_metadata = &accounts[NEIGHBORHOOD_METADATA];

    assert_signed(&accounts[FEE_PAYER])?;
    assert_keys_equal(env.system_program, accounts[SYSTEM_PROGRAM].key)?;

    let coordinates = RecordKey::Coordinates(args.neighborhood_x, args.neighborhood_y);
    let base_locator = Locator {
        base: base.key,
        domain: Domain::NeighborhoodFrameBase,
        key: coordinates,
    };
    let base_disambiguator = base_locator.check_fresh(program_id, &neighborhood_frame_base.key)?;
    let create_base = neighborhood_frame_base.data.len() == 0;
    let current = if create_base {
        NeighborhoodFrameBase { bump: base_disambiguator, length: 0 }
    } else {
        match NeighborhoodFrameBase::decode(neighborhood_frame_base.data.as_slice()) {
            Some(b) => b,
            None => return Err(Rejection::RecordUnreadable),
        }
    };
    let next = admit_frame(&current)?;

    let pointer_locator = Locator {
        base: base.key,
        domain: Domain::NeighborhoodFramePointer,
        key: RecordKey::Frame(args.neighborhood_x, args.neighborhood_y, current.length),
    };
    let pointer_disambiguator = pointer_locator.check_fresh(
        program_id,
        &neighborhood_frame_pointer.key,
    )?;
    assert_fresh(neighborhood_frame_pointer)?;

    let metadata = match NeighborhoodMetadata::decode(neighborhood_metadata.data.as_slice()) {
        Some(m) => m,
        None => return Err(Rejection::RecordUnreadable),
    };
    let metadata_locator = Locator {
        base: base.key,
        domain: Domain::NeighborhoodMetadata,
        key: coordinates,
    };
    metadata_locator.check(&env.registry_program, metadata.bump, &neighborhood_metadata.key)?;

    if !is_blank_block(color_frame_cluster.data.as_slice()) {
        return Err(Rejection::InvalidAccountData);
    }
    let mut outcome = Outcome::new();
    if create_base {
        outcome.effect(
            Effect::CreateRecord {
                payer: FEE_PAYER,
                record: FRAME_BASE,
                space: NEIGHBORHOOD_FRAME_BASE_RESERVE as u64,
                owner: *program_id,
                signer: Some(Signer { locator: base_locator, disambiguator: base_disambiguator }),
            },
        );
    }
    outcome.effect(
        Effect::CreateRecord {
            payer: FEE_PAYER,
            record: FRAME_POINTER,
            space: NEIGHBORHOOD_FRAME_POINTER_RESERVE as u64,
            owner: *program_id,
            signer: Some(
                Signer { locator: pointer_locator, disambiguator: pointer_disambiguator },
            ),
        },
    );
    let pointer = NeighborhoodFramePointer {
        bump: pointer_disambiguator,
        framekey: color_frame_cluster.key,
    };
    outcome.patch(FRAME_POINTER, 0, pointer.encode());
    outcome.patch(FRAME_BASE, 0, next.encode());
    outcome.patch(
        CANVAS_BLOCK,
        0,
        stamp_block(color_frame_cluster.data.len(), args.neighborhood_x, args.neighborhood_y),
    );
    proof {
        let expected = new_frame(
            *program_id,
            accounts@,
            *args,
            base_disambiguator,
            pointer_disambiguator,
            current,
        );
        assert(outcome@.effects =~= expected.effects);
        assert(outcome@.patches =~= expected.patches);
    }
    Ok(outcome)
}

} // verus!
