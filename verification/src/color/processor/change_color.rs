//! Coloring of a space in one frame of its neighborhood's canvas.

use crate::color::instruction::ChangeColorArgs;
use crate::color::instruction::ChangeColorBriefArgs;
use crate::color::state::NeighborhoodFrameBase;
use crate::color::state::NeighborhoodFramePointer;
use crate::error::Rejection;
use crate::grid::cell_offset;
use crate::grid::cell_offset_of;
use crate::grid::get_neighborhood_xy;
use crate::grid::neighborhood_of;
use crate::host::assert_enough;
use crate::host::assert_signed;
use crate::host::enough;
use crate::host::require;
use crate::host::signed;
use crate::host::verdict;
use crate::host::AccountView;
use crate::host::Environment;
use crate::host::Outcome;
use crate::host::OutcomeView;
use crate::key::Key;
use crate::locator::Domain;
use crate::locator::Locator;
use crate::locator::RecordKey;
use crate::space::state::NeighborhoodMetadata;
use crate::space::state::SpaceMetadata;
use crate::validation_utils::assert_custody;
use crate::validation_utils::assert_keys_equal;
use crate::validation_utils::custody;
use crate::validation_utils::keys_equal;
use vstd::prelude::*;

verus! {

/// Position of each record in the list that the operation is handed.
pub const BASE: usize = 0;

pub const CANVAS_BLOCK: usize = 1;

pub const FRAME_BASE: usize = 2;

pub const FRAME_POINTER: usize = 3;

pub const NEIGHBORHOOD_METADATA: usize = 4;

pub const SPACE_METADATA: usize = 5;

pub const OWNER: usize = 6;

pub const OWNER_HOLDING: usize = 7;

/// Number of records that the operation reads.
pub const ACCOUNTS: usize = 8;

/// The four records that the operation decodes.
#[derive(Clone, Copy, Debug, PartialEq, Eq)]
pub struct Records {
    pub frame_base: NeighborhoodFrameBase,
    pub frame_pointer: NeighborhoodFramePointer,
    pub neighborhood: NeighborhoodMetadata,
    pub space: SpaceMetadata,
}

/// The records of the operation, where all four decode.
pub open spec fn records_of(accounts: Seq<AccountView>) -> Option<Records> {
    match (
        NeighborhoodFrameBase::parse(accounts[2].data@),
        NeighborhoodFramePointer::parse(accounts[3].data@),
        NeighborhoodMetadata::parse(accounts[4].data@),
        SpaceMetadata::parse(accounts[5].data@),
    ) {
        (Some(frame_base), Some(frame_pointer), Some(neighborhood), Some(space)) => Some(
            Records { frame_base, frame_pointer, neighborhood, space },
        ),
        _ => None,
    }
}

/// The logical key of the neighborhood that holds the space in `args`.
pub open spec fn neighborhood_key(args: ChangeColorArgs) -> RecordKey {
    RecordKey::Coordinates(
        neighborhood_of(args.space_x as int) as i64,
        neighborhood_of(args.space_y as int) as i64,
    )
}

/// The logical key of frame `args.frame` of that neighborhood.
pub open spec fn frame_key(args: ChangeColorArgs) -> RecordKey {
    RecordKey::Frame(
        neighborhood_of(args.space_x as int) as i64,
        neighborhood_of(args.space_y as int) as i64,
        args.frame,
    )
}

/// The rejection of a record that does not lie where its stored
/// disambiguation byte places it: the two canvas records under this program's
/// authority, the two registry records under the registry's.
pub open spec fn records_located(
    env: Environment,
    program_id: Key,
    accounts: Seq<AccountView>,
    args: ChangeColorArgs,
    records: Records,
) -> Result<(), Rejection> {
    let base = accounts[0].key;
    require(
        (Locator { base, domain: Domain::NeighborhoodFrameBase, key: neighborhood_key(args) }).checks(
            program_id@,
            records.frame_base.bump,
            accounts[2].key@,
        ),
        require(
            (Locator { base, domain: Domain::NeighborhoodFramePointer, key: frame_key(args) }).checks(
                program_id@,
                records.frame_pointer.bump,
                accounts[3].key@,
            ),
            require(
                (Locator {
                    base,
                    domain: Domain::NeighborhoodMetadata,
                    key: neighborhood_key(args),
                }).checks(env.registry_program@, records.neighborhood.bump, accounts[4].key@),
                (Locator {
                    base,
                    domain: Domain::SpaceMetadata,
                    key: RecordKey::Coordinates(args.space_x, args.space_y),
                }).checks(env.registry_program@, records.space.bump, accounts[5].key@),
            ),
        ),
    )
}

/// The rejection of a frame index that the neighborhood does not have.
pub open spec fn frame_exists(frame_base: NeighborhoodFrameBase, frame: u64) -> Result<
    (),
    Rejection,
> {
    if frame < frame_base.length {
        Ok(())
    } else {
        Err(Rejection::InvalidAccountData)
    }
}

/// The rejection of a canvas block that ends before the space's cell.
pub open spec fn holds_cell(block: AccountView, args: ChangeColorArgs) -> Result<(), Rejection> {
    if cell_offset_of(args.space_x as int, args.space_y as int) + 3 <= block.data@.len() {
        Ok(())
    } else {
        Err(Rejection::InvalidAccountData)
    }
}

/// The write of the three color bytes into the space's cell of the block.
pub open spec fn recolor(args: ChangeColorArgs) -> OutcomeView {
    OutcomeView {
        effects: seq![],
        patches: seq![
            (
                1,
                cell_offset_of(args.space_x as int, args.space_y as int) as usize,
                seq![args.r, args.g, args.b],
            ),
        ],
    }
}

/// The outcome of the operation: the first check that fails rejects it; where
/// none fails, the cell is overwritten.
///
/// In order: the list holds every record; the owner authorized the call; the
/// frame base, the frame pointer, the neighborhood's metadata and the space's
/// metadata decode; each lies at its reconstructed location; the owner has
/// exclusive custody of the space's asset; the frame index is below the
/// neighborhood's frame count; the canvas block is the one that the frame
/// pointer names; and the block reaches to the end of the cell.
pub open spec fn outcome_of(
    env: Environment,
    program_id: Key,
    accounts: Seq<AccountView>,
    args: ChangeColorArgs,
) -> Result<OutcomeView, Rejection> {
    require(
        enough(accounts, 8),
        require(
            signed(accounts[6]),
            match records_of(accounts) {
                None => Err(Rejection::RecordUnreadable),
                Some(records) => require(
                    records_located(env, program_id, accounts, args, records),
                    require(
                        custody(env, accounts[7], accounts[6].key, records.space.mint),
                        require(
                            frame_exists(records.frame_base, args.frame),
                            require(
                                keys_equal(records.frame_pointer.framekey, accounts[1].key),
                                require(holds_cell(accounts[1], args), Ok(recolor(args))),
                            ),
                        ),
                    ),
                ),
            },
        ),
    )
}

/// Decodes the four records.
fn read_records(accounts: &[AccountView]) -> (r: Option<Records>)
    requires
        accounts@.len() >= 8,
    ensures
        r == records_of(accounts@),
{
    let frame_base = NeighborhoodFrameBase::decode(accounts[FRAME_BASE].data.as_slice());
    let frame_pointer = NeighborhoodFramePointer::decode(accounts[FRAME_POINTER].data.as_slice());
    let neighborhood = NeighborhoodMetadata::decode(
        accounts[NEIGHBORHOOD_METADATA].data.as_slice(),
    );
    let space = SpaceMetadata::decode(accounts[SPACE_METADATA].data.as_slice());
    match (frame_base, frame_pointer, neighborhood, space) {
        (Some(frame_base), Some(frame_pointer), Some(neighborhood), Some(space)) => Some(
            Records { frame_base, frame_pointer, neighborhood, space },
        ),
        _ => None,
    }
}

/// Checks the locations of the four records.
fn check_records(
    env: &Environment,
    program_id: &Key,
    accounts: &[AccountView],
    args: &ChangeColorArgs,
    records: &Records,
) -> (r: Result<(), Rejection>)
    requires
        accounts@.len() >= 8,
    ensures
        r == records_located(*env, *program_id, accounts@, *args, *records),
{
    let base = accounts[BASE].key;
    let (neighborhood_x, neighborhood_y) = get_neighborhood_xy(args.space_x, args.space_y);
    let neighborhood = RecordKey::Coordinates(neighborhood_x, neighborhood_y);
    (Locator { base, domain: Domain::NeighborhoodFrameBase, key: neighborhood }).check(
        program_id,
        records.frame_base.bump,
        &accounts[FRAME_BASE].key,
    )?;
    (Locator {
        base,
        domain: Domain::NeighborhoodFramePointer,
        key: RecordKey::Frame(neighborhood_x, neighborhood_y, args.frame),
    }).check(program_id, records.frame_pointer.bump, &accounts[FRAME_POINTER].key)?;
    (Locator { base, domain: Domain::NeighborhoodMetadata, key: neighborhood }).check(
        &env.registry_program,
        records.neighborhood.bump,
        &accounts[NEIGHBORHOOD_METADATA].key,
    )?;
    (Locator {
        base,
        domain: Domain::SpaceMetadata,
        key: RecordKey::Coordinates(args.space_x, args.space_y),
    }).check(&env.registry_program, records.space.bump, &accounts[SPACE_METADATA].key)
}

/// Colors the space at the coordinates in `args` in one frame, on behalf of
/// its owner.
pub fn process(
    env: &Environment,
    program_id: &Key,
    accounts: &[AccountView],
    args: &ChangeColorArgs,
) -> (r: Result<Outcome, Rejection>)
    ensures
        verdict(r) == outcome_of(*env, *program_id, accounts@, *args),
        r matches Ok(o) ==> o@.patches[0].1 + 3 <= crate::grid::CANVAS_CELL_BYTES,
{
    assert_enough(accounts, ACCOUNTS)?;
    let frame = &accounts[CANVAS_BLOCK];
    let owner = &accounts[OWNER];
    assert_signed(owner)?;
    let records = match read_records(accounts) {
        Some(r) => r,
        None => return Err(Rejection::RecordUnreadable),
    };
    check_records(env, program_id, accounts, args, &records)?;
    assert_custody(env, &accounts[OWNER_HOLDING], &owner.key, &records.space.mint)?;
    if records.frame_base.length <= args.frame {
        return Err(Rejection::InvalidAccountData);
    }
    assert_keys_equal(records.frame_pointer.framekey, frame.key)?;
    let offset = cell_offset(args.space_x, args.space_y);
    if frame.data.len() < 3 || offset > frame.data.len() - 3 {
        return Err(Rejection::InvalidAccountData);
    }
    let mut color: Vec<u8> = Vec::new();
    color.push(args.r);
    color.push(args.g);
    color.push(args.b);
    assert(color@ =~= seq![args.r, args.g, args.b]);
    let mut outcome = Outcome::new();
    outcome.patch(CANVAS_BLOCK, offset, color);
    proof {
        assert(outcome@.patches =~= recolor(*args).patches);
    }
    Ok(outcome)
}

/// The arguments in narrow integers, widened.
pub open spec fn widened(args: ChangeColorBriefArgs) -> ChangeColorArgs {
    ChangeColorArgs {
        space_x: args.space_x as i64,
        space_y: args.space_y as i64,
        frame: args.frame as u64,
        r: args.r,
        g: args.g,
        b: args.b,
    }
}

/// Colors a space as `process` does, from arguments in narrow integers.
pub fn process_brief(
    env: &Environment,
    program_id: &Key,
    accounts: &[AccountView],
    args_brief: &ChangeColorBriefArgs,
) -> (r: Result<Outcome, Rejection>)
    ensures
        verdict(r) == outcome_of(*env, *program_id, accounts@, widened(*args_brief)),
{
    let args = ChangeColorArgs {
        space_x: args_brief.space_x as i64,
        space_y: args_brief.space_y as i64,
        frame: args_brief.frame as u64,
        r: args_brief.r,
        g: args_brief.g,
        b: args_brief.b,
    };
    process(env, program_id, accounts, &args)
}

} // verus!
