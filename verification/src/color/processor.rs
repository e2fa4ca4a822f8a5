//! The canvas operations, and their dispatch.

use crate::color::instruction::ChangeColorArgs;
use crate::color::instruction::ChangeColorBriefArgs;
use crate::color::instruction::ColorInstruction;
use crate::color::instruction::InitFrameArgs;
use crate::error::Rejection;
use crate::host::AccountView;
use crate::host::Environment;
use crate::host::Outcome;
use crate::host::OutcomeView;
use crate::host::verdict;
use crate::key::Key;
use vstd::slice::slice_subrange;
use vstd::prelude::*;

pub mod change_color;
pub mod init_frame;

verus! {

/// The entry point: decodes an instruction and carries out its operation.
pub struct Processor;

/// What the instruction in `instruction_data` leads to: the first byte selects
/// the operation, the rest must be exactly its arguments, and the operation
/// decides the rest.
pub open spec fn dispatched(
    env: Environment,
    program_id: Key,
    accounts: Seq<AccountView>,
    instruction_data: Seq<u8>,
) -> Result<OutcomeView, Rejection> {
    if instruction_data.len() == 0 {
        Err(Rejection::InvalidInstructionData)
    } else {
        let rest = instruction_data.subrange(1, instruction_data.len() as int);
        match ColorInstruction::of_tag(instruction_data[0]) {
            Err(e) => Err(e),
            Ok(ColorInstruction::InitFrame) => match InitFrameArgs::parse(rest) {
                None => Err(Rejection::ArgumentsUnreadable),
                Some(args) => init_frame::outcome_of(env, program_id, accounts, args),
            },
            Ok(ColorInstruction::ChangeColor) => match ChangeColorArgs::parse(rest) {
                None => Err(Rejection::ArgumentsUnreadable),
                Some(args) => change_color::outcome_of(env, program_id, accounts, args),
            },
            Ok(ColorInstruction::ChangeColorBrief) => match ChangeColorBriefArgs::parse(rest) {
                None => Err(Rejection::ArgumentsUnreadable),
                Some(args) => change_color::outcome_of(env, program_id, accounts, change_color::widened(args)),
            },
        }
    }
}

impl Processor {
    /// Decodes the instruction and carries out its operation on the records
    /// handed over.
    pub fn process(
        env: &Environment,
        program_id: &Key,
        accounts: &[AccountView],
        instruction_data: &[u8],
    ) -> (r: Result<Outcome, Rejection>)
        ensures
            verdict(r) == dispatched(*env, *program_id, accounts@, instruction_data@),
    {
        if instruction_data.len() == 0 {
            return Err(Rejection::InvalidInstructionData);
        }
        let rest = slice_subrange(instruction_data, 1, instruction_data.len());
        match ColorInstruction::unpack(&instruction_data[0])? {
            ColorInstruction::InitFrame => match InitFrameArgs::try_from_slice(rest) {
                None => Err(Rejection::ArgumentsUnreadable),
                Some(args) => init_frame::process(env, program_id, accounts, &args),
            },
            ColorInstruction::ChangeColor => match ChangeColorArgs::try_from_slice(rest) {
                None => Err(Rejection::ArgumentsUnreadable),
                Some(args) => change_color::process(env, program_id, accounts, &args),
            },
            ColorInstruction::ChangeColorBrief => match ChangeColorBriefArgs::try_from_slice(rest) {
                None => Err(Rejection::ArgumentsUnreadable),
                Some(args) => change_color::process_brief(env, program_id, accounts, &args),
            },
        }
    }
}

} // verus!
