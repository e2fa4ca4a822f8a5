//! The lease market's operations, and their dispatch.

use crate::error::Rejection;
use crate::host::AccountView;
use crate::host::Environment;
use crate::host::Outcome;
use crate::host::OutcomeView;
use crate::host::verdict;
use crate::key::Key;
use crate::rent::instruction::AcceptRentArgs;
use crate::rent::instruction::RentInstruction;
use crate::rent::instruction::SetRentArgs;
use vstd::slice::slice_subrange;
use vstd::prelude::*;

pub mod accept_rent;
pub mod set_rent;

verus! {

/// The entry point: decodes an instruction and carries out its operation.
pub struct Processor;

/// What the instruction in `instruction_data` leads to: the first byte selects
/// the operation, the rest must be exactly its arguments, and the operation
/// decides the rest.
pub open spec fn dispatched(
    env: Environment,
    program_id: Key,
    accounts: Seq<AccountView>,
    instruction_data: Seq<u8>,
    now: u64,
) -> Result<OutcomeView, Rejection> {
    if instruction_data.len() == 0 {
        Err(Rejection::InvalidInstructionData)
    } else {
        let rest = instruction_data.subrange(1, instruction_data.len() as int);
        match RentInstruction::of_tag(instruction_data[0]) {
            Err(e) => Err(e),
            Ok(RentInstruction::SetRent) => match SetRentArgs::parse(rest) {
                None => Err(Rejection::ArgumentsUnreadable),
                Some(args) => set_rent::outcome_of(env, program_id, accounts, args, now),
            },
            Ok(RentInstruction::AcceptRent) => match AcceptRentArgs::parse(rest) {
                None => Err(Rejection::ArgumentsUnreadable),
                Some(args) => accept_rent::outcome_of(env, program_id, accounts, args, now),
            },
        }
    }
}

impl Processor {
    /// Decodes the instruction and carries out its operation on the records
    /// handed over. `now` is the host's clock, read once.
    pub fn process(
        env: &Environment,
        program_id: &Key,
        accounts: &[AccountView],
        instruction_data: &[u8],
        now: u64,
    ) -> (r: Result<Outcome, Rejection>)
        ensures
            verdict(r) == dispatched(*env, *program_id, accounts@, instruction_data@, now),
    {
        if instruction_data.len() == 0 {
            return Err(Rejection::InvalidInstructionData);
        }
        let rest = slice_subrange(instruction_data, 1, instruction_data.len());
        match RentInstruction::unpack(&instruction_data[0])? {
            RentInstruction::SetRent => match SetRentArgs::try_from_slice(rest) {
                None => Err(Rejection::ArgumentsUnreadable),
                Some(args) => set_rent::process(env, program_id, accounts, &args, now),
            },
            RentInstruction::AcceptRent => match AcceptRentArgs::try_from_slice(rest) {
                None => Err(Rejection::ArgumentsUnreadable),
                Some(args) => accept_rent::process(env, program_id, accounts, &args, now),
            },
        }
    }
}

} // verus!
