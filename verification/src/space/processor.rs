//! The registry's operations, and their dispatch.

use crate::error::Rejection;
use crate::host::AccountView;
use crate::host::Environment;
use crate::host::Outcome;
use crate::host::OutcomeView;
use crate::host::verdict;
use crate::key::Key;
use crate::space::instruction::AcceptOfferArgs;
use crate::space::instruction::ChangeNeighborhoodNameArgs;
use crate::space::instruction::ChangeOfferArgs;
use crate::space::instruction::InitBaseArgs;
use crate::space::instruction::InitNeighborhoodMetadataArgs;
use crate::space::instruction::InitSpaceMetadataArgs;
use crate::space::instruction::InitVoucherSystemArgs;
use crate::space::instruction::RevokeAuthorityPrivilegesArgs;
use crate::space::instruction::SpaceInstruction;
use crate::space::instruction::TempAddxyArgs;
use crate::space::instruction::UpdateAuthorityArgs;
use vstd::slice::slice_subrange;
use vstd::prelude::*;

pub mod accept_offer;
pub mod change_nbdhoodname;
pub mod change_offer;
pub mod init_base;
pub mod init_neighborhood_metadata;
pub mod init_space_metadata;
pub mod init_voucher_system;
pub mod revoke_authority_privileges;
pub mod temp_add_xy;
pub mod update_authority;

verus! {

/// The entry point: decodes an instruction and carries out its operation.
pub struct Processor;

/// What the instruction in `instruction_data` leads to: the first byte selects
/// the operation, the rest must be exactly its arguments, and the operation
/// decides the rest.
pub open spec fn dispatched(
    env: Environment,
    program_id: Key,
    accounts: Seq<AccountView>,
    instruction_data: Seq<u8>,
) -> Result<OutcomeView, Rejection> {
    if instruction_data.len() == 0 {
        Err(Rejection::InvalidInstructionData)
    } else {
        let rest = instruction_data.subrange(1, instruction_data.len() as int);
        match SpaceInstruction::of_tag(instruction_data[0]) {
            Err(e) => Err(e),
            Ok(SpaceInstruction::InitBase) => match InitBaseArgs::parse(rest) {
                None => Err(Rejection::ArgumentsUnreadable),
                Some(args) => init_base::outcome_of(env, program_id, accounts, args),
            },
            Ok(SpaceInstruction::InitNeighborhoodMetadata) => match InitNeighborhoodMetadataArgs::parse(rest) {
                None => Err(Rejection::ArgumentsUnreadable),
                Some(args) => init_neighborhood_metadata::outcome_of(env, program_id, accounts, args),
            },
            Ok(SpaceInstruction::InitSpaceMetadata) => match InitSpaceMetadataArgs::parse(rest) {
                None => Err(Rejection::ArgumentsUnreadable),
                Some(args) => init_space_metadata::outcome_of(env, program_id, accounts, args),
            },
            Ok(SpaceInstruction::ChangeOffer) => match ChangeOfferArgs::parse(rest) {
                None => Err(Rejection::ArgumentsUnreadable),
                Some(args) => change_offer::outcome_of(env, program_id, accounts, args),
            },
            Ok(SpaceInstruction::AcceptOffer) => match AcceptOfferArgs::parse(rest) {
                None => Err(Rejection::ArgumentsUnreadable),
                Some(args) => accept_offer::outcome_of(env, program_id, accounts, args),
            },
            Ok(SpaceInstruction::InitVoucherSystem) => match InitVoucherSystemArgs::parse(rest) {
                None => Err(Rejection::ArgumentsUnreadable),
                Some(args) => init_voucher_system::outcome_of(env, program_id, accounts, args),
            },
            Ok(SpaceInstruction::RevokeAuthorityPrivileges) => match RevokeAuthorityPrivilegesArgs::parse(rest) {
                None => Err(Rejection::ArgumentsUnreadable),
                Some(args) => revoke_authority_privileges::outcome_of(env, program_id, accounts, args),
            },
            Ok(SpaceInstruction::UpdateAuthority) => match UpdateAuthorityArgs::parse(rest) {
                None => Err(Rejection::ArgumentsUnreadable),
                Some(args) => update_authority::outcome_of(env, program_id, accounts, args),
            },
            Ok(SpaceInstruction::ChangeNeighborhoodName) => match ChangeNeighborhoodNameArgs::parse(rest) {
                None => Err(Rejection::ArgumentsUnreadable),
                Some(args) => change_nbdhoodname::outcome_of(env, program_id, accounts, args),
            },
            Ok(SpaceInstruction::TempAddxy) => match TempAddxyArgs::parse(rest) {
                None => Err(Rejection::ArgumentsUnreadable),
                Some(args) => temp_add_xy::outcome_of(env, program_id, accounts, args),
            },
        }
    }
}

impl Processor {
    /// Decodes the instruction and carries out its operation on the records
    /// handed over.
    pub fn process(
        env: &Environment,
        program_id: &Key,
        accounts: &[AccountView],
        instruction_data: &[u8],
    ) -> (r: Result<Outcome, Rejection>)
        ensures
            verdict(r) == dispatched(*env, *program_id, accounts@, instruction_data@),
    {
        if instruction_data.len() == 0 {
            return Err(Rejection::InvalidInstructionData);
        }
        let rest = slice_subrange(instruction_data, 1, instruction_data.len());
        match SpaceInstruction::unpack(&instruction_data[0])? {
            SpaceInstruction::InitBase => match InitBaseArgs::try_from_slice(rest) {
                None => Err(Rejection::ArgumentsUnreadable),
                Some(args) => init_base::process(env, program_id, accounts, &args),
            },
            SpaceInstruction::InitNeighborhoodMetadata => match InitNeighborhoodMetadataArgs::try_from_slice(rest) {
                None => Err(Rejection::ArgumentsUnreadable),
                Some(args) => init_neighborhood_metadata::process(env, program_id, accounts, &args),
            },
            SpaceInstruction::InitSpaceMetadata => match InitSpaceMetadataArgs::try_from_slice(rest) {
                None => Err(Rejection::ArgumentsUnreadable),
                Some(args) => init_space_metadata::process(env, program_id, accounts, &args),
            },
            SpaceInstruction::ChangeOffer => match ChangeOfferArgs::try_from_slice(rest) {
                None => Err(Rejection::ArgumentsUnreadable),
                Some(args) => change_offer::process(env, program_id, accounts, &args),
            },
            SpaceInstruction::AcceptOffer => match AcceptOfferArgs::try_from_slice(rest) {
                None => Err(Rejection::ArgumentsUnreadable),
                Some(args) => accept_offer::process(env, program_id, accounts, &args),
            },
            SpaceInstruction::InitVoucherSystem => match InitVoucherSystemArgs::try_from_slice(rest) {
                None => Err(Rejection::ArgumentsUnreadable),
                Some(args) => init_voucher_system::process(env, program_id, accounts, &args),
            },
            SpaceInstruction::RevokeAuthorityPrivileges => match RevokeAuthorityPrivilegesArgs::try_from_slice(rest) {
                None => Err(Rejection::ArgumentsUnreadable),
                Some(args) => revoke_authority_privileges::process(env, program_id, accounts, &args),
            },
            SpaceInstruction::UpdateAuthority => match UpdateAuthorityArgs::try_from_slice(rest) {
                None => Err(Rejection::ArgumentsUnreadable),
                Some(args) => update_authority::process(env, program_id, accounts, &args),
            },
            SpaceInstruction::ChangeNeighborhoodName => match ChangeNeighborhoodNameArgs::try_from_slice(rest) {
                None => Err(Rejection::ArgumentsUnreadable),
                Some(args) => change_nbdhoodname::process(env, program_id, accounts, &args),
            },
            SpaceInstruction::TempAddxy => match TempAddxyArgs::try_from_slice(rest) {
                None => Err(Rejection::ArgumentsUnreadable),
                Some(args) => temp_add_xy::process(env, program_id, accounts, &args),
            },
        }
    }
}

} // verus!
