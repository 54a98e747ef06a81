//! The instructions of the program, each as a function from the accounts
//! it is given to the steps it asks for and the records it writes.

pub mod initialize;
pub mod register_provider;
pub mod request;
pub mod request_with_callback;
pub mod reveal_with_callback;

use vstd::prelude::*;
use vstd::bytes::*;
use crate::accounts::PubkeyBytes;
use crate::error::{EntropyError, ProgramError};
use crate::instruction::{instruction_of_opcode, EntropyInstruction};
use crate::processor::initialize::{initialize_result, process_initialize, InitializeOutcome};
use crate::processor::register_provider::{process_register_provider, register_provider_result,
    RegisterProviderOutcome};
use crate::processor::request::{process_request, request_result, RequestOutcome};
use crate::processor::request_with_callback::{process_request_with_callback,
    request_with_callback_result};
use crate::processor::reveal_with_callback::{process_reveal_with_callback, reveal_result,
    RevealOutcome, SlotHashEntry};
use crate::runtime::AccountInfo;

verus! {

/// The error for an account that is not as the instruction needs it.
pub open spec fn invalid_account() -> ProgramError {
    EntropyError::InvalidAccount.program_error_spec()
}

/// The error for an account that is not at its derived address.
pub open spec fn invalid_pda() -> ProgramError {
    EntropyError::InvalidPda.program_error_spec()
}

/// The account at position `index`, or not enough account keys.
pub fn next_account_info(accounts: &[AccountInfo], index: usize) -> (r: Result<
    &AccountInfo,
    ProgramError,
>)
    ensures
        r.is_ok() <==> index < accounts@.len(),
        r matches Ok(account) ==> *account == accounts@[index as int],
        r matches Err(e) ==> e == ProgramError::NotEnoughAccountKeys,
{
    if index < accounts.len() {
        Ok(&accounts[index])
    } else {
        Err(ProgramError::NotEnoughAccountKeys)
    }
}

/// What the instruction cannot see in its accounts and data: the
/// rent-exempt minimums for the account sizes it creates, the current
/// slot, and the recent slot hashes.
#[derive(Debug)]
pub struct Environment {
    pub config_rent: u64,
    pub provider_rent: u64,
    pub request_rent: u64,
    pub vault_rent: u64,
    pub slot: u64,
    pub slot_hashes: Vec<SlotHashEntry>,
}

/// What a successful instruction asks for, by operation.
#[derive(Debug)]
pub enum Outcome {
    Initialize(InitializeOutcome),
    RegisterProvider(RegisterProviderOutcome),
    Request(RequestOutcome),
    RequestWithCallback(RequestOutcome),
    RevealWithCallback(RevealOutcome),
}

/// The error for data that names no operation.
pub open spec fn invalid_instruction() -> ProgramError {
    EntropyError::InvalidInstruction.program_error_spec()
}

/// The error for an operation that is reserved.
pub open spec fn not_implemented() -> ProgramError {
    EntropyError::NotImplemented.program_error_spec()
}

/// What an instruction results in, seen as the result of the operation
/// `pick` selects: its outcome where the instruction succeeded with that
/// operation, its error where it failed, and nothing where it succeeded
/// with another operation.
pub open spec fn result_of<T>(
    r: Result<Outcome, ProgramError>,
    pick: spec_fn(Outcome) -> Option<T>,
) -> Option<Result<T, ProgramError>> {
    match r {
        Ok(outcome) => match pick(outcome) {
            Some(inner) => Some(Ok(inner)),
            None => None,
        },
        Err(e) => Some(Err(e)),
    }
}

/// Whether `r` is what the instruction with data `data` results in: an
/// invalid instruction where the data names no operation, else what
/// the operation results in on the payload behind the opcode; a
/// reserved operation is not implemented.
pub open spec fn instruction_result(
    program_id: PubkeyBytes,
    accounts: Seq<AccountInfo>,
    data: Seq<u8>,
    environment: Environment,
    r: Result<Outcome, ProgramError>,
) -> bool {
    if data.len() < 8 {
        r matches Err(e) && e == invalid_instruction()
    } else {
        let payload = data.subrange(8, data.len() as int);
        match instruction_of_opcode(spec_u64_from_le_bytes(data.subrange(0, 8))) {
            None => r matches Err(e) && e == invalid_instruction(),
            Some(EntropyInstruction::Initialize) => result_of(
                r,
                |outcome: Outcome|
                    match outcome {
                        Outcome::Initialize(inner) => Some(inner),
                        _ => None,
                    },
            ) matches Some(inner) && initialize_result(
                program_id,
                accounts,
                payload,
                environment.config_rent,
                environment.vault_rent,
                inner,
            ),
            Some(EntropyInstruction::RegisterProvider) => result_of(
                r,
                |outcome: Outcome|
                    match outcome {
                        Outcome::RegisterProvider(inner) => Some(inner),
                        _ => None,
                    },
            ) matches Some(inner) && register_provider_result(
                program_id,
                accounts,
                payload,
                environment.provider_rent,
                environment.vault_rent,
                inner,
            ),
            Some(EntropyInstruction::Request) => result_of(
                r,
                |outcome: Outcome|
                    match outcome {
                        Outcome::Request(inner) => Some(inner),
                        _ => None,
                    },
            ) matches Some(inner) && request_result(
                program_id,
                accounts,
                payload,
                environment.slot,
                environment.request_rent,
                inner,
            ),
            Some(EntropyInstruction::RequestWithCallback) => result_of(
                r,
                |outcome: Outcome|
                    match outcome {
                        Outcome::RequestWithCallback(inner) => Some(inner),
                        _ => None,
                    },
            ) matches Some(inner) && request_with_callback_result(
                program_id,
                accounts,
                payload,
                environment.slot,
                environment.request_rent,
                inner,
            ),
            Some(EntropyInstruction::RevealWithCallback) => result_of(
                r,
                |outcome: Outcome|
                    match outcome {
                        Outcome::RevealWithCallback(inner) => Some(inner),
                        _ => None,
                    },
            ) matches Some(inner) && reveal_result(
                program_id,
                accounts,
                payload,
                environment.slot_hashes@,
                inner,
            ),
            Some(_) => r matches Err(e) && e == not_implemented(),
        }
    }
}

/// Processes one instruction: decodes the operation and hands the
/// payload to it.
pub fn process_instruction(
    program_id: &PubkeyBytes,
    accounts: &[AccountInfo],
    data: &[u8],
    environment: &Environment,
) -> (r: Result<Outcome, ProgramError>)
    ensures
        instruction_result(*program_id, accounts@, data@, *environment, r),
{
    let (instruction, payload) = match EntropyInstruction::parse(data) {
        Ok(parsed) => parsed,
        Err(e) => { return Err(e); },
    };
    match instruction {
        EntropyInstruction::Initialize => match process_initialize(
            program_id,
            accounts,
            payload,
            environment.config_rent,
            environment.vault_rent,
        ) {
            Ok(outcome) => Ok(Outcome::Initialize(outcome)),
            Err(e) => Err(e),
        },
        EntropyInstruction::RegisterProvider => match process_register_provider(
            program_id,
            accounts,
            payload,
            environment.provider_rent,
            environment.vault_rent,
        ) {
            Ok(outcome) => Ok(Outcome::RegisterProvider(outcome)),
            Err(e) => Err(e),
        },
        EntropyInstruction::Request => match process_request(
            program_id,
            accounts,
            payload,
            environment.slot,
            environment.request_rent,
        ) {
            Ok(outcome) => Ok(Outcome::Request(outcome)),
            Err(e) => Err(e),
        },
        EntropyInstruction::RequestWithCallback => match process_request_with_callback(
            program_id,
            accounts,
            payload,
            environment.slot,
            environment.request_rent,
        ) {
            Ok(outcome) => Ok(Outcome::RequestWithCallback(outcome)),
            Err(e) => Err(e),
        },
        EntropyInstruction::RevealWithCallback => match process_reveal_with_callback(
            program_id,
            accounts,
            payload,
            environment.slot_hashes.as_slice(),
        ) {
            Ok(outcome) => Ok(Outcome::RevealWithCallback(outcome)),
            Err(e) => Err(e),
        },
        EntropyInstruction::Reveal => Err(EntropyError::NotImplemented.program_error()),
        EntropyInstruction::AdvanceProviderCommitment => Err(
            EntropyError::NotImplemented.program_error(),
        ),
        EntropyInstruction::UpdateProviderConfig => Err(
            EntropyError::NotImplemented.program_error(),
        ),
        EntropyInstruction::WithdrawProviderFees => Err(
            EntropyError::NotImplemented.program_error(),
        ),
        EntropyInstruction::Governance => Err(EntropyError::NotImplemented.program_error()),
    }
}

} // verus!
