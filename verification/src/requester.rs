//! The callback contract as a requester program sees it: how it is
//! addressed, and what it reads from the data it is called back with.

use vstd::prelude::*;
use vstd::bytes::*;
use crate::accounts::PubkeyBytes;
use crate::bytes::{read_array, read_u64_le};
use crate::constants::{entropy_signer_seed_spec, requester_signer_seed_spec};
use crate::error::ProgramError;
use crate::pda::{bump_of, is_address, matches_pda, pda1, pda2};
use crate::runtime::{AccountInfo, SignerSeeds};
use crate::system_instruction::{InstructionAccount, OwnedInstruction};

verus! {

/// Leading byte of a plain request.
pub const REQUEST_ACTION: u8 = 0;

/// Leading byte of a request with callback.
pub const REQUEST_WITH_CALLBACK_ACTION: u8 = 1;

/// Leading byte of the callback.
pub const CALLBACK_ACTION: u8 = 0xCB;

/// What the requester keeps of the last callback.
#[derive(Clone, Copy, Debug)]
pub struct CallbackState {
    pub sequence_number: u64,
    pub provider: [u8; 32],
    pub random_number: [u8; 32],
    pub called: u8,
}

/// Size of the stored callback state.
pub const CALLBACK_STATE_LEN: usize = 80;

/// What an instruction asks the requester to do.
#[derive(Clone, Copy, Debug, PartialEq, Eq, Structural)]
pub enum RequesterAction {
    Request,
    RequestWithCallback,
    Callback,
}

/// The action that instruction data asks for and the offset at which its
/// payload starts: behind the leading byte where that names an action;
/// data of exactly the size of plain request arguments is a plain
/// request as a whole.
pub open spec fn requester_action(data: Seq<u8>) -> Option<(RequesterAction, usize)> {
    if data.len() == 0 {
        None
    } else if data[0] == REQUEST_ACTION {
        Some((RequesterAction::Request, 1usize))
    } else if data[0] == REQUEST_WITH_CALLBACK_ACTION {
        Some((RequesterAction::RequestWithCallback, 1usize))
    } else if data[0] == CALLBACK_ACTION {
        Some((RequesterAction::Callback, 1usize))
    } else if data.len() == 40 {
        Some((RequesterAction::Request, 0usize))
    } else {
        None
    }
}

/// Tells what instruction data asks the requester to do. Data that asks
/// for nothing is invalid instruction data.
pub fn process_instruction(data: &[u8]) -> (r: Result<(RequesterAction, usize), ProgramError>)
    ensures
        match requester_action(data@) {
            Some(action) => r == Ok::<(RequesterAction, usize), ProgramError>(action),
            None => r == Err::<(RequesterAction, usize), ProgramError>(
                ProgramError::InvalidInstructionData,
            ),
        },
{
    if data.len() == 0 {
        return Err(ProgramError::InvalidInstructionData);
    }
    let action: u8 = data[0];
    if action == REQUEST_ACTION {
        Ok((RequesterAction::Request, 1))
    } else if action == REQUEST_WITH_CALLBACK_ACTION {
        Ok((RequesterAction::RequestWithCallback, 1))
    } else if action == CALLBACK_ACTION {
        Ok((RequesterAction::Callback, 1))
    } else if data.len() == 40 {
        Ok((RequesterAction::Request, 0))
    } else {
        Err(ProgramError::InvalidInstructionData)
    }
}

/// The error with which a callback is refused, if it is. The data is the
/// calling program's id, the sequence number, the provider and the
/// random number; the accounts are the calling program's signer and the
/// requester's state.
pub open spec fn callback_failure(program_id: PubkeyBytes, accounts: Seq<AccountInfo>, data: Seq<u8>) -> Option<
    ProgramError,
> {
    if data.len() != 104 {
        Some(ProgramError::InvalidInstructionData)
    } else if accounts.len() < 2 {
        Some(ProgramError::NotEnoughAccountKeys)
    } else if accounts[1].owner@ != program_id@ || !accounts[1].is_writable {
        Some(ProgramError::InvalidAccountData)
    } else if !is_address(accounts[0].key@, pda1(entropy_signer_seed_spec(), data.subrange(0, 32))) {
        Some(ProgramError::InvalidSeeds)
    } else {
        None
    }
}

/// What a callback delivers: the state to store, and a number from 0 to
/// 100 drawn from the random number's first eight bytes.
#[derive(Clone, Copy, Debug)]
pub struct CallbackDelivery {
    pub state: CallbackState,
    pub random_value: u64,
}

/// Processes the callback.
pub fn process_callback(program_id: &PubkeyBytes, accounts: &[AccountInfo], data: &[u8]) -> (r: Result<
    CallbackDelivery,
    ProgramError,
>)
    ensures
        match callback_failure(*program_id, accounts@, data@) {
            Some(error) => r matches Err(e) && e == error,
            None => {
                &&& r matches Ok(delivery)
                &&& delivery.state.sequence_number == spec_u64_from_le_bytes(
                    data@.subrange(32, 40),
                )
                &&& delivery.state.provider@ == data@.subrange(40, 72)
                &&& delivery.state.random_number@ == data@.subrange(72, 104)
                &&& delivery.state.called == 1
                &&& delivery.random_value == spec_u64_from_le_bytes(data@.subrange(72, 80)) % 101
            },
        },
{
    if data.len() != 104 {
        return Err(ProgramError::InvalidInstructionData);
    }
    if accounts.len() < 2 {
        return Err(ProgramError::NotEnoughAccountKeys);
    }
    let entropy_signer = &accounts[0];
    let callback_state = &accounts[1];
    if !callback_state.owned_by(program_id) || !callback_state.is_writable {
        return Err(ProgramError::InvalidAccountData);
    }
    let entropy_program_id: [u8; 32] = read_array::<32>(data, 0);
    if matches_pda(&entropy_signer.key, &crate::pda::entropy_signer_pda(&entropy_program_id)).is_none() {
        return Err(ProgramError::InvalidSeeds);
    }
    let state = CallbackState {
        sequence_number: read_u64_le(data, 32),
        provider: read_array::<32>(data, 40),
        random_number: read_array::<32>(data, 72),
        called: 1,
    };
    let random_value: u64 = read_u64_le(data, 72) % 101;
    Ok(CallbackDelivery { state, random_value })
}

/// What the requester asks the runtime for when it forwards a request:
/// the instruction to the entropy program, and the seeds it signs with.
#[derive(Debug)]
pub struct Forwarded {
    pub instruction: OwnedInstruction,
    pub seeds: SignerSeeds,
}

/// Whether the account at position `j` of a forwarded request is passed
/// writable: the payer, the request, the provider and the two vaults.
pub open spec fn forwarded_writable(j: int) -> bool {
    j == 1 || j == 3 || j == 4 || j == 5 || j == 7
}

/// Whether the account at position `j` of a forwarded request signs:
/// the requester's signer, the payer and the request.
pub open spec fn forwarded_signer(j: int) -> bool {
    j == 0 || j == 1 || j == 3
}

/// The error with which a request is not forwarded, if it is not. The
/// accounts are those of the request, then the callback program for a
/// request with callback, then the entropy program.
pub open spec fn forward_failure(
    program_id: PubkeyBytes,
    accounts: Seq<AccountInfo>,
    with_callback: bool,
) -> Option<ProgramError> {
    let listed: int = if with_callback {
        10
    } else {
        9
    };
    if accounts.len() < listed + 1 {
        Some(ProgramError::NotEnoughAccountKeys)
    } else if accounts[2].key@ != program_id@ || (with_callback && accounts[9].key@
        != program_id@) {
        Some(ProgramError::InvalidArgument)
    } else if !is_address(
        accounts[0].key@,
        pda2(requester_signer_seed_spec(), accounts[listed].key@, program_id@),
    ) {
        Some(ProgramError::InvalidSeeds)
    } else {
        None
    }
}

/// Whether `forwarded` is the request with data `data` as the requester
/// forwards it: to the entropy program, with the accounts of the request
/// in order and with their rights, signed for the requester's signer.
pub open spec fn forwards(
    forwarded: Forwarded,
    program_id: PubkeyBytes,
    accounts: Seq<AccountInfo>,
    with_callback: bool,
    data: Seq<u8>,
) -> bool {
    let listed: int = if with_callback {
        10
    } else {
        9
    };
    &&& forwarded.instruction.program_id == accounts[listed].key
    &&& forwarded.instruction.data@ == data
    &&& forwarded.instruction.accounts@.len() == listed
    &&& forall|j: int|
        0 <= j < listed ==> #[trigger] forwarded.instruction.accounts@[j] == (InstructionAccount {
            pubkey: accounts[j].key,
            is_writable: forwarded_writable(j),
            is_signer: forwarded_signer(j),
        })
    &&& forwarded.seeds == (SignerSeeds::RequesterSigner {
        entropy_program: accounts[listed].key,
        bump: bump_of(pda2(requester_signer_seed_spec(), accounts[listed].key@, program_id@)),
    })
}

/// Forwards a request with the given data to the entropy program.
pub fn forward(
    program_id: &PubkeyBytes,
    accounts: &[AccountInfo],
    with_callback: bool,
    data: Vec<u8>,
) -> (r: Result<Forwarded, ProgramError>)
    ensures
        match forward_failure(*program_id, accounts@, with_callback) {
            Some(error) => r matches Err(e) && e == error,
            None => r matches Ok(forwarded) && forwards(
                forwarded,
                *program_id,
                accounts@,
                with_callback,
                data@,
            ),
        },
{
    let listed: usize = if with_callback {
        10
    } else {
        9
    };
    if accounts.len() < listed + 1 {
        return Err(ProgramError::NotEnoughAccountKeys);
    }
    if !accounts[2].has_key(program_id) || (with_callback && !accounts[9].has_key(program_id)) {
        return Err(ProgramError::InvalidArgument);
    }
    let entropy_program = accounts[listed].key;
    let bump = match matches_pda(
        &accounts[0].key,
        &crate::pda::requester_signer_pda(&entropy_program, program_id),
    ) {
        Some(bump) => bump,
        None => { return Err(ProgramError::InvalidSeeds); },
    };
    let mut metas: Vec<InstructionAccount> = Vec::new();
    let mut j: usize = 0;
    while j < listed
        invariant
            0 <= j <= listed < accounts@.len(),
            metas@.len() == j,
            forall|k: int|
                0 <= k < j ==> #[trigger] metas@[k] == (InstructionAccount {
                    pubkey: accounts@[k].key,
                    is_writable: forwarded_writable(k),
                    is_signer: forwarded_signer(k),
                }),
        decreases listed - j,
    {
        metas.push(
            InstructionAccount {
                pubkey: accounts[j].key,
                is_writable: j == 1 || j == 3 || j == 4 || j == 5 || j == 7,
                is_signer: j == 0 || j == 1 || j == 3,
            },
        );
        j = j + 1;
    }
    Ok(
        Forwarded {
            instruction: OwnedInstruction { program_id: entropy_program, accounts: metas, data },
            seeds: SignerSeeds::RequesterSigner { entropy_program, bump },
        },
    )
}

/// Forwards a plain request: the payload must have the size of the
/// request's arguments, else it is invalid instruction data, and goes
/// out behind the opcode of `Request`.
pub fn process_request(program_id: &PubkeyBytes, accounts: &[AccountInfo], payload: &[u8]) -> (r:
    Result<Forwarded, ProgramError>)
    ensures
        if payload@.len() != 40 {
            r matches Err(e) && e == ProgramError::InvalidInstructionData
        } else {
            match forward_failure(*program_id, accounts@, false) {
                Some(error) => r matches Err(e) && e == error,
                None => r matches Ok(forwarded) && forwards(
                    forwarded,
                    *program_id,
                    accounts@,
                    false,
                    spec_u64_to_le_bytes(2) + payload@,
                ),
            }
        },
{
    if payload.len() != 40 {
        return Err(ProgramError::InvalidInstructionData);
    }
    let mut data: Vec<u8> = Vec::new();
    let opcode = crate::instruction::EntropyInstruction::Request.discriminator();
    crate::bytes::push_bytes(&mut data, opcode.as_slice());
    crate::bytes::push_bytes(&mut data, payload);
    forward(program_id, accounts, false, data)
}

/// Forwards a request with callback: the payload goes out as it is.
pub fn process_request_with_callback(
    program_id: &PubkeyBytes,
    accounts: &[AccountInfo],
    payload: &[u8],
) -> (r: Result<Forwarded, ProgramError>)
    ensures
        match forward_failure(*program_id, accounts@, true) {
            Some(error) => r matches Err(e) && e == error,
            None => r matches Ok(forwarded) && forwards(
                forwarded,
                *program_id,
                accounts@,
                true,
                payload@,
            ),
        },
{
    forward(program_id, accounts, true, vstd::slice::slice_to_vec(payload))
}

} // verus!
