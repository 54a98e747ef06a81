//! Decoding of instruction data.

use vstd::prelude::*;
use vstd::bytes::*;
use crate::accounts::{callback_meta_at, CallbackMeta, PubkeyBytes};
use crate::bytes::{read_array, read_u16_le, read_u32_le, read_u64_le};
use crate::constants::{CALLBACK_IX_DATA_LEN, COMMITMENT_METADATA_LEN, MAX_CALLBACK_ACCOUNTS,
    URI_LEN};
use crate::error::{EntropyError, ProgramError};

verus! {

/// The operations of the program, by opcode.
#[derive(Clone, Copy, Debug, PartialEq, Eq, Structural)]
pub enum EntropyInstruction {
    Initialize,
    RegisterProvider,
    Request,
    RequestWithCallback,
    Reveal,
    RevealWithCallback,
    AdvanceProviderCommitment,
    UpdateProviderConfig,
    WithdrawProviderFees,
    Governance,
}

/// Length of the opcode that opens instruction data.
pub const INSTRUCTION_DISCRIMINATOR_LEN: usize = 8;

/// The operation with a given opcode.
pub open spec fn instruction_of_opcode(opcode: u64) -> Option<EntropyInstruction> {
    if opcode == 0 {
        Some(EntropyInstruction::Initialize)
    } else if opcode == 1 {
        Some(EntropyInstruction::RegisterProvider)
    } else if opcode == 2 {
        Some(EntropyInstruction::Request)
    } else if opcode == 3 {
        Some(EntropyInstruction::RequestWithCallback)
    } else if opcode == 4 {
        Some(EntropyInstruction::Reveal)
    } else if opcode == 5 {
        Some(EntropyInstruction::RevealWithCallback)
    } else if opcode == 6 {
        Some(EntropyInstruction::AdvanceProviderCommitment)
    } else if opcode == 7 {
        Some(EntropyInstruction::UpdateProviderConfig)
    } else if opcode == 8 {
        Some(EntropyInstruction::WithdrawProviderFees)
    } else if opcode == 9 {
        Some(EntropyInstruction::Governance)
    } else {
        None
    }
}

impl EntropyInstruction {
    /// The opcode of the operation.
    pub open spec fn opcode_spec(self) -> u64 {
        match self {
            EntropyInstruction::Initialize => 0,
            EntropyInstruction::RegisterProvider => 1,
            EntropyInstruction::Request => 2,
            EntropyInstruction::RequestWithCallback => 3,
            EntropyInstruction::Reveal => 4,
            EntropyInstruction::RevealWithCallback => 5,
            EntropyInstruction::AdvanceProviderCommitment => 6,
            EntropyInstruction::UpdateProviderConfig => 7,
            EntropyInstruction::WithdrawProviderFees => 8,
            EntropyInstruction::Governance => 9,
        }
    }

    /// The opcode of the operation.
    pub fn opcode(self) -> (c: u64)
        ensures
            c == self.opcode_spec(),
    {
        match self {
            EntropyInstruction::Initialize => 0,
            EntropyInstruction::RegisterProvider => 1,
            EntropyInstruction::Request => 2,
            EntropyInstruction::RequestWithCallback => 3,
            EntropyInstruction::Reveal => 4,
            EntropyInstruction::RevealWithCallback => 5,
            EntropyInstruction::AdvanceProviderCommitment => 6,
            EntropyInstruction::UpdateProviderConfig => 7,
            EntropyInstruction::WithdrawProviderFees => 8,
            EntropyInstruction::Governance => 9,
        }
    }

    /// The eight bytes that open the instruction data of the operation:
    /// its opcode, little-endian.
    pub fn discriminator(self) -> (d: [u8; 8])
        ensures
            d@ == spec_u64_to_le_bytes(self.opcode_spec()),
    {
        crate::bytes::u64_le_array(self.opcode())
    }

    /// Splits instruction data into the operation and its payload, the
    /// bytes behind the opcode. Data shorter than an opcode, or with an
    /// opcode that names no operation, is an invalid instruction.
    pub fn parse(input: &[u8]) -> (r: Result<(EntropyInstruction, &[u8]), ProgramError>)
        ensures
            match r {
                Ok((instruction, payload)) => {
                    &&& input@.len() >= 8
                    &&& payload@ == input@.subrange(8, input@.len() as int)
                    &&& instruction_of_opcode(spec_u64_from_le_bytes(input@.subrange(0, 8)))
                        == Some(instruction)
                },
                Err(e) => {
                    &&& e == EntropyError::InvalidInstruction.program_error_spec()
                    &&& (input@.len() < 8 || instruction_of_opcode(
                        spec_u64_from_le_bytes(input@.subrange(0, 8)),
                    ).is_none())
                },
            },
    {
        if input.len() < INSTRUCTION_DISCRIMINATOR_LEN {
            return Err(EntropyError::InvalidInstruction.program_error());
        }
        let opcode: u64 = read_u64_le(input, 0);
        let instruction = if opcode == 0 {
            EntropyInstruction::Initialize
        } else if opcode == 1 {
            EntropyInstruction::RegisterProvider
        } else if opcode == 2 {
            EntropyInstruction::Request
        } else if opcode == 3 {
            EntropyInstruction::RequestWithCallback
        } else if opcode == 4 {
            EntropyInstruction::Reveal
        } else if opcode == 5 {
            EntropyInstruction::RevealWithCallback
        } else if opcode == 6 {
            EntropyInstruction::AdvanceProviderCommitment
        } else if opcode == 7 {
            EntropyInstruction::UpdateProviderConfig
        } else if opcode == 8 {
            EntropyInstruction::WithdrawProviderFees
        } else if opcode == 9 {
            EntropyInstruction::Governance
        } else {
            return Err(EntropyError::InvalidInstruction.program_error());
        };
        Ok(
            (
                instruction,
                vstd::slice::slice_subrange(input, INSTRUCTION_DISCRIMINATOR_LEN, input.len()),
            ),
        )
    }
}

/// Every operation is found again from its own discriminator.
pub proof fn lemma_discriminator_round_trip(instruction: EntropyInstruction)
    ensures
        spec_u64_to_le_bytes(instruction.opcode_spec()).len() == 8,
        instruction_of_opcode(
            spec_u64_from_le_bytes(spec_u64_to_le_bytes(instruction.opcode_spec())),
        ) == Some(instruction),
{
    lemma_auto_spec_u64_to_from_le_bytes();
}

/// Arguments of `Initialize`.
#[derive(Clone, Copy, Debug)]
pub struct InitializeArgs {
    pub admin: PubkeyBytes,
    pub pyth_fee_lamports: u64,
    pub default_provider: PubkeyBytes,
}

/// Size of the `Initialize` arguments.
pub const INITIALIZE_ARGS_LEN: usize = 72;

/// Arguments of `RegisterProvider`.
#[derive(Clone, Copy, Debug)]
pub struct RegisterProviderArgs {
    pub fee_lamports: u64,
    pub commitment: [u8; 32],
    pub commitment_metadata_len: u16,
    pub commitment_metadata: [u8; COMMITMENT_METADATA_LEN],
    pub chain_length: u64,
    pub uri_len: u16,
    pub uri: [u8; URI_LEN],
}

/// Size of the `RegisterProvider` arguments.
pub const REGISTER_PROVIDER_ARGS_LEN: usize = 384;

/// Arguments of `Request`.
#[derive(Clone, Copy, Debug)]
pub struct RequestArgs {
    pub user_commitment: [u8; 32],
    pub use_blockhash: u8,
    pub compute_unit_limit: u32,
}

/// Size of the `Request` arguments.
pub const REQUEST_ARGS_LEN: usize = 40;

/// Arguments of `RevealWithCallback`.
#[derive(Clone, Copy, Debug)]
pub struct RevealArgs {
    pub user_contribution: [u8; 32],
    pub provider_contribution: [u8; 32],
}

/// Size of the `RevealWithCallback` arguments.
pub const REVEAL_ARGS_LEN: usize = 64;

/// Whether `data` is the payload that holds `args`.
pub open spec fn initialize_args_in(args: InitializeArgs, data: Seq<u8>) -> bool {
    &&& data.len() == 72
    &&& args.admin@ == data.subrange(0, 32)
    &&& args.pyth_fee_lamports == spec_u64_from_le_bytes(data.subrange(32, 40))
    &&& args.default_provider@ == data.subrange(40, 72)
}

/// Whether `data` is the payload that holds `args`. Its padding is free.
pub open spec fn register_provider_args_in(args: RegisterProviderArgs, data: Seq<u8>) -> bool {
    &&& data.len() == 384
    &&& args.fee_lamports == spec_u64_from_le_bytes(data.subrange(0, 8))
    &&& args.commitment@ == data.subrange(8, 40)
    &&& args.commitment_metadata_len == spec_u16_from_le_bytes(data.subrange(40, 42))
    &&& args.commitment_metadata@ == data.subrange(42, 106)
    &&& args.chain_length == spec_u64_from_le_bytes(data.subrange(112, 120))
    &&& args.uri_len == spec_u16_from_le_bytes(data.subrange(120, 122))
    &&& args.uri@ == data.subrange(122, 378)
}

/// Whether `data` is the payload that holds `args`. Its padding is free.
pub open spec fn request_args_in(args: RequestArgs, data: Seq<u8>) -> bool {
    &&& data.len() == 40
    &&& args.user_commitment@ == data.subrange(0, 32)
    &&& args.use_blockhash == data[32]
    &&& args.compute_unit_limit == spec_u32_from_le_bytes(data.subrange(36, 40))
}

/// Whether `data` is the payload that holds `args`.
pub open spec fn reveal_args_in(args: RevealArgs, data: Seq<u8>) -> bool {
    &&& data.len() == 64
    &&& args.user_contribution@ == data.subrange(0, 32)
    &&& args.provider_contribution@ == data.subrange(32, 64)
}

/// Reads the arguments of `Initialize`. A payload of another size is
/// invalid instruction data.
pub fn parse_initialize_args(data: &[u8]) -> (r: Result<InitializeArgs, ProgramError>)
    ensures
        r.is_ok() <==> data@.len() == 72,
        r matches Ok(args) ==> initialize_args_in(args, data@),
        r matches Err(e) ==> e == ProgramError::InvalidInstructionData,
{
    if data.len() != INITIALIZE_ARGS_LEN {
        return Err(ProgramError::InvalidInstructionData);
    }
    Ok(
        InitializeArgs {
            admin: read_array::<32>(data, 0),
            pyth_fee_lamports: read_u64_le(data, 32),
            default_provider: read_array::<32>(data, 40),
        },
    )
}

/// Reads the arguments of `RegisterProvider`. A payload of another size
/// is invalid instruction data.
pub fn parse_register_provider_args(data: &[u8]) -> (r: Result<RegisterProviderArgs, ProgramError>)
    ensures
        r.is_ok() <==> data@.len() == 384,
        r matches Ok(args) ==> register_provider_args_in(args, data@),
        r matches Err(e) ==> e == ProgramError::InvalidInstructionData,
{
    if data.len() != REGISTER_PROVIDER_ARGS_LEN {
        return Err(ProgramError::InvalidInstructionData);
    }
    Ok(
        RegisterProviderArgs {
            fee_lamports: read_u64_le(data, 0),
            commitment: read_array::<32>(data, 8),
            commitment_metadata_len: read_u16_le(data, 40),
            commitment_metadata: read_array::<COMMITMENT_METADATA_LEN>(data, 42),
            chain_length: read_u64_le(data, 112),
            uri_len: read_u16_le(data, 120),
            uri: read_array::<URI_LEN>(data, 122),
        },
    )
}

/// Reads the arguments of `Request`. A payload of another size is invalid
/// instruction data.
pub fn parse_request_args(data: &[u8]) -> (r: Result<RequestArgs, ProgramError>)
    ensures
        r.is_ok() <==> data@.len() == 40,
        r matches Ok(args) ==> request_args_in(args, data@),
        r matches Err(e) ==> e == ProgramError::InvalidInstructionData,
{
    if data.len() != REQUEST_ARGS_LEN {
        return Err(ProgramError::InvalidInstructionData);
    }
    Ok(
        RequestArgs {
            user_commitment: read_array::<32>(data, 0),
            use_blockhash: data[32],
            compute_unit_limit: read_u32_le(data, 36),
        },
    )
}

/// Reads the arguments of `RevealWithCallback`. A payload of another size
/// is invalid instruction data.
pub fn parse_reveal_args(data: &[u8]) -> (r: Result<RevealArgs, ProgramError>)
    ensures
        r.is_ok() <==> data@.len() == 64,
        r matches Ok(args) ==> reveal_args_in(args, data@),
        r matches Err(e) ==> e == ProgramError::InvalidInstructionData,
{
    if data.len() != REVEAL_ARGS_LEN {
        return Err(ProgramError::InvalidInstructionData);
    }
    Ok(
        RevealArgs {
            user_contribution: read_array::<32>(data, 0),
            provider_contribution: read_array::<32>(data, 32),
        },
    )
}

/// Arguments of `RequestWithCallback`.
#[derive(Clone, Debug)]
pub struct RequestWithCallbackArgs {
    pub user_randomness: [u8; 32],
    pub compute_unit_limit: u32,
    pub callback_accounts: Vec<CallbackMeta>,
    pub callback_ix_data: Vec<u8>,
}

/// Takes `len` bytes at the cursor and moves the cursor past them; gives
/// the offset at which they start. Too few bytes left is invalid
/// instruction data, and the cursor stays.
pub fn read_bytes(data: &[u8], cursor: &mut usize, len: usize) -> (r: Result<usize, ProgramError>)
    ensures
        match r {
            Ok(start) => {
                &&& start == *old(cursor)
                &&& start + len <= data@.len()
                &&& *final(cursor) == start + len
            },
            Err(e) => {
                &&& e == ProgramError::InvalidInstructionData
                &&& *old(cursor) + len > data@.len()
                &&& *final(cursor) == *old(cursor)
            },
        },
{
    let start: usize = *cursor;
    if data.len() < start || data.len() - start < len {
        return Err(ProgramError::InvalidInstructionData);
    }
    *cursor = start + len;
    Ok(start)
}

/// Reads one byte at the cursor.
pub fn read_u8(data: &[u8], cursor: &mut usize) -> (r: Result<u8, ProgramError>)
    ensures
        match r {
            Ok(v) => {
                &&& *old(cursor) + 1 <= data@.len()
                &&& *final(cursor) == *old(cursor) + 1
                &&& v == data@[*old(cursor) as int]
            },
            Err(e) => {
                &&& e == ProgramError::InvalidInstructionData
                &&& *old(cursor) + 1 > data@.len()
                &&& *final(cursor) == *old(cursor)
            },
        },
{
    match read_bytes(data, cursor, 1) {
        Ok(start) => Ok(data[start]),
        Err(e) => Err(e),
    }
}

/// Reads a little-endian `u32` at the cursor.
pub fn read_u32(data: &[u8], cursor: &mut usize) -> (r: Result<u32, ProgramError>)
    ensures
        match r {
            Ok(v) => {
                &&& *old(cursor) + 4 <= data@.len()
                &&& *final(cursor) == *old(cursor) + 4
                &&& v == spec_u32_from_le_bytes(
                    data@.subrange(*old(cursor) as int, *old(cursor) + 4),
                )
            },
            Err(e) => {
                &&& e == ProgramError::InvalidInstructionData
                &&& *old(cursor) + 4 > data@.len()
                &&& *final(cursor) == *old(cursor)
            },
        },
{
    match read_bytes(data, cursor, 4) {
        Ok(start) => Ok(read_u32_le(data, start)),
        Err(e) => Err(e),
    }
}

/// Reads thirty-two bytes at the cursor.
pub fn read_array_32(data: &[u8], cursor: &mut usize) -> (r: Result<[u8; 32], ProgramError>)
    ensures
        match r {
            Ok(v) => {
                &&& *old(cursor) + 32 <= data@.len()
                &&& *final(cursor) == *old(cursor) + 32
                &&& v@ == data@.subrange(*old(cursor) as int, *old(cursor) + 32)
            },
            Err(e) => {
                &&& e == ProgramError::InvalidInstructionData
                &&& *old(cursor) + 32 > data@.len()
                &&& *final(cursor) == *old(cursor)
            },
        },
{
    match read_bytes(data, cursor, 32) {
        Ok(start) => Ok(read_array::<32>(data, start)),
        Err(e) => Err(e),
    }
}

/// Whether the two flags of the callback account entry at `offset` are
/// each 0 or 1.
pub open spec fn callback_flags_valid(data: Seq<u8>, offset: int) -> bool {
    data[offset + 32] <= 1 && data[offset + 33] <= 1
}

/// Reads a callback account entry at the cursor. Too few bytes, or a flag
/// that is neither 0 nor 1, is invalid instruction data.
pub fn read_callback_meta(data: &[u8], cursor: &mut usize) -> (r: Result<
    CallbackMeta,
    ProgramError,
>)
    ensures
        match r {
            Ok(meta) => {
                &&& *final(cursor) == *old(cursor) + 34
                &&& callback_meta_at(meta, data@, *old(cursor) as int)
                &&& callback_flags_valid(data@, *old(cursor) as int)
            },
            Err(e) => {
                &&& e == ProgramError::InvalidInstructionData
                &&& (*old(cursor) + 34 > data@.len() || !callback_flags_valid(
                    data@,
                    *old(cursor) as int,
                ))
            },
        },
{
    let start: usize = *cursor;
    if data.len() < start || data.len() - start < 34 {
        return Err(ProgramError::InvalidInstructionData);
    }
    let meta = CallbackMeta::read(data, start);
    if meta.is_signer > 1 || meta.is_writable > 1 {
        return Err(ProgramError::InvalidInstructionData);
    }
    *cursor = start + 34;
    Ok(meta)
}

/// The number of callback accounts that a payload declares.
pub open spec fn declared_accounts(data: Seq<u8>) -> int {
    spec_u32_from_le_bytes(data.subrange(36, 40)) as int
}

/// The length of callback instruction data that a payload declares.
pub open spec fn declared_ix_data_len(data: Seq<u8>) -> int {
    let at = 40 + 34 * declared_accounts(data);
    spec_u32_from_le_bytes(data.subrange(at, at + 4)) as int
}

/// Whether `data` is a well-formed `RequestWithCallback` payload: the
/// randomness, the compute budget, at most sixteen account entries with
/// flags of 0 or 1 behind their count, and at most 256 bytes of callback
/// data behind their length, with nothing after them.
pub open spec fn callback_payload_valid(data: Seq<u8>) -> bool {
    &&& data.len() >= 40
    &&& declared_accounts(data) <= 16
    &&& data.len() >= 44 + 34 * declared_accounts(data)
    &&& forall|j: int|
        0 <= j < declared_accounts(data) ==> #[trigger] callback_flags_valid(data, 40 + 34 * j)
    &&& declared_ix_data_len(data) <= 256
    &&& data.len() == 44 + 34 * declared_accounts(data) + declared_ix_data_len(data)
}

/// Whether `data` is the payload that holds `args`.
pub open spec fn callback_args_in(args: RequestWithCallbackArgs, data: Seq<u8>) -> bool {
    &&& callback_payload_valid(data)
    &&& args.user_randomness@ == data.subrange(0, 32)
    &&& args.compute_unit_limit == spec_u32_from_le_bytes(data.subrange(32, 36))
    &&& args.callback_accounts@.len() == declared_accounts(data)
    &&& forall|j: int|
        0 <= j < declared_accounts(data) ==> callback_meta_at(
            #[trigger] args.callback_accounts@[j],
            data,
            40 + 34 * j,
        )
    &&& args.callback_ix_data@ == data.subrange(
        44 + 34 * declared_accounts(data),
        data.len() as int,
    )
}

/// Reads the arguments of `RequestWithCallback`. Every payload that is
/// not well-formed is invalid instruction data.
pub fn parse_request_with_callback_args(data: &[u8]) -> (r: Result<
    RequestWithCallbackArgs,
    ProgramError,
>)
    ensures
        r.is_ok() <==> callback_payload_valid(data@),
        r matches Ok(args) ==> callback_args_in(args, data@),
        r matches Err(e) ==> e == ProgramError::InvalidInstructionData,
{
    let mut cursor: usize = 0;
    let user_randomness = match read_array_32(data, &mut cursor) {
        Ok(v) => v,
        Err(e) => { return Err(e); },
    };
    let compute_unit_limit = match read_u32(data, &mut cursor) {
        Ok(v) => v,
        Err(e) => { return Err(e); },
    };
    let declared = match read_u32(data, &mut cursor) {
        Ok(v) => v,
        Err(e) => { return Err(e); },
    };
    let count: usize = declared as usize;
    if count > MAX_CALLBACK_ACCOUNTS {
        return Err(ProgramError::InvalidInstructionData);
    }
    let mut callback_accounts: Vec<CallbackMeta> = Vec::new();
    let mut i: usize = 0;
    while i < count
        invariant
            0 <= i <= count <= 16,
            data@.len() >= 40,
            count == declared_accounts(data@),
            cursor == 40 + 34 * i,
            callback_accounts@.len() == i,
            forall|j: int|
                0 <= j < i ==> callback_meta_at(
                    #[trigger] callback_accounts@[j],
                    data@,
                    40 + 34 * j,
                ),
            forall|j: int| 0 <= j < i ==> #[trigger] callback_flags_valid(data@, 40 + 34 * j),
        decreases count - i,
    {
        let meta = match read_callback_meta(data, &mut cursor) {
            Ok(v) => v,
            Err(e) => {
                proof {
                    if 40 + 34 * i + 34 <= data@.len() {
                        assert(!callback_flags_valid(data@, 40 + 34 * (i as int)));
                    }
                }
                return Err(e);
            },
        };
        callback_accounts.push(meta);
        i = i + 1;
    }
    let ix_len = match read_u32(data, &mut cursor) {
        Ok(v) => v,
        Err(e) => { return Err(e); },
    };
    if ix_len as usize > CALLBACK_IX_DATA_LEN {
        return Err(ProgramError::InvalidInstructionData);
    }
    let start = match read_bytes(data, &mut cursor, ix_len as usize) {
        Ok(v) => v,
        Err(e) => { return Err(e); },
    };
    if cursor != data.len() {
        return Err(ProgramError::InvalidInstructionData);
    }
    let callback_ix_data = vstd::slice::slice_to_vec(
        vstd::slice::slice_subrange(data, start, cursor),
    );
    Ok(RequestWithCallbackArgs { user_randomness, compute_unit_limit, callback_accounts, callback_ix_data })
}

/// The instruction data of a `RequestWithCallback`: the opcode, the
/// randomness, the compute budget, the account entries behind their count
/// and the callback data behind its length.
pub open spec fn request_with_callback_data_spec(
    user_randomness: Seq<u8>,
    compute_unit_limit: u32,
    callback_accounts: Seq<CallbackMeta>,
    callback_ix_data: Seq<u8>,
) -> Seq<u8> {
    spec_u64_to_le_bytes(3) + user_randomness + spec_u32_to_le_bytes(compute_unit_limit)
        + spec_u32_to_le_bytes(callback_accounts.len() as u32) + crate::accounts::callback_metas_bytes(
        callback_accounts,
    ) + spec_u32_to_le_bytes(callback_ix_data.len() as u32) + callback_ix_data
}

/// Whether `payload` holds the given arguments of a request with
/// callback, each at its place.
pub open spec fn payload_holds(
    payload: Seq<u8>,
    user_randomness: Seq<u8>,
    compute_unit_limit: u32,
    callback_accounts: Seq<CallbackMeta>,
    callback_ix_data: Seq<u8>,
) -> bool {
    &&& payload.len() == 44 + 34 * callback_accounts.len() + callback_ix_data.len()
    &&& payload.subrange(0, 32) == user_randomness
    &&& spec_u32_from_le_bytes(payload.subrange(32, 36)) == compute_unit_limit
    &&& declared_accounts(payload) == callback_accounts.len()
    &&& forall|j: int|
        0 <= j < callback_accounts.len() ==> callback_meta_at(
            #[trigger] callback_accounts[j],
            payload,
            40 + 34 * j,
        )
    &&& declared_ix_data_len(payload) == callback_ix_data.len()
    &&& payload.subrange(44 + 34 * (callback_accounts.len() as int), payload.len() as int)
        == callback_ix_data
}

/// A payload that holds at most sixteen callback accounts with flags of
/// 0 or 1, and at most 256 bytes of callback data, is well-formed.
pub proof fn lemma_held_payload_valid(
    payload: Seq<u8>,
    user_randomness: Seq<u8>,
    compute_unit_limit: u32,
    callback_accounts: Seq<CallbackMeta>,
    callback_ix_data: Seq<u8>,
)
    requires
        payload_holds(
            payload,
            user_randomness,
            compute_unit_limit,
            callback_accounts,
            callback_ix_data,
        ),
        callback_accounts.len() <= 16,
        callback_ix_data.len() <= 256,
        forall|j: int|
            0 <= j < callback_accounts.len() ==> (#[trigger] callback_accounts[j]).is_signer <= 1
                && callback_accounts[j].is_writable <= 1,
    ensures
        callback_payload_valid(payload),
{
    assert forall|j: int| 0 <= j < declared_accounts(payload) implies #[trigger] callback_flags_valid(
        payload,
        40 + 34 * j,
    ) by {
        assert(callback_meta_at(callback_accounts[j], payload, 40 + 34 * j));
    }
}

/// Builds the instruction data of a `RequestWithCallback`.
pub fn build_request_with_callback_data(
    user_randomness: [u8; 32],
    compute_unit_limit: u32,
    callback_accounts: &[CallbackMeta],
    callback_ix_data: &[u8],
) -> (data: Vec<u8>)
    requires
        callback_accounts@.len() <= u32::MAX,
        callback_ix_data@.len() <= u32::MAX,
    ensures
        data@ == request_with_callback_data_spec(
            user_randomness@,
            compute_unit_limit,
            callback_accounts@,
            callback_ix_data@,
        ),
        data@.len() >= 8,
        instruction_of_opcode(spec_u64_from_le_bytes(data@.subrange(0, 8))) == Some(
            EntropyInstruction::RequestWithCallback,
        ),
        payload_holds(
            data@.subrange(8, data@.len() as int),
            user_randomness@,
            compute_unit_limit,
            callback_accounts@,
            callback_ix_data@,
        ),
{
    let mut data: Vec<u8> = Vec::new();
    proof {
        lemma_auto_spec_u64_to_from_le_bytes();
        lemma_auto_spec_u32_to_from_le_bytes();
    }
    let opcode = EntropyInstruction::RequestWithCallback.discriminator();
    crate::bytes::push_bytes(&mut data, opcode.as_slice());
    crate::bytes::push_bytes(&mut data, user_randomness.as_slice());
    crate::bytes::push_u32_le(&mut data, compute_unit_limit);
    crate::bytes::push_u32_le(&mut data, callback_accounts.len() as u32);
    let ghost head = data@;
    let mut i: usize = 0;
    proof {
        assert(callback_accounts@.subrange(0, 0) =~= Seq::<CallbackMeta>::empty());
    }
    while i < callback_accounts.len()
        invariant
            0 <= i <= callback_accounts@.len(),
            head.len() == 48,
            data@.len() == 48 + 34 * i,
            data@ == head + crate::accounts::callback_metas_bytes(
                callback_accounts@.subrange(0, i as int),
            ),
            forall|j: int|
                0 <= j < i ==> callback_meta_at(
                    #[trigger] callback_accounts@[j],
                    data@,
                    48 + 34 * j,
                ),
        decreases callback_accounts@.len() - i,
    {
        let ghost before = data@;
        let meta = callback_accounts[i];
        meta.write(&mut data);
        proof {
            let upto = callback_accounts@.subrange(0, i + 1);
            assert(upto.drop_last() =~= callback_accounts@.subrange(0, i as int));
            assert(upto.last() == meta);
            assert(data@ =~= head + crate::accounts::callback_metas_bytes(upto));
            assert forall|j: int| 0 <= j < i + 1 implies callback_meta_at(
                #[trigger] callback_accounts@[j],
                data@,
                48 + 34 * j,
            ) by {
                if j < i {
                    crate::accounts::lemma_callback_meta_at_extends(
                        callback_accounts@[j],
                        before,
                        crate::accounts::callback_meta_bytes(meta),
                        48 + 34 * j,
                    );
                }
            }
        }
        i = i + 1;
    }
    let ghost mid = data@;
    proof {
        assert(callback_accounts@.subrange(0, callback_accounts@.len() as int)
            =~= callback_accounts@);
    }
    crate::bytes::push_u32_le(&mut data, callback_ix_data.len() as u32);
    crate::bytes::push_bytes(&mut data, callback_ix_data);
    proof {
        let count = callback_accounts@.len() as int;
        let tail = spec_u32_to_le_bytes(callback_ix_data@.len() as u32) + callback_ix_data@;
        assert(data@ =~= mid + tail);
        let payload = data@.subrange(8, data@.len() as int);
        assert(data@.subrange(0, 8) =~= spec_u64_to_le_bytes(3));
        assert(payload.subrange(0, 32) =~= user_randomness@);
        assert(payload.subrange(32, 36) =~= spec_u32_to_le_bytes(compute_unit_limit));
        assert(payload.subrange(36, 40) =~= spec_u32_to_le_bytes(count as u32));
        assert(payload.subrange(40 + 34 * count, 44 + 34 * count) =~= spec_u32_to_le_bytes(
            callback_ix_data@.len() as u32,
        ));
        assert(payload.subrange(44 + 34 * count, payload.len() as int) =~= callback_ix_data@);
        assert forall|j: int| 0 <= j < count implies callback_meta_at(
            #[trigger] callback_accounts@[j],
            payload,
            40 + 34 * j,
        ) by {
            crate::accounts::lemma_callback_meta_at_extends(
                callback_accounts@[j],
                mid,
                tail,
                48 + 34 * j,
            );
            assert(payload.subrange(40 + 34 * j, 40 + 34 * j + 32) =~= data@.subrange(
                48 + 34 * j,
                48 + 34 * j + 32,
            ));
        }
    }
    data
}

} // verus!
