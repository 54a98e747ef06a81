//! Instructions as a client of the program builds them.

use vstd::prelude::*;
use vstd::bytes::*;
use crate::accounts::{CallbackMeta, Provider, PubkeyBytes};
use crate::requester::{CALLBACK_ACTION, REQUEST_WITH_CALLBACK_ACTION};
use crate::bytes::{push_bytes, push_u16_le, push_u64_le, push_zeros, zero_array, zeros};
use crate::constants::{config_seed_spec, provider_seed_spec, provider_vault_seed_spec,
    pyth_fee_vault_seed_spec, requester_signer_seed_spec, system_program_id,
    system_program_id_spec, COMMITMENT_METADATA_LEN,
    URI_LEN};
use crate::instruction::{initialize_args_in, instruction_of_opcode, register_provider_args_in,
    reveal_args_in, EntropyInstruction, InitializeArgs, RegisterProviderArgs, RevealArgs};
use crate::pda::{config_pda, is_address, pda1, pda2, provider_pda, provider_vault_pda,
    pyth_fee_vault_pda};
use crate::processor::reveal_with_callback::{slot_hashes_id, slot_hashes_id_spec};
use crate::system_instruction::{InstructionAccount, OwnedInstruction};

verus! {

/// An account passed writable.
pub open spec fn writable(key: PubkeyBytes, is_signer: bool) -> InstructionAccount {
    InstructionAccount { pubkey: key, is_writable: true, is_signer }
}

/// An account passed read-only.
pub open spec fn readonly(key: PubkeyBytes, is_signer: bool) -> InstructionAccount {
    InstructionAccount { pubkey: key, is_writable: false, is_signer }
}

/// Whether instruction data opens with the opcode of `instruction`, so
/// that the program reads it as that operation.
pub open spec fn reads_as(data: Seq<u8>, instruction: EntropyInstruction) -> bool {
    data.len() >= 8 && instruction_of_opcode(spec_u64_from_le_bytes(data.subrange(0, 8))) == Some(
        instruction,
    )
}

/// The payload that holds `args`.
pub open spec fn initialize_args_bytes(args: InitializeArgs) -> Seq<u8> {
    args.admin@ + spec_u64_to_le_bytes(args.pyth_fee_lamports) + args.default_provider@
}

/// The payload that holds `args`, with zeroed padding.
pub open spec fn register_provider_args_bytes(args: RegisterProviderArgs) -> Seq<u8> {
    spec_u64_to_le_bytes(args.fee_lamports) + args.commitment@ + spec_u16_to_le_bytes(
        args.commitment_metadata_len,
    ) + args.commitment_metadata@ + zeros(6) + spec_u64_to_le_bytes(args.chain_length)
        + spec_u16_to_le_bytes(args.uri_len) + args.uri@ + zeros(6)
}

/// Registration arguments without fee, metadata or URI.
pub fn build_register_args(commitment: [u8; 32], chain_length: u64) -> (args: RegisterProviderArgs)
    ensures
        args.fee_lamports == 0,
        args.commitment == commitment,
        args.commitment_metadata_len == 0,
        args.commitment_metadata@ == zeros(64),
        args.chain_length == chain_length,
        args.uri_len == 0,
        args.uri@ == zeros(256),
{
    RegisterProviderArgs {
        fee_lamports: 0,
        commitment,
        commitment_metadata_len: 0,
        commitment_metadata: zero_array::<COMMITMENT_METADATA_LEN>(),
        chain_length,
        uri_len: 0,
        uri: zero_array::<URI_LEN>(),
    }
}

/// Copies `src` to the front of a zeroed array.
fn padded<const N: usize>(src: &[u8]) -> (out: [u8; N])
    requires
        src@.len() <= N,
    ensures
        out@ == src@ + zeros((N - src@.len()) as nat),
{
    let mut out = zero_array::<N>();
    let mut i: usize = 0;
    while i < src.len()
        invariant
            0 <= i <= src@.len() <= N,
            out@.len() == N,
            forall|j: int| 0 <= j < i ==> out@[j] == src@[j],
            forall|j: int| i <= j < N ==> out@[j] == 0u8,
        decreases src@.len() - i,
    {
        out[i] = src[i];
        i = i + 1;
    }
    assert(out@ =~= src@ + zeros((N - src@.len()) as nat));
    out
}

/// Registration arguments with metadata and URI, each padded with zeros
/// to its fixed size; `None` where one of them is longer than that.
pub fn build_register_args_with_metadata(
    fee_lamports: u64,
    commitment: [u8; 32],
    chain_length: u64,
    commitment_metadata: &[u8],
    uri: &[u8],
) -> (r: Option<RegisterProviderArgs>)
    ensures
        r.is_some() <==> (commitment_metadata@.len() <= 64 && uri@.len() <= 256),
        r matches Some(args) ==> {
            &&& args.fee_lamports == fee_lamports
            &&& args.commitment == commitment
            &&& args.commitment_metadata_len == commitment_metadata@.len()
            &&& args.commitment_metadata@ == commitment_metadata@ + zeros(
                (64 - commitment_metadata@.len()) as nat,
            )
            &&& args.chain_length == chain_length
            &&& args.uri_len == uri@.len()
            &&& args.uri@ == uri@ + zeros((256 - uri@.len()) as nat)
        },
{
    if commitment_metadata.len() > COMMITMENT_METADATA_LEN || uri.len() > URI_LEN {
        return None;
    }
    Some(
        RegisterProviderArgs {
            fee_lamports,
            commitment,
            commitment_metadata_len: commitment_metadata.len() as u16,
            commitment_metadata: padded::<COMMITMENT_METADATA_LEN>(commitment_metadata),
            chain_length,
            uri_len: uri.len() as u16,
            uri: padded::<URI_LEN>(uri),
        },
    )
}

/// The `Initialize` instruction: the opcode and the arguments; the payer
/// signing and writable, the configuration and the fee vault writable,
/// the system program. `None` where an address cannot be derived.
pub fn build_initialize_ix(
    program_id: PubkeyBytes,
    payer: PubkeyBytes,
    admin: PubkeyBytes,
    default_provider: PubkeyBytes,
    pyth_fee_lamports: u64,
) -> (r: Option<OwnedInstruction>)
    ensures
        r.is_some() <==> (pda1(config_seed_spec(), program_id@).is_some() && pda1(
            pyth_fee_vault_seed_spec(),
            program_id@,
        ).is_some()),
        r matches Some(ix) ==> {
            &&& ix.program_id == program_id
            &&& ix.data@ == spec_u64_to_le_bytes(0) + initialize_args_bytes(
                InitializeArgs { admin, pyth_fee_lamports, default_provider },
            )
            &&& reads_as(ix.data@, EntropyInstruction::Initialize)
            &&& initialize_args_in(
                InitializeArgs { admin, pyth_fee_lamports, default_provider },
                ix.data@.subrange(8, ix.data@.len() as int),
            )
            &&& ix.accounts@.len() == 4
            &&& ix.accounts@[0] == writable(payer, true)
            &&& ix.accounts@[1].is_writable && !ix.accounts@[1].is_signer && is_address(
                ix.accounts@[1].pubkey@,
                pda1(config_seed_spec(), program_id@),
            )
            &&& ix.accounts@[2].is_writable && !ix.accounts@[2].is_signer && is_address(
                ix.accounts@[2].pubkey@,
                pda1(pyth_fee_vault_seed_spec(), program_id@),
            )
            &&& !ix.accounts@[3].is_writable && !ix.accounts@[3].is_signer
                && ix.accounts@[3].pubkey@ == system_program_id_spec()
        },
{
    let config = match config_pda(&program_id) {
        Some((address, _)) => address,
        None => { return None; },
    };
    let pyth_fee_vault = match pyth_fee_vault_pda(&program_id) {
        Some((address, _)) => address,
        None => { return None; },
    };
    let mut data: Vec<u8> = Vec::new();
    let opcode = EntropyInstruction::Initialize.discriminator();
    push_bytes(&mut data, opcode.as_slice());
    push_bytes(&mut data, admin.as_slice());
    push_u64_le(&mut data, pyth_fee_lamports);
    push_bytes(&mut data, default_provider.as_slice());
    let mut accounts: Vec<InstructionAccount> = Vec::new();
    accounts.push(InstructionAccount { pubkey: payer, is_writable: true, is_signer: true });
    accounts.push(InstructionAccount { pubkey: config, is_writable: true, is_signer: false });
    accounts.push(InstructionAccount { pubkey: pyth_fee_vault, is_writable: true, is_signer: false });
    accounts.push(
        InstructionAccount { pubkey: system_program_id(), is_writable: false, is_signer: false },
    );
    proof {
        lemma_auto_spec_u64_to_from_le_bytes();
        assert(data@ =~= spec_u64_to_le_bytes(0) + initialize_args_bytes(
            InitializeArgs { admin, pyth_fee_lamports, default_provider },
        ));
        let payload = data@.subrange(8, data@.len() as int);
        assert(data@.subrange(0, 8) =~= spec_u64_to_le_bytes(0));
        assert(payload.subrange(0, 32) =~= admin@);
        assert(payload.subrange(32, 40) =~= spec_u64_to_le_bytes(pyth_fee_lamports));
        assert(payload.subrange(40, 72) =~= default_provider@);
    }
    Some(OwnedInstruction { program_id, accounts, data })
}

/// The `RegisterProvider` instruction: the opcode and the arguments; the
/// authority signing and writable, the provider and its vault writable,
/// the system program. `None` where an address cannot be derived.
pub fn build_register_provider_ix(
    program_id: PubkeyBytes,
    provider_authority: PubkeyBytes,
    args: RegisterProviderArgs,
) -> (r: Option<OwnedInstruction>)
    ensures
        r.is_some() <==> (pda2(provider_seed_spec(), provider_authority@, program_id@).is_some()
            && pda2(provider_vault_seed_spec(), provider_authority@, program_id@).is_some()),
        r matches Some(ix) ==> {
            &&& ix.program_id == program_id
            &&& ix.data@ == spec_u64_to_le_bytes(1) + register_provider_args_bytes(args)
            &&& reads_as(ix.data@, EntropyInstruction::RegisterProvider)
            &&& register_provider_args_in(args, ix.data@.subrange(8, ix.data@.len() as int))
            &&& ix.accounts@.len() == 4
            &&& ix.accounts@[0] == writable(provider_authority, true)
            &&& ix.accounts@[1].is_writable && !ix.accounts@[1].is_signer && is_address(
                ix.accounts@[1].pubkey@,
                pda2(provider_seed_spec(), provider_authority@, program_id@),
            )
            &&& ix.accounts@[2].is_writable && !ix.accounts@[2].is_signer && is_address(
                ix.accounts@[2].pubkey@,
                pda2(provider_vault_seed_spec(), provider_authority@, program_id@),
            )
            &&& !ix.accounts@[3].is_writable && !ix.accounts@[3].is_signer
                && ix.accounts@[3].pubkey@ == system_program_id_spec()
        },
{
    let provider_account = match provider_pda(&program_id, &provider_authority) {
        Some((address, _)) => address,
        None => { return None; },
    };
    let provider_vault = match provider_vault_pda(&program_id, &provider_authority) {
        Some((address, _)) => address,
        None => { return None; },
    };
    let mut data: Vec<u8> = Vec::new();
    let opcode = EntropyInstruction::RegisterProvider.discriminator();
    push_bytes(&mut data, opcode.as_slice());
    push_u64_le(&mut data, args.fee_lamports);
    push_bytes(&mut data, args.commitment.as_slice());
    push_u16_le(&mut data, args.commitment_metadata_len);
    push_bytes(&mut data, args.commitment_metadata.as_slice());
    push_zeros(&mut data, 6);
    push_u64_le(&mut data, args.chain_length);
    push_u16_le(&mut data, args.uri_len);
    push_bytes(&mut data, args.uri.as_slice());
    push_zeros(&mut data, 6);
    let mut accounts: Vec<InstructionAccount> = Vec::new();
    accounts.push(
        InstructionAccount { pubkey: provider_authority, is_writable: true, is_signer: true },
    );
    accounts.push(
        InstructionAccount { pubkey: provider_account, is_writable: true, is_signer: false },
    );
    accounts.push(InstructionAccount { pubkey: provider_vault, is_writable: true, is_signer: false });
    accounts.push(
        InstructionAccount { pubkey: system_program_id(), is_writable: false, is_signer: false },
    );
    proof {
        lemma_auto_spec_u64_to_from_le_bytes();
        lemma_auto_spec_u16_to_from_le_bytes();
        assert(data@ =~= spec_u64_to_le_bytes(1) + register_provider_args_bytes(args));
        let payload = data@.subrange(8, data@.len() as int);
        assert(data@.subrange(0, 8) =~= spec_u64_to_le_bytes(1));
        assert(payload.subrange(0, 8) =~= spec_u64_to_le_bytes(args.fee_lamports));
        assert(payload.subrange(8, 40) =~= args.commitment@);
        assert(payload.subrange(40, 42) =~= spec_u16_to_le_bytes(args.commitment_metadata_len));
        assert(payload.subrange(42, 106) =~= args.commitment_metadata@);
        assert(payload.subrange(112, 120) =~= spec_u64_to_le_bytes(args.chain_length));
        assert(payload.subrange(120, 122) =~= spec_u16_to_le_bytes(args.uri_len));
        assert(payload.subrange(122, 378) =~= args.uri@);
    }
    Some(OwnedInstruction { program_id, accounts, data })
}

/// The account that a reveal lists at position `j`: the request and the
/// provider writable, the slot hashes, the program's signer, the
/// callback program and the system program read-only, the payer
/// writable, then the callback accounts with the rights their entries
/// declare. None of them signs but a callback account that is declared
/// to.
pub open spec fn reveal_account_at(
    request_account: PubkeyBytes,
    provider_account: PubkeyBytes,
    entropy_signer: PubkeyBytes,
    callback_program: PubkeyBytes,
    payer: PubkeyBytes,
    callback_accounts: Seq<CallbackMeta>,
    j: int,
) -> InstructionAccount {
    if j == 0 {
        writable(request_account, false)
    } else if j == 1 {
        writable(provider_account, false)
    } else if j == 2 {
        InstructionAccount {
            pubkey: slot_hashes_key(),
            is_writable: false,
            is_signer: false,
        }
    } else if j == 3 {
        readonly(entropy_signer, false)
    } else if j == 4 {
        readonly(callback_program, false)
    } else if j == 5 {
        InstructionAccount { pubkey: system_key(), is_writable: false, is_signer: false }
    } else if j == 6 {
        writable(payer, false)
    } else {
        InstructionAccount {
            pubkey: callback_accounts[j - 7].pubkey,
            is_writable: callback_accounts[j - 7].is_writable == 1,
            is_signer: callback_accounts[j - 7].is_signer == 1,
        }
    }
}

/// The address of the slot hashes sysvar, as an array.
pub open spec fn slot_hashes_key() -> PubkeyBytes {
    choose|key: PubkeyBytes| key@ == slot_hashes_id_spec()
}

/// The address of the system program, as an array.
pub open spec fn system_key() -> PubkeyBytes {
    choose|key: PubkeyBytes| key@ == system_program_id_spec()
}

/// The `RevealWithCallback` instruction: the opcode and the two
/// contributions, and the accounts of a reveal.
pub fn build_reveal_with_callback_ix(
    program_id: PubkeyBytes,
    request_account: PubkeyBytes,
    provider_account: PubkeyBytes,
    entropy_signer: PubkeyBytes,
    callback_program: PubkeyBytes,
    payer: PubkeyBytes,
    callback_accounts: &[CallbackMeta],
    args: RevealArgs,
) -> (ix: OwnedInstruction)
    ensures
        ix.program_id == program_id,
        ix.data@ == spec_u64_to_le_bytes(5) + args.user_contribution@
            + args.provider_contribution@,
        reads_as(ix.data@, EntropyInstruction::RevealWithCallback),
        reveal_args_in(args, ix.data@.subrange(8, ix.data@.len() as int)),
        ix.accounts@.len() == 7 + callback_accounts@.len(),
        forall|j: int|
            0 <= j < ix.accounts@.len() ==> #[trigger] ix.accounts@[j] == reveal_account_at(
                request_account,
                provider_account,
                entropy_signer,
                callback_program,
                payer,
                callback_accounts@,
                j,
            ),
{
    let mut data: Vec<u8> = Vec::new();
    let opcode = EntropyInstruction::RevealWithCallback.discriminator();
    push_bytes(&mut data, opcode.as_slice());
    push_bytes(&mut data, args.user_contribution.as_slice());
    push_bytes(&mut data, args.provider_contribution.as_slice());
    let slot_hashes = slot_hashes_id();
    let system = system_program_id();
    proof {
        assert(slot_hashes =~= slot_hashes_key());
        assert(system =~= system_key());
        lemma_auto_spec_u64_to_from_le_bytes();
        let payload = data@.subrange(8, data@.len() as int);
        assert(data@.subrange(0, 8) =~= spec_u64_to_le_bytes(5));
        assert(payload.subrange(0, 32) =~= args.user_contribution@);
        assert(payload.subrange(32, 64) =~= args.provider_contribution@);
    }
    let mut accounts: Vec<InstructionAccount> = Vec::new();
    accounts.push(
        InstructionAccount { pubkey: request_account, is_writable: true, is_signer: false },
    );
    accounts.push(
        InstructionAccount { pubkey: provider_account, is_writable: true, is_signer: false },
    );
    accounts.push(InstructionAccount { pubkey: slot_hashes, is_writable: false, is_signer: false });
    accounts.push(
        InstructionAccount { pubkey: entropy_signer, is_writable: false, is_signer: false },
    );
    accounts.push(
        InstructionAccount { pubkey: callback_program, is_writable: false, is_signer: false },
    );
    accounts.push(InstructionAccount { pubkey: system, is_writable: false, is_signer: false });
    accounts.push(InstructionAccount { pubkey: payer, is_writable: true, is_signer: false });
    let mut i: usize = 0;
    while i < callback_accounts.len()
        invariant
            0 <= i <= callback_accounts@.len(),
            accounts@.len() == 7 + i,
            forall|j: int|
                0 <= j < accounts@.len() ==> #[trigger] accounts@[j] == reveal_account_at(
                    request_account,
                    provider_account,
                    entropy_signer,
                    callback_program,
                    payer,
                    callback_accounts@,
                    j,
                ),
        decreases callback_accounts@.len() - i,
    {
        let meta = callback_accounts[i];
        accounts.push(
            InstructionAccount {
                pubkey: meta.pubkey,
                is_writable: meta.is_writable == 1,
                is_signer: meta.is_signer == 1,
            },
        );
        i = i + 1;
    }
    OwnedInstruction { program_id, accounts, data }
}

/// The compute budget that a client asks for its callback: the
/// provider's default where it has one, else 200,000 units.
pub fn callback_compute_units(provider: &Provider) -> (units: u32)
    ensures
        units == if provider.default_compute_unit_limit > 0 {
            provider.default_compute_unit_limit
        } else {
            200000u32
        },
{
    if provider.default_compute_unit_limit > 0 {
        provider.default_compute_unit_limit
    } else {
        DEFAULT_CALLBACK_COMPUTE_UNITS
    }
}

/// Compute budget of a callback to a provider without a default.
pub const DEFAULT_CALLBACK_COMPUTE_UNITS: u32 = 200000;

/// The data that the example requester is called back with, before what
/// the entropy program appends: the callback action and the entropy
/// program's id.
pub fn callback_prefix(program_id: &PubkeyBytes) -> (prefix: Vec<u8>)
    ensures
        prefix@ == seq![CALLBACK_ACTION] + program_id@,
{
    let mut prefix: Vec<u8> = Vec::new();
    prefix.push(CALLBACK_ACTION);
    push_bytes(&mut prefix, program_id.as_slice());
    prefix
}

/// The account that a request through the example requester lists at
/// position `j`: the accounts of the request with their rights, then the
/// requester as callback program and the entropy program.
pub open spec fn requester_account_at(keys: Seq<PubkeyBytes>, j: int) -> InstructionAccount {
    InstructionAccount {
        pubkey: keys[j],
        is_writable: j == 1 || j == 3 || j == 4 || j == 5 || j == 7,
        is_signer: j == 1 || j == 3,
    }
}

/// The request with callback that a client sends to the example
/// requester: the action, then the data for the entropy program; the
/// eleven accounts of the request in order. The payer and the request
/// sign; the requester's signer is signed for by the requester itself.
pub fn build_requester_request_ix(
    requester_program: PubkeyBytes,
    keys: &[PubkeyBytes],
    entropy_request_data: &[u8],
) -> (r: Option<OwnedInstruction>)
    ensures
        r.is_some() <==> keys@.len() == 11,
        r matches Some(ix) ==> {
            &&& ix.program_id == requester_program
            &&& ix.data@ == seq![REQUEST_WITH_CALLBACK_ACTION] + entropy_request_data@
            &&& ix.accounts@.len() == 11
            &&& forall|j: int|
                0 <= j < 11 ==> #[trigger] ix.accounts@[j] == requester_account_at(keys@, j)
        },
{
    if keys.len() != 11 {
        return None;
    }
    let mut data: Vec<u8> = Vec::new();
    data.push(REQUEST_WITH_CALLBACK_ACTION);
    push_bytes(&mut data, entropy_request_data);
    let mut accounts: Vec<InstructionAccount> = Vec::new();
    let mut j: usize = 0;
    while j < 11
        invariant
            0 <= j <= 11,
            keys@.len() == 11,
            accounts@.len() == j,
            forall|k: int| 0 <= k < j ==> #[trigger] accounts@[k] == requester_account_at(keys@, k),
        decreases 11 - j,
    {
        accounts.push(
            InstructionAccount {
                pubkey: keys[j],
                is_writable: j == 1 || j == 3 || j == 4 || j == 5 || j == 7,
                is_signer: j == 1 || j == 3,
            },
        );
        j = j + 1;
    }
    Some(OwnedInstruction { program_id: requester_program, accounts, data })
}

/// The eleven accounts of a request with callback through the example
/// requester, in order: the requester's signer, the payer, the
/// requester, the request, the provider, the provider's vault, the
/// configuration, the protocol's fee vault, the system program, the
/// requester as callback program, and the entropy program. `None` where
/// an address cannot be derived.
pub fn requester_request_keys(
    program_id: &PubkeyBytes,
    requester_program: &PubkeyBytes,
    payer: &PubkeyBytes,
    request_account: &PubkeyBytes,
    provider_account: &PubkeyBytes,
    provider_authority: &PubkeyBytes,
) -> (r: Option<Vec<PubkeyBytes>>)
    ensures
        r.is_some() <==> {
            &&& pda2(requester_signer_seed_spec(), program_id@, requester_program@).is_some()
            &&& pda2(provider_vault_seed_spec(), provider_authority@, program_id@).is_some()
            &&& pda1(config_seed_spec(), program_id@).is_some()
            &&& pda1(pyth_fee_vault_seed_spec(), program_id@).is_some()
        },
        r matches Some(keys) ==> {
            &&& keys@.len() == 11
            &&& is_address(
                keys@[0]@,
                pda2(requester_signer_seed_spec(), program_id@, requester_program@),
            )
            &&& keys@[1] == *payer
            &&& keys@[2] == *requester_program
            &&& keys@[3] == *request_account
            &&& keys@[4] == *provider_account
            &&& is_address(
                keys@[5]@,
                pda2(provider_vault_seed_spec(), provider_authority@, program_id@),
            )
            &&& is_address(keys@[6]@, pda1(config_seed_spec(), program_id@))
            &&& is_address(keys@[7]@, pda1(pyth_fee_vault_seed_spec(), program_id@))
            &&& keys@[8]@ == system_program_id_spec()
            &&& keys@[9] == *requester_program
            &&& keys@[10] == *program_id
        },
{
    let requester_signer = match crate::pda::requester_signer_pda(program_id, requester_program) {
        Some((address, _)) => address,
        None => { return None; },
    };
    let provider_vault = match provider_vault_pda(program_id, provider_authority) {
        Some((address, _)) => address,
        None => { return None; },
    };
    let config = match config_pda(program_id) {
        Some((address, _)) => address,
        None => { return None; },
    };
    let pyth_fee_vault = match pyth_fee_vault_pda(program_id) {
        Some((address, _)) => address,
        None => { return None; },
    };
    let mut keys: Vec<PubkeyBytes> = Vec::new();
    keys.push(requester_signer);
    keys.push(*payer);
    keys.push(*requester_program);
    keys.push(*request_account);
    keys.push(*provider_account);
    keys.push(provider_vault);
    keys.push(config);
    keys.push(pyth_fee_vault);
    keys.push(system_program_id());
    keys.push(*requester_program);
    keys.push(*program_id);
    Some(keys)
}

} // verus!
