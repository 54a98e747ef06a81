use entropy::accounts::{
    Account, CallbackMeta, Config, Provider, Request, CALLBACK_META_LEN, CONFIG_LEN, PROVIDER_LEN,
    REQUEST_LEN,
};
use entropy::bytes::{array_eq, bytes_eq, is_zero32};
use entropy::client::{build_register_args, build_register_args_with_metadata};
use entropy::constants::{
    config_seed, entropy_signer_seed, provider_seed, provider_vault_seed, pyth_fee_vault_seed,
    request_seed, requester_signer_seed, system_program_id,
};
use entropy::discriminator::{
    account_discriminator, config_discriminator, provider_discriminator, request_discriminator,
};
use entropy::error::{EntropyError, ProgramError};
use entropy::hashing::{hash_one, hash_pair, hash_provider_commitment, hash_triple};
use entropy::instruction::{
    build_request_with_callback_data, parse_initialize_args, parse_register_provider_args,
    parse_request_args, parse_request_with_callback_args, parse_reveal_args, read_array_32,
    read_bytes, read_callback_meta, read_u32, read_u8, EntropyInstruction,
};
use entropy::observation::{
    collect_compiled_observation, collect_request_observation, observe, parse_request_observations,
    parse_user_randomness, CompiledInstruction, UiInstruction,
};
use entropy::pda::{
    config_pda, entropy_signer_pda, provider_pda, provider_vault_pda, pyth_fee_vault_pda,
    request_pda, requester_signer_pda,
};
use entropy::processor::register_provider::{blank_provider, register};
use entropy::processor::request::request_helper;
use entropy::processor::request_with_callback::{attach_callback, callback_references_program};
use entropy::processor::reveal_with_callback::{
    build_callback_ix, check_revelation, close_request_account, find_slot_hash, judge_revelation,
    slot_hashes_id,
    validate_callback_accounts, SlotHashEntry,
};
use entropy::provider_chain::{
    backoff_delay_ms, build_chain, build_chain_from_seed, build_chain_with, ProviderChain,
    RevealDecision, SkipReason,
};
use entropy::requester::{process_callback, RequesterAction};
use entropy::runtime::{
    init_pda_mut, init_vault_pda, load_account, AccountInfo, Invocation, SignerSeeds, SystemCall,
};
use entropy::scan::SignatureCursor;
use entropy::system_instruction::{allocate, assign, create_account, transfer};
use solana_program::pubkey::Pubkey;

const SHA256_OF_32_ZEROS: [u8; 32] = [
    102, 104, 122, 173, 248, 98, 189, 119, 108, 143, 193, 139, 142, 159, 142, 32, 8, 151, 20, 133,
    110, 226, 51, 179, 144, 42, 89, 29, 13, 95, 41, 37,
];
const H1_SEED: [u8; 32] = [
    75, 176, 111, 142, 78, 58, 119, 21, 210, 1, 213, 115, 208, 170, 66, 55, 98, 229, 93, 171, 214,
    26, 44, 2, 39, 143, 165, 108, 198, 210, 148, 224,
];
const H3_SEED: [u8; 32] = [
    138, 70, 104, 45, 106, 236, 171, 208, 105, 224, 51, 177, 109, 88, 8, 87, 220, 80, 63, 107,
    113, 72, 167, 182, 123, 156, 50, 211, 87, 183, 90, 192,
];

fn sample_provider() -> Provider {
    let mut provider = blank_provider();
    provider.discriminator = provider_discriminator();
    provider.provider_authority = [1u8; 32];
    provider.fee_lamports = 100;
    provider.original_commitment = [2u8; 32];
    provider.original_commitment_sequence_number = 3;
    provider.commitment_metadata_len = 2;
    provider.commitment_metadata[0] = 0xAA;
    provider.commitment_metadata[63] = 0xBB;
    provider.uri_len = 1;
    provider.uri[0] = 0xCC;
    provider.uri[255] = 0xDD;
    provider.end_sequence_number = 0x0102030405060708;
    provider.sequence_number = 9;
    provider.current_commitment = [4u8; 32];
    provider.current_commitment_sequence_number = 5;
    provider.fee_manager = [6u8; 32];
    provider.max_num_hashes = 7;
    provider.default_compute_unit_limit = 1000;
    provider.bump = 254;
    provider
}

fn sample_config() -> Config {
    Config {
        discriminator: config_discriminator(),
        admin: [1u8; 32],
        pyth_fee_lamports: 321,
        default_provider: [2u8; 32],
        proposed_admin: [0u8; 32],
        seed: [0u8; 32],
        bump: 255,
    }
}

#[test]
fn sha256_is_the_standard_digest() {
    assert_eq!(hash_one(&[0u8; 32]), SHA256_OF_32_ZEROS);
    assert_eq!(hash_one(&[7u8; 32]), H1_SEED);
    assert_ne!(hash_one(&[7u8; 32]), [7u8; 32]);
}

#[test]
fn hashing_a_pair_or_a_triple_hashes_the_concatenation() {
    let a = [1u8; 32];
    let b = [2u8; 32];
    let c = [3u8; 32];
    let mut joined = a.to_vec();
    joined.extend_from_slice(&b);
    assert_eq!(hash_pair(&a, &b), solana_sha256_hasher::hash(&joined).to_bytes());
    assert_eq!(hash_pair(&a, &b), solana_sha256_hasher::hashv(&[&a, &b]).to_bytes());
    assert_eq!(hash_triple(&a, &b, &c), solana_sha256_hasher::hashv(&[&a, &b, &c]).to_bytes());
    assert_ne!(hash_pair(&a, &b), hash_pair(&b, &a));
}

#[test]
fn the_provider_commitment_is_the_iterated_hash() {
    assert_eq!(hash_provider_commitment([7u8; 32], 0), [7u8; 32]);
    assert_eq!(hash_provider_commitment([7u8; 32], 1), H1_SEED);
    assert_eq!(hash_provider_commitment([7u8; 32], 3), H3_SEED);
    assert_eq!(hash_provider_commitment(H1_SEED, 2), H3_SEED);
}

#[test]
fn derived_addresses_are_those_of_the_runtime() {
    let program_id = [42u8; 32];
    let authority = [1u8; 32];
    let program = Pubkey::new_from_array(program_id);
    let expect = |seeds: &[&[u8]], under: &Pubkey| {
        let (address, bump) = Pubkey::find_program_address(seeds, under);
        Some((address.to_bytes(), bump))
    };
    assert_eq!(config_pda(&program_id), expect(&[b"config"], &program));
    assert_eq!(pyth_fee_vault_pda(&program_id), expect(&[b"pyth_fee_vault"], &program));
    assert_eq!(entropy_signer_pda(&program_id), expect(&[b"entropy_signer"], &program));
    assert_eq!(provider_pda(&program_id, &authority), expect(&[b"provider", &authority], &program));
    assert_eq!(
        provider_vault_pda(&program_id, &authority),
        expect(&[b"provider_vault", &authority], &program)
    );
    assert_eq!(
        request_pda(&program_id, &authority, 258),
        expect(&[b"request", &authority, &258u64.to_le_bytes()], &program)
    );
    let requester = [77u8; 32];
    assert_eq!(
        requester_signer_pda(&program_id, &requester),
        expect(&[b"requester_signer", &program_id], &Pubkey::new_from_array(requester))
    );
    assert_ne!(config_pda(&program_id).unwrap().0, program_id);
    assert_ne!(config_pda(&program_id), pyth_fee_vault_pda(&program_id));
}

#[test]
fn seeds_are_the_ascii_names() {
    assert_eq!(config_seed(), b"config".to_vec());
    assert_eq!(provider_seed(), b"provider".to_vec());
    assert_eq!(provider_vault_seed(), b"provider_vault".to_vec());
    assert_eq!(request_seed(), b"request".to_vec());
    assert_eq!(pyth_fee_vault_seed(), b"pyth_fee_vault".to_vec());
    assert_eq!(entropy_signer_seed(), b"entropy_signer".to_vec());
    assert_eq!(requester_signer_seed(), b"requester_signer".to_vec());
    assert_eq!(system_program_id(), pinocchio_system::ID.to_bytes());
    assert_eq!(slot_hashes_id(), pinocchio::sysvars::slot_hashes::SLOTHASHES_ID.to_bytes());
}

#[test]
fn signer_seeds_end_in_the_bump() {
    assert_eq!(SignerSeeds::Unsigned.to_bytes(), Vec::<Vec<u8>>::new());
    assert_eq!(SignerSeeds::Config { bump: 9 }.to_bytes(), vec![b"config".to_vec(), vec![9]]);
    assert_eq!(
        SignerSeeds::Provider { authority: [1u8; 32], bump: 8 }.to_bytes(),
        vec![b"provider".to_vec(), vec![1u8; 32], vec![8]]
    );
    assert_eq!(
        SignerSeeds::EntropySigner { bump: 7 }.to_bytes(),
        vec![b"entropy_signer".to_vec(), vec![7]]
    );
}

#[test]
fn discriminators_are_little_endian_ordinals() {
    assert_eq!(account_discriminator(0x0102), [2, 1, 0, 0, 0, 0, 0, 0]);
    assert_eq!(config_discriminator(), [0u8; 8]);
    assert_eq!(provider_discriminator(), [1, 0, 0, 0, 0, 0, 0, 0]);
    assert_eq!(request_discriminator(), [2, 0, 0, 0, 0, 0, 0, 0]);
    assert_eq!(Config::discriminator(), config_discriminator());
    assert_eq!(Provider::discriminator(), provider_discriminator());
    assert_eq!(Request::discriminator(), request_discriminator());
    assert_eq!(Config::len(), 152);
    assert_eq!(Provider::len(), 520);
    assert_eq!(Request::len(), 1040);
    assert_eq!((CONFIG_LEN, PROVIDER_LEN, REQUEST_LEN, CALLBACK_META_LEN), (152, 520, 1040, 34));
}

#[test]
fn instruction_opcodes_round_trip() {
    let all = [
        (EntropyInstruction::Initialize, 0u64),
        (EntropyInstruction::RegisterProvider, 1),
        (EntropyInstruction::Request, 2),
        (EntropyInstruction::RequestWithCallback, 3),
        (EntropyInstruction::Reveal, 4),
        (EntropyInstruction::RevealWithCallback, 5),
        (EntropyInstruction::AdvanceProviderCommitment, 6),
        (EntropyInstruction::UpdateProviderConfig, 7),
        (EntropyInstruction::WithdrawProviderFees, 8),
        (EntropyInstruction::Governance, 9),
    ];
    for (instruction, opcode) in all {
        assert_eq!(instruction.opcode(), opcode);
        assert_eq!(instruction.discriminator(), opcode.to_le_bytes());
        let mut data = instruction.discriminator().to_vec();
        data.extend_from_slice(&[1, 2, 3]);
        assert_eq!(EntropyInstruction::parse(&data), Ok((instruction, &[1u8, 2, 3][..])));
        assert_eq!(EntropyInstruction::parse(&data[..8]), Ok((instruction, &[][..])));
    }
    let invalid = EntropyError::InvalidInstruction.program_error();
    assert_eq!(invalid, ProgramError::Custom(0));
    assert_eq!(EntropyInstruction::parse(&10u64.to_le_bytes()), Err(invalid));
    assert_eq!(EntropyInstruction::parse(&[3, 0, 0, 0, 0, 0, 0, 1]), Err(invalid));
    assert_eq!(EntropyInstruction::parse(&[0u8; 7]), Err(invalid));
    assert_eq!(EntropyInstruction::parse(&[]), Err(invalid));
}

#[test]
fn error_codes_and_texts_are_stable() {
    let all = [
        (EntropyError::InvalidInstruction, 0u32, "invalid instruction"),
        (EntropyError::InvalidAccount, 1, "invalid account"),
        (EntropyError::InvalidPda, 2, "invalid PDA"),
        (EntropyError::NotImplemented, 3, "not implemented"),
        (EntropyError::OutOfRandomness, 4, "out of randomness"),
        (EntropyError::LastRevealedTooOld, 5, "last revealed too old"),
        (EntropyError::IncorrectRevelation, 6, "incorrect revelation"),
        (EntropyError::BlockhashUnavailable, 7, "blockhash unavailable"),
        (EntropyError::InvalidRevealCall, 8, "invalid reveal call"),
        (EntropyError::CallbackComputeUnitLimitExceeded, 9, "callback exceeded compute unit limit"),
    ];
    for (error, code, text) in all {
        assert_eq!(error.code(), code);
        assert_eq!(error.message(), text);
        assert_eq!(error.program_error(), ProgramError::Custom(code));
        assert_eq!(EntropyError::from_code(code), Some(error));
        assert_eq!(ProgramError::from(error), ProgramError::Custom(code));
    }
    assert_eq!(EntropyError::from_code(10), None);
}

#[test]
fn provider_fee_follows_the_compute_budget() {
    let mut provider = sample_provider();
    provider.fee_lamports = 100;
    provider.default_compute_unit_limit = 1000;
    assert_eq!(provider.calculate_provider_fee(0), Ok(100));
    assert_eq!(provider.calculate_provider_fee(1000), Ok(100));
    assert_eq!(provider.calculate_provider_fee(1001), Ok(100));
    assert_eq!(provider.calculate_provider_fee(1010), Ok(101));
    assert_eq!(provider.calculate_provider_fee(2500), Ok(250));
    assert_eq!(provider.calculate_provider_fee(u32::MAX), Ok(100 + (u32::MAX as u64 - 1000) * 100 / 1000));
    provider.default_compute_unit_limit = 0;
    assert_eq!(provider.calculate_provider_fee(u32::MAX), Ok(100));
    provider.default_compute_unit_limit = 1;
    provider.fee_lamports = u64::MAX;
    assert_eq!(provider.calculate_provider_fee(3), Err(ProgramError::InvalidArgument));
    assert_eq!(provider.calculate_provider_fee(1), Ok(u64::MAX));
    provider.fee_lamports = u64::MAX / 2 + 1;
    assert_eq!(provider.calculate_provider_fee(2), Err(ProgramError::InvalidArgument));
    provider.fee_lamports = u64::MAX / 2;
    assert_eq!(provider.calculate_provider_fee(2), Ok(u64::MAX - 1));
}

#[test]
fn fixed_size_arguments_are_read_at_their_offsets() {
    let mut data = vec![0u8; 72];
    data[..32].copy_from_slice(&[1u8; 32]);
    data[32..40].copy_from_slice(&1234u64.to_le_bytes());
    data[40..].copy_from_slice(&[2u8; 32]);
    let args = parse_initialize_args(&data).unwrap();
    assert_eq!((args.admin, args.pyth_fee_lamports, args.default_provider), ([1u8; 32], 1234, [2u8; 32]));
    assert!(matches!(parse_initialize_args(&data[..71]), Err(ProgramError::InvalidInstructionData)));
    data.push(0);
    assert!(matches!(parse_initialize_args(&data), Err(ProgramError::InvalidInstructionData)));

    let mut data = vec![0u8; 384];
    data[..8].copy_from_slice(&42u64.to_le_bytes());
    data[8..40].copy_from_slice(&[3u8; 32]);
    data[40..42].copy_from_slice(&4u16.to_le_bytes());
    data[42..46].copy_from_slice(b"meta");
    data[106..112].copy_from_slice(&[0xFF; 6]);
    data[112..120].copy_from_slice(&3u64.to_le_bytes());
    data[120..122].copy_from_slice(&3u16.to_le_bytes());
    data[122..125].copy_from_slice(b"uri");
    let args = parse_register_provider_args(&data).unwrap();
    assert_eq!(args.fee_lamports, 42);
    assert_eq!(args.commitment, [3u8; 32]);
    assert_eq!(args.commitment_metadata_len, 4);
    assert_eq!(&args.commitment_metadata[..4], b"meta");
    assert_eq!(args.chain_length, 3);
    assert_eq!(args.uri_len, 3);
    assert_eq!(&args.uri[..3], b"uri");
    assert!(matches!(parse_register_provider_args(&data[..383]), Err(ProgramError::InvalidInstructionData)));

    let mut data = vec![0u8; 40];
    data[..32].copy_from_slice(&[9u8; 32]);
    data[32] = 1;
    data[33] = 0xEE;
    data[36..].copy_from_slice(&200000u32.to_le_bytes());
    let args = parse_request_args(&data).unwrap();
    assert_eq!((args.user_commitment, args.use_blockhash, args.compute_unit_limit), ([9u8; 32], 1, 200000));
    assert!(matches!(parse_request_args(&data[..39]), Err(ProgramError::InvalidInstructionData)));

    let mut data = vec![5u8; 64];
    data[32..].copy_from_slice(&[6u8; 32]);
    let args = parse_reveal_args(&data).unwrap();
    assert_eq!((args.user_contribution, args.provider_contribution), ([5u8; 32], [6u8; 32]));
    assert!(matches!(parse_reveal_args(&data[..63]), Err(ProgramError::InvalidInstructionData)));
}

#[test]
fn cursor_readers_advance_only_on_success() {
    let data = [1u8, 2, 3, 4, 5];
    let mut cursor = 1usize;
    assert_eq!(read_u8(&data, &mut cursor), Ok(2));
    assert_eq!(cursor, 2);
    assert_eq!(read_u32(&data, &mut cursor), Err(ProgramError::InvalidInstructionData));
    assert_eq!(cursor, 2);
    cursor = 1;
    assert_eq!(read_u32(&data, &mut cursor), Ok(u32::from_le_bytes([2, 3, 4, 5])));
    assert_eq!(cursor, 5);
    assert_eq!(read_u8(&data, &mut cursor), Err(ProgramError::InvalidInstructionData));
    assert_eq!(read_bytes(&data, &mut cursor, 0), Ok(5));
    cursor = 9;
    assert_eq!(read_bytes(&data, &mut cursor, 0), Err(ProgramError::InvalidInstructionData));
    let long = [7u8; 33];
    cursor = 1;
    assert_eq!(read_array_32(&long, &mut cursor), Ok([7u8; 32]));
    assert_eq!(cursor, 33);
    cursor = 2;
    assert_eq!(read_array_32(&long, &mut cursor), Err(ProgramError::InvalidInstructionData));
    let mut meta = [8u8; 34];
    meta[32] = 1;
    meta[33] = 0;
    cursor = 0;
    let read = read_callback_meta(&meta, &mut cursor).unwrap();
    assert_eq!((read.pubkey, read.is_signer, read.is_writable, cursor), ([8u8; 32], 1, 0, 34));
    meta[33] = 2;
    cursor = 0;
    assert!(matches!(read_callback_meta(&meta, &mut cursor), Err(ProgramError::InvalidInstructionData)));
}

#[test]
fn callback_payload_round_trips() {
    let metas = vec![
        CallbackMeta { pubkey: [1u8; 32], is_signer: 0, is_writable: 1 },
        CallbackMeta { pubkey: [2u8; 32], is_signer: 1, is_writable: 0 },
    ];
    let data = build_request_with_callback_data([9u8; 32], 200000, &metas, &[0xCB, 1, 2]);
    assert_eq!(data.len(), 8 + 32 + 4 + 4 + 2 * 34 + 4 + 3);
    assert_eq!(&data[..8], &3u64.to_le_bytes());
    assert_eq!(&data[40..44], &200000u32.to_le_bytes());
    assert_eq!(&data[44..48], &2u32.to_le_bytes());
    assert_eq!(data[48 + 32..48 + 34], [0, 1]);
    assert_eq!(&data[116..120], &3u32.to_le_bytes());
    let args = parse_request_with_callback_args(&data[8..]).unwrap();
    assert_eq!(args.user_randomness, [9u8; 32]);
    assert_eq!(args.compute_unit_limit, 200000);
    assert_eq!(args.callback_accounts.len(), 2);
    assert_eq!(args.callback_accounts[1].pubkey, [2u8; 32]);
    assert_eq!(args.callback_accounts[1].is_signer, 1);
    assert_eq!(args.callback_accounts[0].is_writable, 1);
    assert_eq!(args.callback_ix_data, vec![0xCB, 1, 2]);
    assert!(matches!(
        parse_request_with_callback_args(&data[8..data.len() - 1]),
        Err(ProgramError::InvalidInstructionData)
    ));
    assert!(matches!(parse_request_with_callback_args(&data[8..47]), Err(ProgramError::InvalidInstructionData)));
    let empty = build_request_with_callback_data([9u8; 32], 0, &[], &[]);
    let args = parse_request_with_callback_args(&empty[8..]).unwrap();
    assert!(args.callback_accounts.is_empty() && args.callback_ix_data.is_empty());
    let full = build_request_with_callback_data([9u8; 32], 0, &vec![metas[0]; 16], &[5u8; 256]);
    let args = parse_request_with_callback_args(&full[8..]).unwrap();
    assert_eq!((args.callback_accounts.len(), args.callback_ix_data.len()), (16, 256));
}

#[test]
fn records_round_trip_through_their_bytes() {
    let provider = sample_provider();
    let bytes = provider.to_bytes();
    assert_eq!(bytes.len(), 520);
    assert_eq!(&bytes[..8], &1u64.to_le_bytes());
    assert_eq!(&bytes[8..40], &[1u8; 32]);
    assert_eq!(&bytes[40..48], &100u64.to_le_bytes());
    assert_eq!(&bytes[88..90], &2u16.to_le_bytes());
    assert_eq!((bytes[90], bytes[153]), (0xAA, 0xBB));
    assert_eq!((bytes[156], bytes[411]), (0xCC, 0xDD));
    assert_eq!(&bytes[412..416], &[0u8; 4]);
    assert_eq!(&bytes[416..424], &[8, 7, 6, 5, 4, 3, 2, 1]);
    assert_eq!(&bytes[424..432], &9u64.to_le_bytes());
    assert_eq!(&bytes[504..508], &7u32.to_le_bytes());
    assert_eq!(&bytes[508..512], &1000u32.to_le_bytes());
    assert_eq!(bytes[512], 254);
    let read = Provider::from_bytes(&bytes).unwrap();
    assert_eq!(read.to_bytes(), bytes);
    assert_eq!(read.end_sequence_number, 0x0102030405060708);
    assert_eq!(read.fee_manager, [6u8; 32]);
    assert!(Provider::from_bytes(&bytes[..519]).is_none());

    let config = sample_config();
    let bytes = config.to_bytes();
    assert_eq!(bytes.len(), 152);
    assert_eq!(&bytes[40..48], &321u64.to_le_bytes());
    assert_eq!(bytes[144], 255);
    let read = Config::from_bytes(&bytes).unwrap();
    assert_eq!((read.admin, read.pyth_fee_lamports, read.default_provider, read.bump), ([1u8; 32], 321, [2u8; 32], 255));
    assert!(Config::from_bytes(&[0u8; 153]).is_none());

    let mut request = Request::from_bytes(&[0u8; 1040]).unwrap();
    request.discriminator = request_discriminator();
    request.sequence_number = 77;
    request.num_hashes = 3;
    request.use_blockhash = 1;
    request.callback_status = 1;
    request.compute_unit_limit = 200000;
    request.callback_accounts_len = 2;
    request.callback_accounts[1] = CallbackMeta { pubkey: [5u8; 32], is_signer: 1, is_writable: 0 };
    request.callback_accounts[15] = CallbackMeta { pubkey: [6u8; 32], is_signer: 0, is_writable: 1 };
    request.callback_ix_data_len = 300;
    request.callback_ix_data[255] = 9;
    request.bump = 3;
    let bytes = request.to_bytes();
    assert_eq!(bytes.len(), 1040);
    assert_eq!(&bytes[40..48], &77u64.to_le_bytes());
    assert_eq!(&bytes[48..52], &3u32.to_le_bytes());
    assert_eq!((bytes[192], bytes[193], bytes[232]), (1, 1, 2));
    assert_eq!(&bytes[196..200], &200000u32.to_le_bytes());
    assert_eq!(&bytes[234 + 34..234 + 34 + 32], &[5u8; 32]);
    assert_eq!((bytes[234 + 34 + 32], bytes[234 + 34 + 33]), (1, 0));
    assert_eq!(&bytes[234 + 15 * 34..234 + 15 * 34 + 32], &[6u8; 32]);
    assert_eq!(&bytes[778..780], &300u16.to_le_bytes());
    assert_eq!((bytes[1035], bytes[1036]), (9, 3));
    let read = Request::from_bytes(&bytes).unwrap();
    assert_eq!(read.to_bytes(), bytes);
    assert_eq!(read.callback_accounts[15].is_writable, 1);
    assert!(Request::from_bytes(&bytes[1..]).is_none());
}

fn owned(key: [u8; 32], owner: [u8; 32], data: Vec<u8>) -> AccountInfo {
    AccountInfo { key, owner, lamports: 5, data, is_signer: false, is_writable: true }
}

#[test]
fn loading_checks_owner_size_and_discriminator() {
    let program_id = [42u8; 32];
    let bytes = sample_provider().to_bytes();
    let loaded: Provider = load_account(&owned([1u8; 32], program_id, bytes.clone()), &program_id).unwrap();
    assert_eq!(loaded.sequence_number, 9);
    let invalid = ProgramError::Custom(1);
    assert!(matches!(load_account::<Provider>(&owned([1u8; 32], [43u8; 32], bytes.clone()), &program_id), Err(e) if e == invalid));
    assert!(matches!(load_account::<Provider>(&owned([1u8; 32], program_id, bytes[..519].to_vec()), &program_id), Err(e) if e == invalid));
    let mut wrong = bytes.clone();
    wrong[0] = 2;
    assert!(matches!(load_account::<Provider>(&owned([1u8; 32], program_id, wrong), &program_id), Err(e) if e == invalid));
    assert!(matches!(load_account::<Config>(&owned([1u8; 32], program_id, bytes), &program_id), Err(e) if e == invalid));
    assert!(matches!(load_account::<Config>(&owned([1u8; 32], program_id, sample_config().to_bytes()), &program_id), Ok(_)));
}

#[test]
fn system_instructions_have_the_system_program_layout() {
    let from = [1u8; 32];
    let to = [2u8; 32];
    let owner = [3u8; 32];
    let ix = create_account(&from, &to, 500, 152, &owner);
    assert_eq!(ix.program_id, [0u8; 32]);
    let mut data = 0u32.to_le_bytes().to_vec();
    data.extend_from_slice(&500u64.to_le_bytes());
    data.extend_from_slice(&152u64.to_le_bytes());
    data.extend_from_slice(&owner);
    assert_eq!(ix.data, data);
    assert_eq!(ix.accounts.len(), 2);
    assert!(ix.accounts.iter().all(|account| account.is_signer && account.is_writable));
    assert_eq!((ix.accounts[0].pubkey, ix.accounts[1].pubkey), (from, to));

    let ix = transfer(&from, &to, 7);
    let mut data = 2u32.to_le_bytes().to_vec();
    data.extend_from_slice(&7u64.to_le_bytes());
    assert_eq!(ix.data, data);
    assert!(ix.accounts[0].is_signer && ix.accounts[0].is_writable);
    assert!(!ix.accounts[1].is_signer && ix.accounts[1].is_writable);

    let ix = allocate(&to, 1040);
    let mut data = 8u32.to_le_bytes().to_vec();
    data.extend_from_slice(&1040u64.to_le_bytes());
    assert_eq!(ix.data, data);
    assert_eq!(ix.accounts.len(), 1);

    let ix = assign(&to, &owner);
    let mut data = 1u32.to_le_bytes().to_vec();
    data.extend_from_slice(&owner);
    assert_eq!(ix.data, data);
    let parts = ix.as_instruction();
    assert_eq!((parts.0, parts.1.len(), parts.2), (&[0u8; 32], 1, &data[..]));

    let call = SystemCall::Transfer { from, to, lamports: 7 };
    assert_eq!(call.instruction().data, transfer(&from, &to, 7).data);
    let call = SystemCall::CreateAccount { from, to, lamports: 500, space: 152, owner };
    assert_eq!(call.instruction().data, create_account(&from, &to, 500, 152, &owner).data);
}

#[test]
fn account_creation_takes_one_step_or_three() {
    let program_id = [42u8; 32];
    let payer = [1u8; 32];
    let mut account = owned([2u8; 32], system_program_id(), Vec::new());
    account.lamports = 0;
    let mut plan: Vec<Invocation> = Vec::new();
    init_pda_mut(&mut plan, &program_id, &payer, &account, SignerSeeds::Config { bump: 1 }, 152, 1000).unwrap();
    assert_eq!(plan.len(), 1);
    assert!(matches!(plan[0].call, SystemCall::CreateAccount { lamports: 1000, space: 152, owner, .. } if owner == program_id));
    account.lamports = 1000;
    let mut plan: Vec<Invocation> = Vec::new();
    init_pda_mut(&mut plan, &program_id, &payer, &account, SignerSeeds::Config { bump: 1 }, 152, 1000).unwrap();
    assert_eq!(plan.len(), 2);
    assert!(matches!(plan[0].call, SystemCall::Allocate { space: 152, .. }));
    assert!(matches!(plan[1].call, SystemCall::Assign { .. }));
    account.data = vec![0u8; 1];
    let mut plan: Vec<Invocation> = Vec::new();
    assert_eq!(
        init_pda_mut(&mut plan, &program_id, &payer, &account, SignerSeeds::Unsigned, 152, 1000),
        Err(ProgramError::Custom(1))
    );
    assert!(plan.is_empty());

    let mut vault = owned([3u8; 32], system_program_id(), Vec::new());
    vault.lamports = 400;
    let mut plan: Vec<Invocation> = Vec::new();
    init_vault_pda(&mut plan, &payer, &vault, 1000).unwrap();
    assert!(matches!(plan[0].call, SystemCall::Transfer { lamports: 600, from, to } if from == payer && to == [3u8; 32]));
    vault.lamports = 1000;
    let mut plan: Vec<Invocation> = Vec::new();
    init_vault_pda(&mut plan, &payer, &vault, 1000).unwrap();
    assert!(plan.is_empty());
    vault.owner = program_id;
    assert_eq!(init_vault_pda(&mut plan, &payer, &vault, 1000), Err(ProgramError::Custom(1)));
}

#[test]
fn registration_takes_one_sequence_number() {
    let provider = blank_provider();
    let args = build_register_args([5u8; 32], 1);
    let first = register(&provider, &[1u8; 32], &args, 250).unwrap();
    assert_eq!((first.sequence_number, first.end_sequence_number), (1, 1));
    assert_eq!(first.bump, 250);
    let mut late = sample_provider();
    late.sequence_number = u64::MAX - 2;
    let args = build_register_args([5u8; 32], 2);
    let renewed = register(&late, &[1u8; 32], &args, 0).unwrap();
    assert_eq!(renewed.end_sequence_number, u64::MAX);
    assert_eq!(renewed.sequence_number, u64::MAX - 1);
    assert_eq!(renewed.fee_manager, [6u8; 32]);
    assert_eq!(renewed.max_num_hashes, 7);
    let args = build_register_args([5u8; 32], 3);
    assert!(matches!(register(&late, &[1u8; 32], &args, 0), Err(ProgramError::InvalidArgument)));
    let args = build_register_args([5u8; 32], 0);
    assert!(matches!(register(&provider, &[1u8; 32], &args, 0), Err(ProgramError::InvalidArgument)));
    assert!(build_register_args_with_metadata(0, [0u8; 32], 1, &[0u8; 65], &[]).is_none());
    assert!(build_register_args_with_metadata(0, [0u8; 32], 1, &[], &[0u8; 257]).is_none());
}

#[test]
fn a_request_takes_the_next_sequence_number() {
    let mut provider = sample_provider();
    provider.end_sequence_number = 20;
    provider.max_num_hashes = 0;
    let args = parse_request_args(&{
        let mut data = vec![9u8; 40];
        data[32] = 0;
        data[36..].copy_from_slice(&2500u32.to_le_bytes());
        data
    })
    .unwrap();
    let grant = request_helper(&args, &sample_config(), &provider, &[7u8; 32], &[8u8; 32], &[10u8; 32], 55).unwrap();
    assert_eq!(grant.sequence_number, 9);
    assert_eq!(grant.provider.sequence_number, 10);
    assert_eq!(grant.request.sequence_number, 9);
    assert_eq!(grant.request.num_hashes, 4);
    assert_eq!(grant.provider_fee, 250);
    assert_eq!(grant.pyth_fee, 321);
    assert_eq!(grant.request.compute_unit_limit, 2500);
    assert_eq!(grant.request.payer, [7u8; 32]);
    assert_eq!(grant.request.requester_program_id, [8u8; 32]);
    assert_eq!(grant.request.requester_signer, [10u8; 32]);
    assert_eq!(grant.request.request_slot, 55);
    assert_eq!(grant.request.commitment, hash_pair(&[9u8; 32], &[4u8; 32]));
    provider.sequence_number = 20;
    assert!(matches!(request_helper(&args, &sample_config(), &provider, &[7u8; 32], &[8u8; 32], &[10u8; 32], 55), Err(ProgramError::Custom(4))));
    provider.sequence_number = 19;
    provider.max_num_hashes = 13;
    assert!(matches!(request_helper(&args, &sample_config(), &provider, &[7u8; 32], &[8u8; 32], &[10u8; 32], 55), Err(ProgramError::Custom(5))));
    provider.max_num_hashes = 14;
    assert!(request_helper(&args, &sample_config(), &provider, &[7u8; 32], &[8u8; 32], &[10u8; 32], 55).is_ok());
    provider.sequence_number = 4;
    assert!(matches!(request_helper(&args, &sample_config(), &provider, &[7u8; 32], &[8u8; 32], &[10u8; 32], 55), Err(ProgramError::InvalidArgument)));
}

#[test]
fn callbacks_are_attached_padded() {
    let request = Request::from_bytes(&[0u8; 1040]).unwrap();
    let metas = vec![CallbackMeta { pubkey: [5u8; 32], is_signer: 0, is_writable: 1 }];
    let after = attach_callback(&request, &[8u8; 32], &metas, &[1, 2, 3]).unwrap();
    assert_eq!(after.callback_status, 1);
    assert_eq!(after.callback_program_id, [8u8; 32]);
    assert_eq!(after.callback_accounts_len, 1);
    assert_eq!(after.callback_accounts[0].pubkey, [5u8; 32]);
    assert_eq!(after.callback_accounts[1].pubkey, [0u8; 32]);
    assert_eq!(after.callback_ix_data_len, 3);
    assert_eq!(&after.callback_ix_data[..4], &[1, 2, 3, 0]);
    assert!(matches!(attach_callback(&request, &[8u8; 32], &vec![metas[0]; 17], &[]), Err(ProgramError::Custom(1))));
    assert!(matches!(attach_callback(&request, &[8u8; 32], &metas, &[0u8; 257]), Err(ProgramError::Custom(1))));
    assert!(callback_references_program(&metas, &[5u8; 32]));
    assert!(!callback_references_program(&metas, &[6u8; 32]));
    assert!(!callback_references_program(&[], &[6u8; 32]));
}

#[test]
fn revelations_are_checked_against_the_commitment() {
    let mut request = Request::from_bytes(&[0u8; 1040]).unwrap();
    request.callback_status = 1;
    request.sequence_number = 6;
    request.num_hashes = 2;
    request.request_slot = 17;
    request.commitment = hash_pair(&hash_one(&[9u8; 32]), &H3_SEED);
    let mut provider = sample_provider();
    provider.current_commitment_sequence_number = 4;
    let args = parse_reveal_args(&{
        let mut data = vec![9u8; 64];
        data[32..].copy_from_slice(&H1_SEED);
        data
    })
    .unwrap();
    let revelation = check_revelation(&request, &provider, &args, &[]).unwrap();
    assert_eq!(revelation.random_number, hash_triple(&[9u8; 32], &H1_SEED, &[0u8; 32]));
    assert_eq!(revelation.provider.current_commitment_sequence_number, 6);
    assert_eq!(revelation.provider.current_commitment, H1_SEED);
    provider.current_commitment_sequence_number = 6;
    let revelation = check_revelation(&request, &provider, &args, &[]).unwrap();
    assert_eq!(revelation.provider.current_commitment_sequence_number, 6);
    assert_eq!(revelation.provider.current_commitment, [4u8; 32]);
    request.num_hashes = 1;
    assert!(matches!(check_revelation(&request, &provider, &args, &[]), Err(ProgramError::Custom(6))));
    request.callback_status = 2;
    assert!(matches!(check_revelation(&request, &provider, &args, &[]), Err(ProgramError::Custom(8))));
    request.callback_status = 1;
    request.use_blockhash = 1;
    request.request_slot = 3;
    request.sequence_number = 9;
    let entries = [SlotHashEntry { slot: 3, hash: [1u8; 32] }, SlotHashEntry { slot: 3, hash: [2u8; 32] }];
    let recomputed = request.commitment;
    let (moved, blockhash) = judge_revelation(&request, &provider, &args, &recomputed, &entries).unwrap();
    assert_eq!((moved.current_commitment_sequence_number, moved.current_commitment), (9, H1_SEED));
    assert_eq!(blockhash, [1u8; 32]);
    assert!(matches!(judge_revelation(&request, &provider, &args, &recomputed, &entries[..0]), Err(ProgramError::Custom(7))));
    assert!(matches!(judge_revelation(&request, &provider, &args, &[0u8; 32], &entries), Err(ProgramError::Custom(6))));
    request.use_blockhash = 0;
    let (_, blockhash) = judge_revelation(&request, &provider, &args, &recomputed, &entries).unwrap();
    assert_eq!(blockhash, [0u8; 32]);
    assert_eq!(find_slot_hash(&entries, 3), Some([1u8; 32]));
    assert_eq!(find_slot_hash(&entries, 4), None);
}

#[test]
fn callback_instruction_carries_the_result() {
    let infos = vec![
        AccountInfo { key: [5u8; 32], owner: [0u8; 32], lamports: 0, data: Vec::new(), is_signer: false, is_writable: true },
        AccountInfo { key: [6u8; 32], owner: [0u8; 32], lamports: 0, data: Vec::new(), is_signer: true, is_writable: false },
    ];
    let stored = [0xCBu8, 1, 2, 3];
    let ix = build_callback_ix(&[8u8; 32], &[9u8; 32], &infos, 2, &stored, 77, &[1u8; 32], &[2u8; 32]).unwrap();
    let mut data = vec![0xCBu8, 1];
    data.extend_from_slice(&77u64.to_le_bytes());
    data.extend_from_slice(&[1u8; 32]);
    data.extend_from_slice(&[2u8; 32]);
    assert_eq!(ix.data, data);
    assert_eq!(ix.program_id, [8u8; 32]);
    assert_eq!(ix.accounts.len(), 3);
    assert_eq!((ix.accounts[0].pubkey, ix.accounts[0].is_signer, ix.accounts[0].is_writable), ([9u8; 32], true, false));
    assert_eq!((ix.accounts[1].pubkey, ix.accounts[1].is_signer, ix.accounts[1].is_writable), ([5u8; 32], false, true));
    assert_eq!((ix.accounts[2].pubkey, ix.accounts[2].is_signer, ix.accounts[2].is_writable), ([6u8; 32], true, false));
    assert!(matches!(build_callback_ix(&[8u8; 32], &[9u8; 32], &infos, 5, &stored, 77, &[1u8; 32], &[2u8; 32]), Err(ProgramError::InvalidInstructionData)));

    let mut request = Request::from_bytes(&[0u8; 1040]).unwrap();
    request.callback_accounts[0] = CallbackMeta { pubkey: [5u8; 32], is_signer: 0, is_writable: 1 };
    request.callback_accounts[1] = CallbackMeta { pubkey: [6u8; 32], is_signer: 1, is_writable: 0 };
    assert_eq!(validate_callback_accounts(&request, &infos), Ok(()));
    request.callback_accounts[1].is_signer = 0;
    assert_eq!(validate_callback_accounts(&request, &infos), Err(ProgramError::Custom(1)));
    request.callback_accounts[1] = CallbackMeta { pubkey: [7u8; 32], is_signer: 1, is_writable: 0 };
    assert_eq!(validate_callback_accounts(&request, &infos), Err(ProgramError::Custom(1)));
    assert_eq!(validate_callback_accounts(&request, &infos[..1]), Ok(()));
}

#[test]
fn closing_moves_all_lamports_or_nothing() {
    let mut request = owned([1u8; 32], [42u8; 32], vec![7u8; 10]);
    let mut payer = owned([2u8; 32], [0u8; 32], Vec::new());
    request.lamports = 900;
    payer.lamports = 100;
    assert_eq!(close_request_account(&mut request, &mut payer), Ok(()));
    assert_eq!((request.lamports, payer.lamports), (0, 1000));
    assert_eq!(request.data, vec![0u8; 10]);
    request.lamports = 1;
    payer.lamports = u64::MAX;
    request.data = vec![7u8; 10];
    assert_eq!(close_request_account(&mut request, &mut payer), Err(ProgramError::InvalidArgument));
    assert_eq!((request.lamports, payer.lamports), (1, u64::MAX));
    assert_eq!(request.data, vec![7u8; 10]);
}

#[test]
fn every_chain_value_leads_to_the_commitment() {
    let length = 6usize;
    let (commitment, chain) = build_chain_from_seed([7u8; 32], length);
    assert_eq!(chain.len(), length + 1);
    assert_eq!(chain[0], [7u8; 32]);
    assert_eq!(chain[3], H3_SEED);
    assert_eq!(commitment, chain[length]);
    assert_eq!(commitment, hash_provider_commitment([7u8; 32], length as u32));
    for k in 0..=length {
        assert_eq!(hash_provider_commitment(chain[k], (length - k) as u32), commitment);
    }
    let (commitment, chain) = build_chain_from_seed([7u8; 32], 0);
    assert_eq!((commitment, chain), ([7u8; 32], vec![[7u8; 32]]));
}

#[test]
fn a_chain_is_built_from_the_seed_that_was_given() {
    assert_eq!(build_chain_with(None, 4), None);
    let (commitment, chain) = build_chain_with(Some([7u8; 32]), 3).unwrap();
    assert_eq!(commitment, H3_SEED);
    assert_eq!(chain, vec![[7u8; 32], H1_SEED, hash_one(&H1_SEED), H3_SEED]);
    assert_eq!(build_chain_with(Some([7u8; 32]), 0), Some(([7u8; 32], vec![[7u8; 32]])));
    assert_eq!(build_chain_with(Some([7u8; 32]), 3), Some(build_chain_from_seed([7u8; 32], 3)));
}

#[test]
fn a_random_chain_is_a_chain() {
    let (commitment, chain) = build_chain(4).unwrap();
    assert_eq!(chain.len(), 5);
    assert_eq!(chain[1], hash_one(&chain[0]));
    assert_eq!(commitment, hash_provider_commitment(chain[0], 4));
    let (other, _) = build_chain(4).unwrap();
    assert_ne!(other, commitment);
}

#[test]
fn the_provider_reveals_as_far_back_as_the_request_is_ahead() {
    let (_, chain) = build_chain_from_seed([7u8; 32], 5);
    let mut state = ProviderChain::new(chain.clone(), 10).unwrap();
    assert_eq!(state.current_index, 5);
    assert!(ProviderChain::new(Vec::new(), 0).is_none());
    let authority = [1u8; 32];
    let mut request = Request::from_bytes(&[0u8; 1040]).unwrap();
    request.provider = authority;
    request.callback_status = 1;
    request.sequence_number = 12;
    assert!(matches!(
        state.plan_reveal(&request, &authority),
        RevealDecision::Reveal { provider_contribution, num_hashes: 2 } if provider_contribution == chain[3]
    ));
    request.callback_status = 0;
    assert!(matches!(state.plan_reveal(&request, &authority), RevealDecision::Skip(SkipReason::NotPending)));
    request.callback_status = 1;
    assert!(matches!(state.plan_reveal(&request, &[2u8; 32]), RevealDecision::Skip(SkipReason::OtherProvider)));
    request.sequence_number = 10;
    assert!(matches!(state.plan_reveal(&request, &authority), RevealDecision::Skip(SkipReason::AlreadyRevealed)));
    request.sequence_number = 16;
    assert!(matches!(state.plan_reveal(&request, &authority), RevealDecision::Skip(SkipReason::OutOfRandomness)));
    request.sequence_number = 15;
    assert!(matches!(
        state.plan_reveal(&request, &authority),
        RevealDecision::Reveal { provider_contribution, num_hashes: 5 } if provider_contribution == [7u8; 32]
    ));
    state.record_reveal(2, 12);
    assert_eq!((state.current_index, state.current_sequence), (3, 12));
    request.sequence_number = 13;
    assert!(matches!(
        state.plan_reveal(&request, &authority),
        RevealDecision::Reveal { provider_contribution, num_hashes: 1 } if provider_contribution == chain[2]
    ));
}

#[test]
fn retries_back_off_to_eight_seconds_and_end_after_six() {
    let delays: Vec<Option<u64>> = (0..8).map(backoff_delay_ms).collect();
    assert_eq!(
        delays,
        vec![Some(0), Some(500), Some(1000), Some(2000), Some(4000), Some(8000), None, None]
    );
    assert_eq!(backoff_delay_ms(u32::MAX), None);
}

fn signature(tag: u8) -> [u8; 64] {
    [tag; 64]
}

#[test]
fn polls_give_what_is_new_oldest_first() {
    let mut cursor = SignatureCursor::new();
    assert_eq!(cursor.select_new_signatures(&[]), Vec::<[u8; 64]>::new());
    assert_eq!(cursor.last_seen, None);
    let first = cursor.select_new_signatures(&[signature(3), signature(2), signature(2), signature(1)]);
    assert_eq!(first, vec![signature(1), signature(2), signature(3)]);
    assert_eq!(cursor.last_seen, Some(signature(3)));
    let second = cursor.select_new_signatures(&[signature(5), signature(1), signature(4), signature(3), signature(9)]);
    assert_eq!(second, vec![signature(4), signature(5)]);
    assert_eq!(cursor.last_seen, Some(signature(5)));
    assert_eq!(cursor.processed, vec![signature(3), signature(2), signature(1), signature(5), signature(4)]);
    let third = cursor.select_new_signatures(&[signature(5), signature(6)]);
    assert!(third.is_empty());
    let fourth = cursor.select_new_signatures(&[signature(6), signature(5)]);
    assert_eq!(fourth, vec![signature(6)]);
}

fn compiled(program_id_index: u8, accounts: Vec<u8>, data: &[u8]) -> CompiledInstruction {
    CompiledInstruction { program_id_index, accounts, data: bs58::encode(data).into_string() }
}

#[test]
fn requests_are_observed_in_transactions() {
    let program = [42u8; 32];
    let keys = vec![[1u8; 32], program, [3u8; 32], [4u8; 32], [5u8; 32]];
    let data = build_request_with_callback_data([9u8; 32], 200000, &[], &[]);
    assert_eq!(parse_user_randomness(&data), Some([9u8; 32]));
    assert_eq!(parse_user_randomness(&data[..39]), None);
    let mut other = data.clone();
    other[0] = 2;
    assert_eq!(parse_user_randomness(&other), None);

    let mut observations = Vec::new();
    collect_compiled_observation(&compiled(1, vec![0, 0, 0, 3, 4], &data), &keys, &program, &mut observations);
    assert_eq!(observations.len(), 1);
    assert_eq!(observations[0].request_account, [4u8; 32]);
    assert_eq!(observations[0].provider_account, [5u8; 32]);
    assert_eq!(observations[0].user_randomness, [9u8; 32]);
    collect_compiled_observation(&compiled(0, vec![0, 0, 0, 3, 4], &data), &keys, &program, &mut observations);
    collect_compiled_observation(&compiled(9, vec![0, 0, 0, 3, 4], &data), &keys, &program, &mut observations);
    collect_compiled_observation(&compiled(1, vec![0, 0, 0, 3], &data), &keys, &program, &mut observations);
    collect_compiled_observation(&compiled(1, vec![0, 0, 0, 3, 5], &data), &keys, &program, &mut observations);
    collect_compiled_observation(&compiled(1, vec![0, 0, 0, 3, 4], &other), &keys, &program, &mut observations);
    let not_base58 = CompiledInstruction { program_id_index: 1, accounts: vec![0, 0, 0, 3, 4], data: "0OIl".to_string() };
    collect_compiled_observation(&not_base58, &keys, &program, &mut observations);
    assert_eq!(observations.len(), 1);
    let raw = CompiledInstruction { program_id_index: 1, accounts: vec![0, 0, 0, 3, 4], data: String::from_utf8(data.iter().map(|byte| b'1' + (byte % 9)).collect()).unwrap() };
    collect_compiled_observation(&raw, &keys, &program, &mut observations);
    assert_eq!(observations.len(), 1);
    collect_request_observation(&UiInstruction::Parsed, &keys, &program, &mut observations);
    collect_request_observation(&UiInstruction::Compiled(compiled(1, vec![2, 2, 2, 2, 0], &data)), &keys, &program, &mut observations);
    assert_eq!(observations.len(), 2);
    assert_eq!((observations[1].request_account, observations[1].provider_account), ([3u8; 32], [1u8; 32]));

    assert!(observe(1, &[0, 0, 0, 3, 4], &None, &keys, &program).is_none());
    assert!(observe(1, &[0, 0, 0, 3, 4], &Some(data.clone()), &keys, &program).is_some());

    let top = vec![compiled(1, vec![0, 0, 0, 3, 4], &data), compiled(0, vec![], &[]), compiled(1, vec![0, 0, 0, 2, 0], &data)];
    let inner = vec![UiInstruction::Parsed, UiInstruction::Compiled(compiled(1, vec![0, 0, 0, 0, 2], &data))];
    let all = parse_request_observations(&top, &inner, &keys, &program);
    let accounts: Vec<([u8; 32], [u8; 32])> = all.iter().map(|seen| (seen.request_account, seen.provider_account)).collect();
    assert_eq!(accounts, vec![([4u8; 32], [5u8; 32]), ([3u8; 32], [1u8; 32]), ([1u8; 32], [3u8; 32])]);
}

#[test]
fn the_requester_reads_its_callback() {
    assert_eq!(entropy::requester::process_instruction(&[]), Err(ProgramError::InvalidInstructionData));
    assert_eq!(entropy::requester::process_instruction(&[0, 1]), Ok((RequesterAction::Request, 1)));
    assert_eq!(entropy::requester::process_instruction(&[1]), Ok((RequesterAction::RequestWithCallback, 1)));
    assert_eq!(entropy::requester::process_instruction(&[0xCB, 5]), Ok((RequesterAction::Callback, 1)));
    assert_eq!(entropy::requester::process_instruction(&[9u8; 40]), Ok((RequesterAction::Request, 0)));
    assert_eq!(entropy::requester::process_instruction(&[9u8; 41]), Err(ProgramError::InvalidInstructionData));

    let requester = [77u8; 32];
    let entropy_program = [42u8; 32];
    let signer = entropy_signer_pda(&entropy_program).unwrap().0;
    let accounts = vec![owned(signer, [0u8; 32], Vec::new()), owned([3u8; 32], requester, vec![0u8; 80])];
    let mut data = entropy_program.to_vec();
    data.extend_from_slice(&77u64.to_le_bytes());
    data.extend_from_slice(&[1u8; 32]);
    let mut random = [0u8; 32];
    random[..8].copy_from_slice(&1000u64.to_le_bytes());
    data.extend_from_slice(&random);
    let delivery = process_callback(&requester, &accounts, &data).unwrap();
    assert_eq!(delivery.state.sequence_number, 77);
    assert_eq!(delivery.state.provider, [1u8; 32]);
    assert_eq!(delivery.state.random_number, random);
    assert_eq!(delivery.state.called, 1);
    assert_eq!(delivery.random_value, 1000 % 101);
    assert!(matches!(process_callback(&requester, &accounts, &data[..103]), Err(ProgramError::InvalidInstructionData)));
    assert!(matches!(process_callback(&requester, &accounts[..1], &data), Err(ProgramError::NotEnoughAccountKeys)));
    assert!(matches!(process_callback(&[78u8; 32], &accounts, &data), Err(ProgramError::InvalidAccountData)));
    let mut wrong = accounts.clone();
    wrong[0].key = [9u8; 32];
    assert!(matches!(process_callback(&requester, &wrong, &data), Err(ProgramError::InvalidSeeds)));
}

#[test]
fn byte_helpers_compare_by_content() {
    assert!(bytes_eq(&[1, 2], &[1, 2]));
    assert!(!bytes_eq(&[1, 2], &[1, 3]));
    assert!(!bytes_eq(&[1, 2], &[1]));
    assert!(array_eq(&[4u8; 32], &[4u8; 32]));
    assert!(is_zero32(&[0u8; 32]));
    let mut almost = [0u8; 32];
    almost[31] = 1;
    assert!(!is_zero32(&almost));
}

#[test]
fn the_requester_forwards_requests_under_its_signer() {
    let requester = [77u8; 32];
    let entropy_program = [42u8; 32];
    let (signer, bump) = requester_signer_pda(&entropy_program, &requester).unwrap();
    let mut accounts: Vec<AccountInfo> = (0u8..11).map(|tag| owned([100 + tag; 32], [0u8; 32], Vec::new())).collect();
    accounts[0].key = signer;
    accounts[2].key = requester;
    accounts[9].key = requester;
    accounts[10].key = entropy_program;
    let payload = [5u8; 60];
    let forwarded = entropy::requester::process_request_with_callback(&requester, &accounts, &payload).unwrap();
    assert_eq!(forwarded.instruction.program_id, entropy_program);
    assert_eq!(forwarded.instruction.data, payload.to_vec());
    assert_eq!(forwarded.instruction.accounts.len(), 10);
    let writable: Vec<bool> = forwarded.instruction.accounts.iter().map(|meta| meta.is_writable).collect();
    let signing: Vec<bool> = forwarded.instruction.accounts.iter().map(|meta| meta.is_signer).collect();
    assert_eq!(writable, vec![false, true, false, true, true, true, false, true, false, false]);
    assert_eq!(signing, vec![true, true, false, true, false, false, false, false, false, false]);
    for (meta, account) in forwarded.instruction.accounts.iter().zip(accounts.iter()) {
        assert_eq!(meta.pubkey, account.key);
    }
    assert_eq!(
        forwarded.seeds.to_bytes(),
        vec![b"requester_signer".to_vec(), entropy_program.to_vec(), vec![bump]]
    );
    assert!(matches!(
        entropy::requester::process_request_with_callback(&requester, &accounts[..10], &payload),
        Err(ProgramError::NotEnoughAccountKeys)
    ));
    let mut wrong = accounts.clone();
    wrong[9].key = [1u8; 32];
    assert!(matches!(
        entropy::requester::process_request_with_callback(&requester, &wrong, &payload),
        Err(ProgramError::InvalidArgument)
    ));
    let mut wrong = accounts.clone();
    wrong[0].key = [1u8; 32];
    assert!(matches!(
        entropy::requester::process_request_with_callback(&requester, &wrong, &payload),
        Err(ProgramError::InvalidSeeds)
    ));

    let mut plain = accounts[..9].to_vec();
    plain.push(accounts[10].clone());
    let forwarded = entropy::requester::process_request(&requester, &plain, &[9u8; 40]).unwrap();
    let mut data = 2u64.to_le_bytes().to_vec();
    data.extend_from_slice(&[9u8; 40]);
    assert_eq!(forwarded.instruction.data, data);
    assert_eq!(forwarded.instruction.accounts.len(), 9);
    assert_eq!(forwarded.instruction.program_id, entropy_program);
    assert!(matches!(
        entropy::requester::process_request(&requester, &plain, &[9u8; 39]),
        Err(ProgramError::InvalidInstructionData)
    ));
    plain[2].key = [1u8; 32];
    assert!(matches!(
        entropy::requester::process_request(&requester, &plain, &[9u8; 40]),
        Err(ProgramError::InvalidArgument)
    ));
}

#[test]
fn clients_build_requests_for_the_requester() {
    let program_id = [42u8; 32];
    let requester = [77u8; 32];
    let authority = [1u8; 32];
    let keys = entropy::client::requester_request_keys(&program_id, &requester, &[2u8; 32], &[3u8; 32], &[4u8; 32], &authority).unwrap();
    assert_eq!(keys.len(), 11);
    assert_eq!(keys[0], requester_signer_pda(&program_id, &requester).unwrap().0);
    assert_eq!((keys[1], keys[2], keys[3], keys[4]), ([2u8; 32], requester, [3u8; 32], [4u8; 32]));
    assert_eq!(keys[5], provider_vault_pda(&program_id, &authority).unwrap().0);
    assert_eq!(keys[6], config_pda(&program_id).unwrap().0);
    assert_eq!(keys[7], pyth_fee_vault_pda(&program_id).unwrap().0);
    assert_eq!((keys[8], keys[9], keys[10]), (system_program_id(), requester, program_id));

    let prefix = entropy::client::callback_prefix(&program_id);
    let mut expected = vec![0xCBu8];
    expected.extend_from_slice(&program_id);
    assert_eq!(prefix, expected);
    let data = build_request_with_callback_data([9u8; 32], 200000, &[], &prefix);
    let ix = entropy::client::build_requester_request_ix(requester, &keys, &data).unwrap();
    assert_eq!(ix.program_id, requester);
    assert_eq!(ix.data[0], 1);
    assert_eq!(&ix.data[1..], &data[..]);
    let writable: Vec<bool> = ix.accounts.iter().map(|meta| meta.is_writable).collect();
    let signing: Vec<bool> = ix.accounts.iter().map(|meta| meta.is_signer).collect();
    assert_eq!(writable, vec![false, true, false, true, true, true, false, true, false, false, false]);
    assert_eq!(signing, vec![false, true, false, true, false, false, false, false, false, false, false]);
    assert!(entropy::client::build_requester_request_ix(requester, &keys[..10], &data).is_none());
    assert_eq!(
        entropy::requester::process_instruction(&ix.data),
        Ok((RequesterAction::RequestWithCallback, 1))
    );

    let mut provider = sample_provider();
    assert_eq!(entropy::client::callback_compute_units(&provider), 1000);
    provider.default_compute_unit_limit = 0;
    assert_eq!(entropy::client::callback_compute_units(&provider), 200000);
}

#[test]
fn a_request_declares_at_most_sixteen_callback_accounts() {
    let mut request = Request::from_bytes(&[0u8; 1040]).unwrap();
    request.callback_accounts[0] = CallbackMeta { pubkey: [5u8; 32], is_signer: 0, is_writable: 1 };
    request.callback_accounts[1] = CallbackMeta { pubkey: [6u8; 32], is_signer: 1, is_writable: 0 };
    assert!(request.declared_callback_accounts().is_empty());
    request.callback_accounts_len = 2;
    let declared = request.declared_callback_accounts();
    assert_eq!(declared.len(), 2);
    assert_eq!((declared[0].pubkey, declared[1].pubkey), ([5u8; 32], [6u8; 32]));
    request.callback_accounts_len = 200;
    assert_eq!(request.declared_callback_accounts().len(), 16);
    let seen = entropy::observation::RequestObservation {
        request_account: [1u8; 32],
        provider_account: [2u8; 32],
        user_randomness: [3u8; 32],
    };
    assert!(seen.is_for(&[2u8; 32]));
    assert!(!seen.is_for(&[1u8; 32]));
}
