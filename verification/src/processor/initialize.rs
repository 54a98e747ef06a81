//! `Initialize`: creates the configuration and the protocol's fee vault.

use vstd::prelude::*;
use vstd::bytes::*;
use crate::accounts::{Config, PubkeyBytes, CONFIG_LEN};
use crate::bytes::{is_zero32, zeros};
use crate::constants::{config_seed_spec, pyth_fee_vault_seed_spec, system_program_id,
    system_program_id_spec};
use crate::discriminator::config_discriminator;
use crate::error::{EntropyError, ProgramError};
use crate::instruction::parse_initialize_args;
use crate::pda::{bump_of, config_pda, is_address, matches_pda, pda1, pyth_fee_vault_pda};
use crate::processor::{invalid_account, invalid_pda, next_account_info};
use crate::runtime::{init_account_plan, init_pda_mut, init_vault_pda, vault_plan, AccountInfo,
    Invocation, SignerSeeds};

verus! {

/// What a successful `Initialize` asks for: the steps for the system
/// program, in order, and the configuration to store.
#[derive(Debug)]
pub struct InitializeOutcome {
    pub plan: Vec<Invocation>,
    pub config: Config,
}

/// The error that `Initialize` fails with, if it does. The accounts are
/// the payer, the configuration, the fee vault and the system program.
pub open spec fn initialize_failure(
    program_id: PubkeyBytes,
    accounts: Seq<AccountInfo>,
    data: Seq<u8>,
) -> Option<ProgramError> {
    if data.len() != 72 {
        Some(ProgramError::InvalidInstructionData)
    } else if data.subrange(0, 32) == zeros(32) || data.subrange(40, 72) == zeros(32) {
        Some(ProgramError::InvalidArgument)
    } else if accounts.len() < 4 {
        Some(ProgramError::NotEnoughAccountKeys)
    } else if !accounts[0].is_signer {
        Some(ProgramError::MissingRequiredSignature)
    } else if !accounts[0].is_writable || !accounts[1].is_writable || !accounts[2].is_writable {
        Some(invalid_account())
    } else if accounts[3].key@ != system_program_id_spec() {
        Some(invalid_account())
    } else if !is_address(accounts[1].key@, pda1(config_seed_spec(), program_id@)) {
        Some(invalid_pda())
    } else if !is_address(accounts[2].key@, pda1(pyth_fee_vault_seed_spec(), program_id@)) {
        Some(invalid_pda())
    } else if !accounts[1].is_blank_spec() || !accounts[2].is_blank_spec() {
        Some(invalid_account())
    } else {
        None
    }
}

/// Whether `config` is the configuration that `Initialize` writes for the
/// payload `data`: the payload's fields, no proposed admin, a zero seed.
pub open spec fn initial_config(config: Config, program_id: PubkeyBytes, data: Seq<u8>) -> bool {
    &&& config.discriminator@ == spec_u64_to_le_bytes(0)
    &&& config.admin@ == data.subrange(0, 32)
    &&& config.pyth_fee_lamports == spec_u64_from_le_bytes(data.subrange(32, 40))
    &&& config.default_provider@ == data.subrange(40, 72)
    &&& config.proposed_admin@ == zeros(32)
    &&& config.seed@ == zeros(32)
    &&& config.bump == bump_of(pda1(config_seed_spec(), program_id@))
}

/// Whether `r` is what `Initialize` results in: its failure, or the steps
/// that create the configuration account and keep up the fee vault,
/// with the configuration to store.
pub open spec fn initialize_result(
    program_id: PubkeyBytes,
    accounts: Seq<AccountInfo>,
    data: Seq<u8>,
    config_rent: u64,
    vault_rent: u64,
    r: Result<InitializeOutcome, ProgramError>,
) -> bool {
    match initialize_failure(program_id, accounts, data) {
        Some(error) => r matches Err(e) && e == error,
        None => {
            &&& r matches Ok(outcome)
            &&& outcome.plan@ == init_account_plan(
                program_id,
                accounts[0].key,
                accounts[1],
                SignerSeeds::Config { bump: bump_of(pda1(config_seed_spec(), program_id@)) },
                152,
                config_rent,
            ) + vault_plan(accounts[0].key, accounts[2], vault_rent)
            &&& initial_config(outcome.config, program_id, data)
        },
    }
}

/// Processes `Initialize`. `config_rent` and `vault_rent` are the
/// rent-exempt minimums for an account of the configuration's size and
/// for one without data.
pub fn process_initialize(
    program_id: &PubkeyBytes,
    accounts: &[AccountInfo],
    data: &[u8],
    config_rent: u64,
    vault_rent: u64,
) -> (r: Result<InitializeOutcome, ProgramError>)
    ensures
        initialize_result(*program_id, accounts@, data@, config_rent, vault_rent, r),
{
    let args = match parse_initialize_args(data) {
        Ok(args) => args,
        Err(e) => { return Err(e); },
    };
    if is_zero32(&args.admin) || is_zero32(&args.default_provider) {
        return Err(ProgramError::InvalidArgument);
    }
    let payer = match next_account_info(accounts, 0) {
        Ok(a) => a,
        Err(e) => { return Err(e); },
    };
    let config_account = match next_account_info(accounts, 1) {
        Ok(a) => a,
        Err(e) => { return Err(e); },
    };
    let pyth_fee_vault = match next_account_info(accounts, 2) {
        Ok(a) => a,
        Err(e) => { return Err(e); },
    };
    let system_program_account = match next_account_info(accounts, 3) {
        Ok(a) => a,
        Err(e) => { return Err(e); },
    };
    if !payer.is_signer {
        return Err(ProgramError::MissingRequiredSignature);
    }
    if !payer.is_writable || !config_account.is_writable || !pyth_fee_vault.is_writable {
        return Err(EntropyError::InvalidAccount.program_error());
    }
    if !system_program_account.has_key(&system_program_id()) {
        return Err(EntropyError::InvalidAccount.program_error());
    }
    let config_bump = match matches_pda(&config_account.key, &config_pda(program_id)) {
        Some(bump) => bump,
        None => { return Err(EntropyError::InvalidPda.program_error()); },
    };
    if matches_pda(&pyth_fee_vault.key, &pyth_fee_vault_pda(program_id)).is_none() {
        return Err(EntropyError::InvalidPda.program_error());
    }
    let mut plan: Vec<Invocation> = Vec::new();
    match init_pda_mut(
        &mut plan,
        program_id,
        &payer.key,
        config_account,
        SignerSeeds::Config { bump: config_bump },
        CONFIG_LEN as u64,
        config_rent,
    ) {
        Ok(()) => {},
        Err(e) => { return Err(e); },
    }
    match init_vault_pda(&mut plan, &payer.key, pyth_fee_vault, vault_rent) {
        Ok(()) => {},
        Err(e) => { return Err(e); },
    }
    let config = Config {
        discriminator: config_discriminator(),
        admin: args.admin,
        pyth_fee_lamports: args.pyth_fee_lamports,
        default_provider: args.default_provider,
        proposed_admin: crate::bytes::zero_array::<32>(),
        seed: crate::bytes::zero_array::<32>(),
        bump: config_bump,
    };
    Ok(InitializeOutcome { plan, config })
}

} // verus!
