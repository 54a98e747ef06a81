//! Accounts as the host runtime presents them, and the system-program
//! steps that an instruction asks the runtime to perform.

use vstd::prelude::*;
use vstd::bytes::*;
use crate::accounts::{Account, PubkeyBytes};
use crate::bytes::array_eq;
use crate::constants::{config_seed, config_seed_spec, entropy_signer_seed,
    entropy_signer_seed_spec, provider_seed, provider_seed_spec, requester_signer_seed,
    requester_signer_seed_spec, system_program_id, system_program_id_spec};
use crate::error::{EntropyError, ProgramError};
use crate::system_instruction::{allocate, assign, create_account, transfer, writable_signer,
    InstructionAccount, OwnedInstruction};

verus! {

/// An account as an instruction sees it when it starts.
#[derive(Clone, Debug)]
pub struct AccountInfo {
    pub key: PubkeyBytes,
    pub owner: PubkeyBytes,
    pub lamports: u64,
    pub data: Vec<u8>,
    pub is_signer: bool,
    pub is_writable: bool,
}

impl AccountInfo {
    /// Whether the system program owns the account and it holds no data.
    pub open spec fn is_blank_spec(&self) -> bool {
        self.owner@ == system_program_id_spec() && self.data@.len() == 0
    }

    /// Whether `program` owns the account.
    pub fn owned_by(&self, program: &PubkeyBytes) -> (r: bool)
        ensures
            r == (self.owner@ == program@),
    {
        array_eq(&self.owner, program)
    }

    /// Whether the system program owns the account and it holds no data.
    pub fn is_blank(&self) -> (r: bool)
        ensures
            r == self.is_blank_spec(),
    {
        let system = system_program_id();
        array_eq(&self.owner, &system) && self.data.len() == 0
    }

    /// Whether the account's address is `key`.
    pub fn has_key(&self, key: &PubkeyBytes) -> (r: bool)
        ensures
            r == (self.key@ == key@),
    {
        array_eq(&self.key, key)
    }
}

/// One step for the system program.
#[derive(Clone, Copy, Debug)]
pub enum SystemCall {
    CreateAccount { from: PubkeyBytes, to: PubkeyBytes, lamports: u64, space: u64, owner: PubkeyBytes },
    Transfer { from: PubkeyBytes, to: PubkeyBytes, lamports: u64 },
    Allocate { account: PubkeyBytes, space: u64 },
    Assign { account: PubkeyBytes, owner: PubkeyBytes },
}

/// The seeds that the program signs a step with.
#[derive(Clone, Copy, Debug)]
pub enum SignerSeeds {
    /// The step is not signed by the program.
    Unsigned,
    /// `"config"` and the bump.
    Config { bump: u8 },
    /// `"provider"`, the authority and the bump.
    Provider { authority: PubkeyBytes, bump: u8 },
    /// `"entropy_signer"` and the bump.
    EntropySigner { bump: u8 },
    /// `"requester_signer"`, the entropy program and the bump.
    RequesterSigner { entropy_program: PubkeyBytes, bump: u8 },
}

/// A step together with the seeds it is signed with.
#[derive(Clone, Copy, Debug)]
pub struct Invocation {
    pub call: SystemCall,
    pub seeds: SignerSeeds,
}

impl SignerSeeds {
    /// The seeds as byte strings, in order; none for an unsigned step.
    pub open spec fn bytes_spec(self) -> Seq<Seq<u8>> {
        match self {
            SignerSeeds::Unsigned => Seq::empty(),
            SignerSeeds::Config { bump } => seq![config_seed_spec(), seq![bump]],
            SignerSeeds::Provider { authority, bump } => seq![
                provider_seed_spec(),
                authority@,
                seq![bump],
            ],
            SignerSeeds::EntropySigner { bump } => seq![entropy_signer_seed_spec(), seq![bump]],
            SignerSeeds::RequesterSigner { entropy_program, bump } => seq![
                requester_signer_seed_spec(),
                entropy_program@,
                seq![bump],
            ],
        }
    }

    /// The seeds as byte strings, in order; none for an unsigned step.
    pub fn to_bytes(&self) -> (seeds: Vec<Vec<u8>>)
        ensures
            crate::pda::seeds_view(seeds@) == self.bytes_spec(),
    {
        let mut seeds: Vec<Vec<u8>> = Vec::new();
        match self {
            SignerSeeds::Unsigned => {},
            SignerSeeds::Config { bump } => {
                seeds.push(config_seed());
                seeds.push(vec![*bump]);
            },
            SignerSeeds::Provider { authority, bump } => {
                seeds.push(provider_seed());
                seeds.push(vstd::slice::slice_to_vec(authority.as_slice()));
                seeds.push(vec![*bump]);
            },
            SignerSeeds::EntropySigner { bump } => {
                seeds.push(entropy_signer_seed());
                seeds.push(vec![*bump]);
            },
            SignerSeeds::RequesterSigner { entropy_program, bump } => {
                seeds.push(requester_signer_seed());
                seeds.push(vstd::slice::slice_to_vec(entropy_program.as_slice()));
                seeds.push(vec![*bump]);
            },
        }
        proof {
            match *self {
                SignerSeeds::Unsigned => {},
                SignerSeeds::Config { bump } => {
                    assert(seeds@[1]@ =~= seq![bump]);
                },
                SignerSeeds::Provider { authority, bump } => {
                    assert(seeds@[2]@ =~= seq![bump]);
                },
                SignerSeeds::EntropySigner { bump } => {
                    assert(seeds@[1]@ =~= seq![bump]);
                },
                SignerSeeds::RequesterSigner { entropy_program, bump } => {
                    assert(seeds@[2]@ =~= seq![bump]);
                },
            }
            assert(crate::pda::seeds_view(seeds@) =~= self.bytes_spec());
        }
        seeds
    }
}

impl SystemCall {
    /// The instruction that performs the step.
    pub fn instruction(&self) -> (ix: OwnedInstruction)
        ensures
            ix.program_id@ == system_program_id_spec(),
            match *self {
                SystemCall::CreateAccount { from, to, lamports, space, owner } => ix.data@
                    == spec_u32_to_le_bytes(0) + spec_u64_to_le_bytes(lamports)
                    + spec_u64_to_le_bytes(space) + owner@,
                SystemCall::Transfer { from, to, lamports } => ix.data@ == spec_u32_to_le_bytes(2)
                    + spec_u64_to_le_bytes(lamports),
                SystemCall::Allocate { account, space } => ix.data@ == spec_u32_to_le_bytes(8)
                    + spec_u64_to_le_bytes(space),
                SystemCall::Assign { account, owner } => ix.data@ == spec_u32_to_le_bytes(1)
                    + owner@,
            },
            ix.accounts@ == match *self {
                SystemCall::CreateAccount { from, to, .. } => seq![
                    writable_signer(from),
                    writable_signer(to),
                ],
                SystemCall::Transfer { from, to, .. } => seq![
                    writable_signer(from),
                    InstructionAccount { pubkey: to, is_writable: true, is_signer: false },
                ],
                SystemCall::Allocate { account, .. } => seq![writable_signer(account)],
                SystemCall::Assign { account, .. } => seq![writable_signer(account)],
            },
    {
        match self {
            SystemCall::CreateAccount { from, to, lamports, space, owner } => create_account(
                from,
                to,
                *lamports,
                *space,
                owner,
            ),
            SystemCall::Transfer { from, to, lamports } => transfer(from, to, *lamports),
            SystemCall::Allocate { account, space } => allocate(account, *space),
            SystemCall::Assign { account, owner } => assign(account, owner),
        }
    }
}

/// Whether a record of kind `T` is refused in `account`: the account is
/// not the program's, has another size than the record, or opens with
/// another discriminator.
pub open spec fn load_refused<T: Account>(account: AccountInfo, program_id: PubkeyBytes) -> bool {
    ||| account.owner@ != program_id@
    ||| account.data@.len() != T::len_spec()
    ||| (account.data@.len() >= 8 && account.data@.subrange(0, 8) != spec_u64_to_le_bytes(
        T::ordinal(),
    ))
}

/// Loads the record of kind `T` that a program-owned account holds. Any
/// deviation in owner, size or discriminator is an invalid account; a
/// record kind too small to hold a discriminator is invalid account
/// data.
pub fn load_account<T: Account>(account: &AccountInfo, program_id: &PubkeyBytes) -> (r: Result<
    T,
    ProgramError,
>)
    ensures
        r.is_err() <==> (load_refused::<T>(*account, *program_id) || T::len_spec() < 8),
        r matches Err(e) ==> e == if load_refused::<T>(*account, *program_id) {
            EntropyError::InvalidAccount.program_error_spec()
        } else {
            ProgramError::InvalidAccountData
        },
        r matches Ok(record) ==> record.stored_in(account.data@),
{
    if !account.owned_by(program_id) || account.data.len() != T::len() {
        return Err(EntropyError::InvalidAccount.program_error());
    }
    if account.data.len() < 8 {
        return Err(ProgramError::InvalidAccountData);
    }
    let expected = T::discriminator();
    let found: [u8; 8] = crate::bytes::read_array::<8>(account.data.as_slice(), 0);
    if !array_eq(&found, &expected) {
        return Err(EntropyError::InvalidAccount.program_error());
    }
    match T::from_bytes(account.data.as_slice()) {
        Some(record) => Ok(record),
        None => Err(EntropyError::InvalidAccount.program_error()),
    }
}

/// The steps that turn a blank account into one of `space` bytes that the
/// program owns. An account without lamports is created in one step,
/// funded by the payer. One that was funded beforehand is topped up to
/// the rent-exempt minimum where it is short, then allocated and
/// assigned.
pub open spec fn init_account_plan(
    program_id: PubkeyBytes,
    payer: PubkeyBytes,
    account: AccountInfo,
    seeds: SignerSeeds,
    space: u64,
    required_lamports: u64,
) -> Seq<Invocation> {
    if account.lamports == 0 {
        seq![
            Invocation {
                call: SystemCall::CreateAccount {
                    from: payer,
                    to: account.key,
                    lamports: required_lamports,
                    space,
                    owner: program_id,
                },
                seeds,
            },
        ]
    } else {
        let top_up = if account.lamports < required_lamports {
            seq![
                Invocation {
                    call: SystemCall::Transfer {
                        from: payer,
                        to: account.key,
                        lamports: (required_lamports - account.lamports) as u64,
                    },
                    seeds: SignerSeeds::Unsigned,
                },
            ]
        } else {
            Seq::empty()
        };
        top_up + seq![
            Invocation { call: SystemCall::Allocate { account: account.key, space }, seeds },
            Invocation {
                call: SystemCall::Assign { account: account.key, owner: program_id },
                seeds,
            },
        ]
    }
}

/// Appends to `plan` the steps that make `account` a program-owned
/// account of `space` bytes.
pub fn plan_init_account(
    plan: &mut Vec<Invocation>,
    program_id: &PubkeyBytes,
    payer: &PubkeyBytes,
    account: &AccountInfo,
    seeds: SignerSeeds,
    space: u64,
    required_lamports: u64,
)
    ensures
        final(plan)@ == old(plan)@ + init_account_plan(
            *program_id,
            *payer,
            *account,
            seeds,
            space,
            required_lamports,
        ),
{
    let ghost before = plan@;
    if account.lamports == 0 {
        plan.push(
            Invocation {
                call: SystemCall::CreateAccount {
                    from: *payer,
                    to: account.key,
                    lamports: required_lamports,
                    space,
                    owner: *program_id,
                },
                seeds,
            },
        );
    } else {
        if account.lamports < required_lamports {
            plan.push(
                Invocation {
                    call: SystemCall::Transfer {
                        from: *payer,
                        to: account.key,
                        lamports: required_lamports - account.lamports,
                    },
                    seeds: SignerSeeds::Unsigned,
                },
            );
        }
        plan.push(Invocation { call: SystemCall::Allocate { account: account.key, space }, seeds });
        plan.push(
            Invocation {
                call: SystemCall::Assign { account: account.key, owner: *program_id },
                seeds,
            },
        );
    }
    assert(plan@ =~= before + init_account_plan(
        *program_id,
        *payer,
        *account,
        seeds,
        space,
        required_lamports,
    ));
}

/// Plans the creation of a program-owned account at a derived address.
/// The account must be blank, else it is an invalid account.
pub fn init_pda_mut(
    plan: &mut Vec<Invocation>,
    program_id: &PubkeyBytes,
    payer: &PubkeyBytes,
    account: &AccountInfo,
    seeds: SignerSeeds,
    space: u64,
    required_lamports: u64,
) -> (r: Result<(), ProgramError>)
    ensures
        r.is_ok() <==> account.is_blank_spec(),
        r matches Err(e) ==> e == EntropyError::InvalidAccount.program_error_spec() && final(plan)@
            == old(plan)@,
        r.is_ok() ==> final(plan)@ == old(plan)@ + init_account_plan(
            *program_id,
            *payer,
            *account,
            seeds,
            space,
            required_lamports,
        ),
{
    if !account.is_blank() {
        return Err(EntropyError::InvalidAccount.program_error());
    }
    plan_init_account(plan, program_id, payer, account, seeds, space, required_lamports);
    Ok(())
}

/// The step that brings a vault to its rent-exempt minimum, if it is
/// short of it.
pub open spec fn vault_plan(payer: PubkeyBytes, vault: AccountInfo, required_lamports: u64) -> Seq<
    Invocation,
> {
    if vault.lamports < required_lamports {
        seq![
            Invocation {
                call: SystemCall::Transfer {
                    from: payer,
                    to: vault.key,
                    lamports: (required_lamports - vault.lamports) as u64,
                },
                seeds: SignerSeeds::Unsigned,
            },
        ]
    } else {
        Seq::empty()
    }
}

/// Plans the upkeep of a vault: it must be system-owned without data,
/// else it is an invalid account, and it is topped up from the payer
/// where it is below the rent-exempt minimum. Its owner never changes.
pub fn init_vault_pda(
    plan: &mut Vec<Invocation>,
    payer: &PubkeyBytes,
    vault: &AccountInfo,
    required_lamports: u64,
) -> (r: Result<(), ProgramError>)
    ensures
        r.is_ok() <==> vault.is_blank_spec(),
        r matches Err(e) ==> e == EntropyError::InvalidAccount.program_error_spec() && final(plan)@
            == old(plan)@,
        r.is_ok() ==> final(plan)@ == old(plan)@ + vault_plan(*payer, *vault, required_lamports),
{
    let ghost before = plan@;
    if !vault.is_blank() {
        return Err(EntropyError::InvalidAccount.program_error());
    }
    if vault.lamports < required_lamports {
        plan.push(
            Invocation {
                call: SystemCall::Transfer {
                    from: *payer,
                    to: vault.key,
                    lamports: required_lamports - vault.lamports,
                },
                seeds: SignerSeeds::Unsigned,
            },
        );
    }
    assert(plan@ =~= before + vault_plan(*payer, *vault, required_lamports));
    Ok(())
}

/// After the planned steps ran: the account must now be the program's and
/// of the exact size, else it is an invalid account.
pub fn check_initialized(account: &AccountInfo, program_id: &PubkeyBytes, space: usize) -> (r:
    Result<(), ProgramError>)
    ensures
        r.is_ok() <==> (account.owner@ == program_id@ && account.data@.len() == space),
        r matches Err(e) ==> e == EntropyError::InvalidAccount.program_error_spec(),
{
    if !account.owned_by(program_id) || account.data.len() != space {
        return Err(EntropyError::InvalidAccount.program_error());
    }
    Ok(())
}

/// The lamports that a step takes from `account`.
pub open spec fn step_debit(call: SystemCall, account: PubkeyBytes) -> int {
    match call {
        SystemCall::Transfer { from, to, lamports } => if from == account {
            lamports as int
        } else {
            0
        },
        SystemCall::CreateAccount { from, to, lamports, space, owner } => if from == account {
            lamports as int
        } else {
            0
        },
        _ => 0,
    }
}

/// The lamports that a step brings to `account`.
pub open spec fn step_credit(call: SystemCall, account: PubkeyBytes) -> int {
    match call {
        SystemCall::Transfer { from, to, lamports } => if to == account {
            lamports as int
        } else {
            0
        },
        SystemCall::CreateAccount { from, to, lamports, space, owner } => if to == account {
            lamports as int
        } else {
            0
        },
        _ => 0,
    }
}

/// The lamports that the steps of a plan take from `account`.
pub open spec fn debited(plan: Seq<Invocation>, account: PubkeyBytes) -> int
    decreases plan.len(),
{
    if plan.len() == 0 {
        0
    } else {
        debited(plan.drop_last(), account) + step_debit(plan.last().call, account)
    }
}

/// The lamports that the steps of a plan bring to `account`.
pub open spec fn credited(plan: Seq<Invocation>, account: PubkeyBytes) -> int
    decreases plan.len(),
{
    if plan.len() == 0 {
        0
    } else {
        credited(plan.drop_last(), account) + step_credit(plan.last().call, account)
    }
}

/// What one plan takes and brings after another adds up.
pub proof fn lemma_moved_concat(first: Seq<Invocation>, second: Seq<Invocation>, account: PubkeyBytes)
    ensures
        debited(first + second, account) == debited(first, account) + debited(second, account),
        credited(first + second, account) == credited(first, account) + credited(
            second,
            account,
        ),
    decreases second.len(),
{
    if second.len() == 0 {
        assert(first + second =~= first);
    } else {
        lemma_moved_concat(first, second.drop_last(), account);
        assert((first + second).drop_last() =~= first + second.drop_last());
        assert((first + second).last() == second.last());
    }
}

/// The lamports that an account lacks to be exempt from rent: all of
/// the minimum for one without lamports, else what it is short of.
pub open spec fn funding(account: AccountInfo, required_lamports: u64) -> int {
    if account.lamports == 0 {
        required_lamports as int
    } else if account.lamports < required_lamports {
        required_lamports - account.lamports
    } else {
        0
    }
}

/// The steps that create an account take from the payer what the
/// account lacks to be exempt from rent, and bring it to the account.
pub proof fn lemma_init_account_funding(
    program_id: PubkeyBytes,
    payer: PubkeyBytes,
    account: AccountInfo,
    seeds: SignerSeeds,
    space: u64,
    required_lamports: u64,
)
    ensures
        debited(
            init_account_plan(program_id, payer, account, seeds, space, required_lamports),
            payer,
        ) == funding(account, required_lamports),
        credited(
            init_account_plan(program_id, payer, account, seeds, space, required_lamports),
            account.key,
        ) == funding(account, required_lamports),
        forall|other: PubkeyBytes|
            other != account.key ==> #[trigger] credited(
                init_account_plan(program_id, payer, account, seeds, space, required_lamports),
                other,
            ) == 0,
{
    let plan = init_account_plan(program_id, payer, account, seeds, space, required_lamports);
    reveal_with_fuel(debited, 4);
    reveal_with_fuel(credited, 4);
    if account.lamports == 0 {
        assert(plan.len() == 1);
        assert(plan.drop_last().len() == 0);
    } else if account.lamports < required_lamports {
        assert(plan.len() == 3);
        assert(plan.drop_last().len() == 2);
        assert(plan.drop_last().drop_last().len() == 1);
        assert(plan.drop_last().drop_last().drop_last().len() == 0);
        assert(plan.drop_last().last() == plan[1]);
        assert(plan.drop_last().drop_last().last() == plan[0]);
    } else {
        assert(plan.len() == 2);
        assert(plan.drop_last().len() == 1);
        assert(plan.drop_last().drop_last().len() == 0);
        assert(plan.drop_last().last() == plan[0]);
    }
}

} // verus!
