//! Instructions for the system program, as plain values.

use vstd::prelude::*;
use vstd::bytes::*;
use crate::accounts::PubkeyBytes;
use crate::bytes::{push_bytes, push_u32_le, push_u64_le};
use crate::constants::{system_program_id, system_program_id_spec};

verus! {

/// One account of an instruction, with the rights it is passed with.
#[derive(Clone, Copy, Debug)]
pub struct InstructionAccount {
    pub pubkey: PubkeyBytes,
    pub is_writable: bool,
    pub is_signer: bool,
}

/// An instruction that owns its accounts and data.
#[derive(Clone, Debug)]
pub struct OwnedInstruction {
    pub program_id: PubkeyBytes,
    pub accounts: Vec<InstructionAccount>,
    pub data: Vec<u8>,
}

/// An account passed writable and signing.
pub open spec fn writable_signer(key: PubkeyBytes) -> InstructionAccount {
    InstructionAccount { pubkey: key, is_writable: true, is_signer: true }
}

/// Creates an account: funds it from `from`, gives it `space` bytes and
/// hands it to `owner`. The data is the tag 0, the lamports, the space and
/// the owner.
pub fn create_account(
    from: &PubkeyBytes,
    to: &PubkeyBytes,
    lamports: u64,
    space: u64,
    owner: &PubkeyBytes,
) -> (ix: OwnedInstruction)
    ensures
        ix.program_id@ == system_program_id_spec(),
        ix.accounts@ == seq![writable_signer(*from), writable_signer(*to)],
        ix.data@ == spec_u32_to_le_bytes(0) + spec_u64_to_le_bytes(lamports)
            + spec_u64_to_le_bytes(space) + owner@,
{
    let mut data: Vec<u8> = Vec::new();
    push_u32_le(&mut data, 0);
    push_u64_le(&mut data, lamports);
    push_u64_le(&mut data, space);
    push_bytes(&mut data, owner.as_slice());
    let mut accounts: Vec<InstructionAccount> = Vec::new();
    accounts.push(InstructionAccount { pubkey: *from, is_writable: true, is_signer: true });
    accounts.push(InstructionAccount { pubkey: *to, is_writable: true, is_signer: true });
    assert(accounts@ =~= seq![writable_signer(*from), writable_signer(*to)]);
    assert(data@ =~= spec_u32_to_le_bytes(0) + spec_u64_to_le_bytes(lamports)
        + spec_u64_to_le_bytes(space) + owner@);
    OwnedInstruction { program_id: system_program_id(), accounts, data }
}

/// Moves lamports from `from` to `to`. The data is the tag 2 and the
/// lamports. The sender signs and is written to; the receiver is written
/// to and does not sign.
pub fn transfer(from: &PubkeyBytes, to: &PubkeyBytes, lamports: u64) -> (ix: OwnedInstruction)
    ensures
        ix.program_id@ == system_program_id_spec(),
        ix.accounts@ == seq![
            writable_signer(*from),
            InstructionAccount { pubkey: *to, is_writable: true, is_signer: false },
        ],
        ix.data@ == spec_u32_to_le_bytes(2) + spec_u64_to_le_bytes(lamports),
{
    let mut data: Vec<u8> = Vec::new();
    push_u32_le(&mut data, 2);
    push_u64_le(&mut data, lamports);
    let mut accounts: Vec<InstructionAccount> = Vec::new();
    accounts.push(InstructionAccount { pubkey: *from, is_writable: true, is_signer: true });
    accounts.push(InstructionAccount { pubkey: *to, is_writable: true, is_signer: false });
    assert(accounts@ =~= seq![
        writable_signer(*from),
        InstructionAccount { pubkey: *to, is_writable: true, is_signer: false },
    ]);
    assert(data@ =~= spec_u32_to_le_bytes(2) + spec_u64_to_le_bytes(lamports));
    OwnedInstruction { program_id: system_program_id(), accounts, data }
}

/// Gives `account` `space` bytes of data. The data is the tag 8 and the
/// space.
pub fn allocate(account: &PubkeyBytes, space: u64) -> (ix: OwnedInstruction)
    ensures
        ix.program_id@ == system_program_id_spec(),
        ix.accounts@ == seq![writable_signer(*account)],
        ix.data@ == spec_u32_to_le_bytes(8) + spec_u64_to_le_bytes(space),
{
    let mut data: Vec<u8> = Vec::new();
    push_u32_le(&mut data, 8);
    push_u64_le(&mut data, space);
    let mut accounts: Vec<InstructionAccount> = Vec::new();
    accounts.push(InstructionAccount { pubkey: *account, is_writable: true, is_signer: true });
    assert(accounts@ =~= seq![writable_signer(*account)]);
    assert(data@ =~= spec_u32_to_le_bytes(8) + spec_u64_to_le_bytes(space));
    OwnedInstruction { program_id: system_program_id(), accounts, data }
}

/// Hands `account` to `owner`. The data is the tag 1 and the owner.
pub fn assign(account: &PubkeyBytes, owner: &PubkeyBytes) -> (ix: OwnedInstruction)
    ensures
        ix.program_id@ == system_program_id_spec(),
        ix.accounts@ == seq![writable_signer(*account)],
        ix.data@ == spec_u32_to_le_bytes(1) + owner@,
{
    let mut data: Vec<u8> = Vec::new();
    push_u32_le(&mut data, 1);
    push_bytes(&mut data, owner.as_slice());
    let mut accounts: Vec<InstructionAccount> = Vec::new();
    accounts.push(InstructionAccount { pubkey: *account, is_writable: true, is_signer: true });
    assert(accounts@ =~= seq![writable_signer(*account)]);
    assert(data@ =~= spec_u32_to_le_bytes(1) + owner@);
    OwnedInstruction { program_id: system_program_id(), accounts, data }
}

impl OwnedInstruction {
    /// The instruction as the three parts that an invocation takes.
    pub fn as_instruction(&self) -> (parts: (&PubkeyBytes, &[InstructionAccount], &[u8]))
        ensures
            *parts.0 == self.program_id,
            parts.1@ == self.accounts@,
            parts.2@ == self.data@,
    {
        (&self.program_id, self.accounts.as_slice(), self.data.as_slice())
    }
}

} // verus!
