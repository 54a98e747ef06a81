//! The persistent records and their byte layout.

use vstd::prelude::*;
use vstd::bytes::*;
use crate::bytes::{zeros, push_bytes, push_u16_le, push_u32_le, push_u64_le, push_zeros, read_array,
    read_u16_le, read_u32_le, read_u64_le};
use crate::constants::{CALLBACK_IX_DATA_LEN, COMMITMENT_METADATA_LEN, MAX_CALLBACK_ACCOUNTS,
    URI_LEN};
use crate::discriminator::{config_discriminator, provider_discriminator, request_discriminator};
use crate::error::ProgramError;

verus! {

/// A thirty-two byte account address.
pub type PubkeyBytes = [u8; 32];

/// A record kind that is stored in a program-owned account.
pub trait Account: Sized {
    /// The ordinal of the kind, from which its discriminator is made.
    spec fn ordinal() -> u64;

    /// The exact size of the record in bytes.
    spec fn len_spec() -> nat;

    /// The bytes that a record is stored as.
    spec fn bytes_spec(&self) -> Seq<u8>;

    /// Whether `data` holds this record: every field at its offset. The
    /// padding bytes are free.
    spec fn stored_in(&self, data: Seq<u8>) -> bool;

    /// The exact size of the record in bytes.
    fn len() -> (n: usize)
        ensures
            n == Self::len_spec(),
    ;

    /// The eight bytes that open a record of this kind.
    fn discriminator() -> (d: [u8; 8])
        ensures
            d@ == spec_u64_to_le_bytes(Self::ordinal()),
    ;

    /// Reads a record from bytes of the exact size.
    fn from_bytes(data: &[u8]) -> (r: Option<Self>)
        ensures
            r.is_some() <==> data@.len() == Self::len_spec(),
            r matches Some(record) ==> record.stored_in(data@),
    ;

    /// The bytes to store the record as, with zeroed padding.
    fn to_bytes(&self) -> (out: Vec<u8>)
        ensures
            out@ == self.bytes_spec(),
            out@.len() == Self::len_spec(),
            self.stored_in(out@),
    ;
}

/// The singleton configuration.
#[derive(Clone, Copy, Debug)]
pub struct Config {
    pub discriminator: [u8; 8],
    pub admin: PubkeyBytes,
    pub pyth_fee_lamports: u64,
    pub default_provider: PubkeyBytes,
    pub proposed_admin: PubkeyBytes,
    pub seed: [u8; 32],
    pub bump: u8,
}

/// Size of a stored configuration.
pub const CONFIG_LEN: usize = 152;

impl Account for Config {
    open spec fn ordinal() -> u64 {
        0
    }

    open spec fn len_spec() -> nat {
        152
    }

    open spec fn bytes_spec(&self) -> Seq<u8> {
        self.discriminator@ + self.admin@ + spec_u64_to_le_bytes(self.pyth_fee_lamports)
            + self.default_provider@ + self.proposed_admin@ + self.seed@ + seq![self.bump] + zeros(
            7,
        )
    }

    open spec fn stored_in(&self, data: Seq<u8>) -> bool {
        &&& data.len() == 152
        &&& self.discriminator@ == data.subrange(0, 8)
        &&& self.admin@ == data.subrange(8, 40)
        &&& self.pyth_fee_lamports == spec_u64_from_le_bytes(data.subrange(40, 48))
        &&& self.default_provider@ == data.subrange(48, 80)
        &&& self.proposed_admin@ == data.subrange(80, 112)
        &&& self.seed@ == data.subrange(112, 144)
        &&& self.bump == data[144]
    }

    fn len() -> (n: usize) {
        CONFIG_LEN
    }

    fn discriminator() -> (d: [u8; 8]) {
        config_discriminator()
    }

    fn from_bytes(data: &[u8]) -> (r: Option<Self>) {
        if data.len() != CONFIG_LEN {
            return None;
        }
        Some(
            Config {
                discriminator: read_array::<8>(data, 0),
                admin: read_array::<32>(data, 8),
                pyth_fee_lamports: read_u64_le(data, 40),
                default_provider: read_array::<32>(data, 48),
                proposed_admin: read_array::<32>(data, 80),
                seed: read_array::<32>(data, 112),
                bump: data[144],
            },
        )
    }

    fn to_bytes(&self) -> (out: Vec<u8>) {
        let mut out: Vec<u8> = Vec::new();
        push_bytes(&mut out, self.discriminator.as_slice());
        push_bytes(&mut out, self.admin.as_slice());
        push_u64_le(&mut out, self.pyth_fee_lamports);
        push_bytes(&mut out, self.default_provider.as_slice());
        push_bytes(&mut out, self.proposed_admin.as_slice());
        push_bytes(&mut out, self.seed.as_slice());
        out.push(self.bump);
        push_zeros(&mut out, 7);
        proof {
            lemma_auto_spec_u64_to_from_le_bytes();
            assert(out@ =~= self.bytes_spec());
            assert(out@.subrange(0, 8) =~= self.discriminator@);
            assert(out@.subrange(8, 40) =~= self.admin@);
            assert(out@.subrange(40, 48) =~= spec_u64_to_le_bytes(self.pyth_fee_lamports));
            assert(out@.subrange(48, 80) =~= self.default_provider@);
            assert(out@.subrange(80, 112) =~= self.proposed_admin@);
            assert(out@.subrange(112, 144) =~= self.seed@);
        }
        out
    }
}

/// A registered provider and the state of its hash chain.
#[derive(Clone, Copy, Debug)]
pub struct Provider {
    pub discriminator: [u8; 8],
    pub provider_authority: PubkeyBytes,
    pub fee_lamports: u64,
    pub original_commitment: [u8; 32],
    pub original_commitment_sequence_number: u64,
    pub commitment_metadata_len: u16,
    pub commitment_metadata: [u8; COMMITMENT_METADATA_LEN],
    pub uri_len: u16,
    pub uri: [u8; URI_LEN],
    pub end_sequence_number: u64,
    pub sequence_number: u64,
    pub current_commitment: [u8; 32],
    pub current_commitment_sequence_number: u64,
    pub fee_manager: PubkeyBytes,
    pub max_num_hashes: u32,
    pub default_compute_unit_limit: u32,
    pub bump: u8,
}

/// Size of a stored provider.
pub const PROVIDER_LEN: usize = 520;

/// The fee a provider charges for a request with the given compute
/// budget, or `None` where it does not fit in 64 bits: the base fee, and
/// for a budget above the provider's default the base fee again for each
/// default's worth of the excess, rounded down.
pub open spec fn provider_fee_spec(
    fee_lamports: u64,
    default_compute_unit_limit: u32,
    compute_unit_limit: u32,
) -> Option<u64> {
    if default_compute_unit_limit > 0 && compute_unit_limit > default_compute_unit_limit {
        let extra = compute_unit_limit - default_compute_unit_limit;
        if extra * fee_lamports > u64::MAX {
            None
        } else {
            let total = fee_lamports + (extra * fee_lamports) / (default_compute_unit_limit as int);
            if total > u64::MAX {
                None
            } else {
                Some(total as u64)
            }
        }
    } else {
        Some(fee_lamports)
    }
}

impl Provider {
    /// The chain bookkeeping is in order: the revealed position is not
    /// ahead of the next sequence number, which is not beyond the end.
    pub open spec fn well_formed(&self) -> bool {
        &&& self.current_commitment_sequence_number <= self.sequence_number
        &&& self.sequence_number <= self.end_sequence_number
    }

    /// The fee for a request with the given compute budget. An amount
    /// that overflows is an invalid argument.
    pub fn calculate_provider_fee(&self, compute_unit_limit: u32) -> (r: Result<u64, ProgramError>)
        ensures
            match provider_fee_spec(
                self.fee_lamports,
                self.default_compute_unit_limit,
                compute_unit_limit,
            ) {
                Some(fee) => r == Ok::<u64, ProgramError>(fee),
                None => r == Err::<u64, ProgramError>(ProgramError::InvalidArgument),
            },
    {
        if self.default_compute_unit_limit > 0 && compute_unit_limit
            > self.default_compute_unit_limit {
            let extra: u32 = compute_unit_limit - self.default_compute_unit_limit;
            let extra64: u64 = extra as u64;
            match extra64.checked_mul(self.fee_lamports) {
                None => Err(ProgramError::InvalidArgument),
                Some(product) => {
                    let additional: u64 = product / (self.default_compute_unit_limit as u64);
                    match self.fee_lamports.checked_add(additional) {
                        None => Err(ProgramError::InvalidArgument),
                        Some(total) => Ok(total),
                    }
                },
            }
        } else {
            Ok(self.fee_lamports)
        }
    }
}

impl Account for Provider {
    open spec fn ordinal() -> u64 {
        1
    }

    open spec fn len_spec() -> nat {
        520
    }

    open spec fn bytes_spec(&self) -> Seq<u8> {
        self.discriminator@ + self.provider_authority@ + spec_u64_to_le_bytes(self.fee_lamports)
            + self.original_commitment@ + spec_u64_to_le_bytes(
            self.original_commitment_sequence_number,
        ) + spec_u16_to_le_bytes(self.commitment_metadata_len) + self.commitment_metadata@
            + spec_u16_to_le_bytes(self.uri_len) + self.uri@ + zeros(4) + spec_u64_to_le_bytes(
            self.end_sequence_number,
        ) + spec_u64_to_le_bytes(self.sequence_number) + self.current_commitment@
            + spec_u64_to_le_bytes(self.current_commitment_sequence_number) + self.fee_manager@
            + spec_u32_to_le_bytes(self.max_num_hashes) + spec_u32_to_le_bytes(
            self.default_compute_unit_limit,
        ) + seq![self.bump] + zeros(7)
    }

    open spec fn stored_in(&self, data: Seq<u8>) -> bool {
        &&& data.len() == 520
        &&& self.discriminator@ == data.subrange(0, 8)
        &&& self.provider_authority@ == data.subrange(8, 40)
        &&& self.fee_lamports == spec_u64_from_le_bytes(data.subrange(40, 48))
        &&& self.original_commitment@ == data.subrange(48, 80)
        &&& self.original_commitment_sequence_number == spec_u64_from_le_bytes(
            data.subrange(80, 88),
        )
        &&& self.commitment_metadata_len == spec_u16_from_le_bytes(data.subrange(88, 90))
        &&& self.commitment_metadata@ == data.subrange(90, 154)
        &&& self.uri_len == spec_u16_from_le_bytes(data.subrange(154, 156))
        &&& self.uri@ == data.subrange(156, 412)
        &&& self.end_sequence_number == spec_u64_from_le_bytes(data.subrange(416, 424))
        &&& self.sequence_number == spec_u64_from_le_bytes(data.subrange(424, 432))
        &&& self.current_commitment@ == data.subrange(432, 464)
        &&& self.current_commitment_sequence_number == spec_u64_from_le_bytes(
            data.subrange(464, 472),
        )
        &&& self.fee_manager@ == data.subrange(472, 504)
        &&& self.max_num_hashes == spec_u32_from_le_bytes(data.subrange(504, 508))
        &&& self.default_compute_unit_limit == spec_u32_from_le_bytes(data.subrange(508, 512))
        &&& self.bump == data[512]
    }

    fn len() -> (n: usize) {
        PROVIDER_LEN
    }

    fn discriminator() -> (d: [u8; 8]) {
        provider_discriminator()
    }

    fn from_bytes(data: &[u8]) -> (r: Option<Self>) {
        if data.len() != PROVIDER_LEN {
            return None;
        }
        Some(
            Provider {
                discriminator: read_array::<8>(data, 0),
                provider_authority: read_array::<32>(data, 8),
                fee_lamports: read_u64_le(data, 40),
                original_commitment: read_array::<32>(data, 48),
                original_commitment_sequence_number: read_u64_le(data, 80),
                commitment_metadata_len: read_u16_le(data, 88),
                commitment_metadata: read_array::<COMMITMENT_METADATA_LEN>(data, 90),
                uri_len: read_u16_le(data, 154),
                uri: read_array::<URI_LEN>(data, 156),
                end_sequence_number: read_u64_le(data, 416),
                sequence_number: read_u64_le(data, 424),
                current_commitment: read_array::<32>(data, 432),
                current_commitment_sequence_number: read_u64_le(data, 464),
                fee_manager: read_array::<32>(data, 472),
                max_num_hashes: read_u32_le(data, 504),
                default_compute_unit_limit: read_u32_le(data, 508),
                bump: data[512],
            },
        )
    }

    fn to_bytes(&self) -> (out: Vec<u8>) {
        let mut out: Vec<u8> = Vec::new();
        proof {
            lemma_auto_spec_u64_to_from_le_bytes();
            lemma_auto_spec_u32_to_from_le_bytes();
            lemma_auto_spec_u16_to_from_le_bytes();
        }
        push_bytes(&mut out, self.discriminator.as_slice());
        push_bytes(&mut out, self.provider_authority.as_slice());
        push_u64_le(&mut out, self.fee_lamports);
        push_bytes(&mut out, self.original_commitment.as_slice());
        push_u64_le(&mut out, self.original_commitment_sequence_number);
        push_u16_le(&mut out, self.commitment_metadata_len);
        push_bytes(&mut out, self.commitment_metadata.as_slice());
        push_u16_le(&mut out, self.uri_len);
        push_bytes(&mut out, self.uri.as_slice());
        push_zeros(&mut out, 4);
        push_u64_le(&mut out, self.end_sequence_number);
        push_u64_le(&mut out, self.sequence_number);
        push_bytes(&mut out, self.current_commitment.as_slice());
        push_u64_le(&mut out, self.current_commitment_sequence_number);
        push_bytes(&mut out, self.fee_manager.as_slice());
        push_u32_le(&mut out, self.max_num_hashes);
        push_u32_le(&mut out, self.default_compute_unit_limit);
        out.push(self.bump);
        push_zeros(&mut out, 7);
        proof {
            assert(out@ =~= self.bytes_spec());
            assert(out@.subrange(0, 8) =~= self.discriminator@);
            assert(out@.subrange(8, 40) =~= self.provider_authority@);
            assert(out@.subrange(40, 48) =~= spec_u64_to_le_bytes(self.fee_lamports));
            assert(out@.subrange(48, 80) =~= self.original_commitment@);
            assert(out@.subrange(80, 88) =~= spec_u64_to_le_bytes(
                self.original_commitment_sequence_number,
            ));
            assert(out@.subrange(88, 90) =~= spec_u16_to_le_bytes(self.commitment_metadata_len));
            assert(out@.subrange(90, 154) =~= self.commitment_metadata@);
            assert(out@.subrange(154, 156) =~= spec_u16_to_le_bytes(self.uri_len));
            assert(out@.subrange(156, 412) =~= self.uri@);
            assert(out@.subrange(416, 424) =~= spec_u64_to_le_bytes(self.end_sequence_number));
            assert(out@.subrange(424, 432) =~= spec_u64_to_le_bytes(self.sequence_number));
            assert(out@.subrange(432, 464) =~= self.current_commitment@);
            assert(out@.subrange(464, 472) =~= spec_u64_to_le_bytes(
                self.current_commitment_sequence_number,
            ));
            assert(out@.subrange(472, 504) =~= self.fee_manager@);
            assert(out@.subrange(504, 508) =~= spec_u32_to_le_bytes(self.max_num_hashes));
            assert(out@.subrange(508, 512) =~= spec_u32_to_le_bytes(
                self.default_compute_unit_limit,
            ));
        }
        out
    }
}

/// One account that a callback is to be invoked with.
#[derive(Clone, Copy, Debug)]
pub struct CallbackMeta {
    pub pubkey: PubkeyBytes,
    pub is_signer: u8,
    pub is_writable: u8,
}

/// Size of a stored callback account entry.
pub const CALLBACK_META_LEN: usize = 34;

/// The bytes of one callback account entry.
pub open spec fn callback_meta_bytes(meta: CallbackMeta) -> Seq<u8> {
    meta.pubkey@ + seq![meta.is_signer, meta.is_writable]
}

/// The bytes of a list of callback account entries, one after the other.
pub open spec fn callback_metas_bytes(metas: Seq<CallbackMeta>) -> Seq<u8>
    decreases metas.len(),
{
    if metas.len() == 0 {
        Seq::empty()
    } else {
        callback_metas_bytes(metas.drop_last()) + callback_meta_bytes(metas.last())
    }
}

/// Whether `data` holds `meta` at `offset`.
pub open spec fn callback_meta_at(meta: CallbackMeta, data: Seq<u8>, offset: int) -> bool {
    &&& 0 <= offset
    &&& offset + 34 <= data.len()
    &&& meta.pubkey@ == data.subrange(offset, offset + 32)
    &&& meta.is_signer == data[offset + 32]
    &&& meta.is_writable == data[offset + 33]
}

/// An entry that is stored in a byte string is stored in every extension of it.
pub proof fn lemma_callback_meta_at_extends(meta: CallbackMeta, data: Seq<u8>, more: Seq<u8>, offset: int)
    requires
        callback_meta_at(meta, data, offset),
    ensures
        callback_meta_at(meta, data + more, offset),
{
    assert((data + more).subrange(offset, offset + 32) =~= data.subrange(offset, offset + 32));
}

impl CallbackMeta {
    /// The entry with a zero address and no flags.
    pub fn empty() -> (meta: CallbackMeta)
        ensures
            meta.pubkey@ == zeros(32),
            meta.is_signer == 0,
            meta.is_writable == 0,
    {
        CallbackMeta { pubkey: crate::bytes::zero_array::<32>(), is_signer: 0, is_writable: 0 }
    }

    /// Reads the entry at `offset`.
    pub fn read(data: &[u8], offset: usize) -> (meta: CallbackMeta)
        requires
            offset + 34 <= data@.len(),
        ensures
            callback_meta_at(meta, data@, offset as int),
    {
        let len = data.len();
        CallbackMeta {
            pubkey: read_array::<32>(data, offset),
            is_signer: data[offset + 32],
            is_writable: data[offset + 33],
        }
    }

    /// Appends the entry to `out`.
    pub fn write(&self, out: &mut Vec<u8>)
        ensures
            final(out)@ == old(out)@ + callback_meta_bytes(*self),
            callback_meta_at(*self, final(out)@, old(out)@.len() as int),
    {
        let ghost before = out@;
        push_bytes(out, self.pubkey.as_slice());
        out.push(self.is_signer);
        out.push(self.is_writable);
        assert(out@ =~= before + callback_meta_bytes(*self));
        assert(out@.subrange(before.len() as int, before.len() as int + 32) =~= self.pubkey@);
    }
}

/// A pending request for randomness.
#[derive(Clone, Copy, Debug)]
pub struct Request {
    pub discriminator: [u8; 8],
    pub provider: PubkeyBytes,
    pub sequence_number: u64,
    pub num_hashes: u32,
    pub commitment: [u8; 32],
    pub request_slot: u64,
    pub requester_program_id: PubkeyBytes,
    pub requester_signer: PubkeyBytes,
    pub payer: PubkeyBytes,
    pub use_blockhash: u8,
    pub callback_status: u8,
    pub compute_unit_limit: u32,
    pub callback_program_id: PubkeyBytes,
    pub callback_accounts_len: u8,
    pub callback_accounts: [CallbackMeta; MAX_CALLBACK_ACCOUNTS],
    pub callback_ix_data_len: u16,
    pub callback_ix_data: [u8; CALLBACK_IX_DATA_LEN],
    pub bump: u8,
}

/// Size of a stored request.
pub const REQUEST_LEN: usize = 1040;

impl Request {
    /// The number of callback accounts that the request declares, at
    /// most the sixteen that it has room for.
    pub open spec fn declared_len(&self) -> int {
        if self.callback_accounts_len <= 16 {
            self.callback_accounts_len as int
        } else {
            16
        }
    }

    /// The callback accounts that the request declares, in order.
    pub fn declared_callback_accounts(&self) -> (declared: Vec<CallbackMeta>)
        ensures
            declared@ == self.callback_accounts@.subrange(0, self.declared_len()),
    {
        let count: usize = if self.callback_accounts_len as usize <= MAX_CALLBACK_ACCOUNTS {
            self.callback_accounts_len as usize
        } else {
            MAX_CALLBACK_ACCOUNTS
        };
        let mut declared: Vec<CallbackMeta> = Vec::new();
        let mut i: usize = 0;
        while i < count
            invariant
                0 <= i <= count <= 16,
                self.callback_accounts@.len() == 16,
                declared@ == self.callback_accounts@.subrange(0, i as int),
            decreases count - i,
        {
            declared.push(self.callback_accounts[i]);
            i = i + 1;
            assert(declared@ =~= self.callback_accounts@.subrange(0, i as int));
        }
        declared
    }
}

impl Account for Request {
    open spec fn ordinal() -> u64 {
        2
    }

    open spec fn len_spec() -> nat {
        1040
    }

    open spec fn bytes_spec(&self) -> Seq<u8> {
        self.discriminator@ + self.provider@ + spec_u64_to_le_bytes(self.sequence_number)
            + spec_u32_to_le_bytes(self.num_hashes) + self.commitment@ + zeros(4)
            + spec_u64_to_le_bytes(self.request_slot) + self.requester_program_id@
            + self.requester_signer@ + self.payer@ + seq![self.use_blockhash, self.callback_status]
            + zeros(2) + spec_u32_to_le_bytes(self.compute_unit_limit) + self.callback_program_id@
            + seq![self.callback_accounts_len] + zeros(1) + callback_metas_bytes(
            self.callback_accounts@,
        ) + spec_u16_to_le_bytes(self.callback_ix_data_len) + self.callback_ix_data@
            + seq![self.bump] + zeros(3)
    }

    open spec fn stored_in(&self, data: Seq<u8>) -> bool {
        &&& data.len() == 1040
        &&& self.discriminator@ == data.subrange(0, 8)
        &&& self.provider@ == data.subrange(8, 40)
        &&& self.sequence_number == spec_u64_from_le_bytes(data.subrange(40, 48))
        &&& self.num_hashes == spec_u32_from_le_bytes(data.subrange(48, 52))
        &&& self.commitment@ == data.subrange(52, 84)
        &&& self.request_slot == spec_u64_from_le_bytes(data.subrange(88, 96))
        &&& self.requester_program_id@ == data.subrange(96, 128)
        &&& self.requester_signer@ == data.subrange(128, 160)
        &&& self.payer@ == data.subrange(160, 192)
        &&& self.use_blockhash == data[192]
        &&& self.callback_status == data[193]
        &&& self.compute_unit_limit == spec_u32_from_le_bytes(data.subrange(196, 200))
        &&& self.callback_program_id@ == data.subrange(200, 232)
        &&& self.callback_accounts_len == data[232]
        &&& forall|j: int|
            0 <= j < 16 ==> callback_meta_at(#[trigger] self.callback_accounts@[j], data, 234 + 34 * j)
        &&& self.callback_ix_data_len == spec_u16_from_le_bytes(data.subrange(778, 780))
        &&& self.callback_ix_data@ == data.subrange(780, 1036)
        &&& self.bump == data[1036]
    }

    fn len() -> (n: usize) {
        REQUEST_LEN
    }

    fn discriminator() -> (d: [u8; 8]) {
        request_discriminator()
    }

    fn from_bytes(data: &[u8]) -> (r: Option<Self>) {
        if data.len() != REQUEST_LEN {
            return None;
        }
        let mut callback_accounts = [CallbackMeta::empty(); MAX_CALLBACK_ACCOUNTS];
        let mut i: usize = 0;
        while i < MAX_CALLBACK_ACCOUNTS
            invariant
                0 <= i <= 16,
                data@.len() == 1040,
                callback_accounts@.len() == 16,
                forall|j: int|
                    0 <= j < i ==> callback_meta_at(
                        #[trigger] callback_accounts@[j],
                        data@,
                        234 + 34 * j,
                    ),
            decreases 16 - i,
        {
            callback_accounts[i] = CallbackMeta::read(data, 234 + 34 * i);
            i = i + 1;
        }
        Some(
            Request {
                discriminator: read_array::<8>(data, 0),
                provider: read_array::<32>(data, 8),
                sequence_number: read_u64_le(data, 40),
                num_hashes: read_u32_le(data, 48),
                commitment: read_array::<32>(data, 52),
                request_slot: read_u64_le(data, 88),
                requester_program_id: read_array::<32>(data, 96),
                requester_signer: read_array::<32>(data, 128),
                payer: read_array::<32>(data, 160),
                use_blockhash: data[192],
                callback_status: data[193],
                compute_unit_limit: read_u32_le(data, 196),
                callback_program_id: read_array::<32>(data, 200),
                callback_accounts_len: data[232],
                callback_accounts,
                callback_ix_data_len: read_u16_le(data, 778),
                callback_ix_data: read_array::<CALLBACK_IX_DATA_LEN>(data, 780),
                bump: data[1036],
            },
        )
    }

    fn to_bytes(&self) -> (out: Vec<u8>) {
        let mut out: Vec<u8> = Vec::new();
        proof {
            lemma_auto_spec_u64_to_from_le_bytes();
            lemma_auto_spec_u32_to_from_le_bytes();
            lemma_auto_spec_u16_to_from_le_bytes();
        }
        push_bytes(&mut out, self.discriminator.as_slice());
        push_bytes(&mut out, self.provider.as_slice());
        push_u64_le(&mut out, self.sequence_number);
        push_u32_le(&mut out, self.num_hashes);
        push_bytes(&mut out, self.commitment.as_slice());
        push_zeros(&mut out, 4);
        push_u64_le(&mut out, self.request_slot);
        push_bytes(&mut out, self.requester_program_id.as_slice());
        push_bytes(&mut out, self.requester_signer.as_slice());
        push_bytes(&mut out, self.payer.as_slice());
        out.push(self.use_blockhash);
        out.push(self.callback_status);
        push_zeros(&mut out, 2);
        push_u32_le(&mut out, self.compute_unit_limit);
        push_bytes(&mut out, self.callback_program_id.as_slice());
        out.push(self.callback_accounts_len);
        push_zeros(&mut out, 1);
        let ghost head = out@;
        proof {
            assert(head =~= self.discriminator@ + self.provider@ + spec_u64_to_le_bytes(
                self.sequence_number,
            ) + spec_u32_to_le_bytes(self.num_hashes) + self.commitment@ + zeros(4)
                + spec_u64_to_le_bytes(self.request_slot) + self.requester_program_id@
                + self.requester_signer@ + self.payer@ + seq![
                self.use_blockhash,
                self.callback_status,
            ] + zeros(2) + spec_u32_to_le_bytes(self.compute_unit_limit)
                + self.callback_program_id@ + seq![self.callback_accounts_len] + zeros(1));
            assert(head.len() == 234);
            assert(self.callback_accounts@.subrange(0, 0) =~= Seq::<CallbackMeta>::empty());
        }
        let mut i: usize = 0;
        while i < MAX_CALLBACK_ACCOUNTS
            invariant
                0 <= i <= 16,
                head.len() == 234,
                self.callback_accounts@.len() == 16,
                out@.len() == 234 + 34 * i,
                out@ == head + callback_metas_bytes(self.callback_accounts@.subrange(0, i as int)),
                forall|j: int|
                    0 <= j < i ==> callback_meta_at(
                        #[trigger] self.callback_accounts@[j],
                        out@,
                        234 + 34 * j,
                    ),
            decreases 16 - i,
        {
            let ghost before = out@;
            let meta = self.callback_accounts[i];
            meta.write(&mut out);
            proof {
                let upto = self.callback_accounts@.subrange(0, i + 1);
                assert(upto.drop_last() =~= self.callback_accounts@.subrange(0, i as int));
                assert(upto.last() == meta);
                assert forall|j: int| 0 <= j < i + 1 implies callback_meta_at(
                    #[trigger] self.callback_accounts@[j],
                    out@,
                    234 + 34 * j,
                ) by {
                    if j < i {
                        lemma_callback_meta_at_extends(
                            self.callback_accounts@[j],
                            before,
                            callback_meta_bytes(meta),
                            234 + 34 * j,
                        );
                    }
                }
                assert(out@ =~= head + callback_metas_bytes(upto));
            }
            i = i + 1;
        }
        let ghost mid = out@;
        proof {
            assert(self.callback_accounts@.subrange(0, 16) =~= self.callback_accounts@);
        }
        push_u16_le(&mut out, self.callback_ix_data_len);
        push_bytes(&mut out, self.callback_ix_data.as_slice());
        out.push(self.bump);
        push_zeros(&mut out, 3);
        proof {
            let tail = spec_u16_to_le_bytes(self.callback_ix_data_len) + self.callback_ix_data@
                + seq![self.bump] + zeros(3);
            assert(out@ =~= mid + tail);
            assert(out@ =~= self.bytes_spec());
            assert forall|j: int| 0 <= j < 16 implies callback_meta_at(
                #[trigger] self.callback_accounts@[j],
                out@,
                234 + 34 * j,
            ) by {
                lemma_callback_meta_at_extends(self.callback_accounts@[j], mid, tail, 234 + 34 * j);
            }
            assert(out@.subrange(0, 8) =~= self.discriminator@);
            assert(out@.subrange(8, 40) =~= self.provider@);
            assert(out@.subrange(40, 48) =~= spec_u64_to_le_bytes(self.sequence_number));
            assert(out@.subrange(48, 52) =~= spec_u32_to_le_bytes(self.num_hashes));
            assert(out@.subrange(52, 84) =~= self.commitment@);
            assert(out@.subrange(88, 96) =~= spec_u64_to_le_bytes(self.request_slot));
            assert(out@.subrange(96, 128) =~= self.requester_program_id@);
            assert(out@.subrange(128, 160) =~= self.requester_signer@);
            assert(out@.subrange(160, 192) =~= self.payer@);
            assert(out@.subrange(196, 200) =~= spec_u32_to_le_bytes(self.compute_unit_limit));
            assert(out@.subrange(200, 232) =~= self.callback_program_id@);
            assert(out@.subrange(778, 780) =~= spec_u16_to_le_bytes(self.callback_ix_data_len));
            assert(out@.subrange(780, 1036) =~= self.callback_ix_data@);
        }
        out
    }
}

/// The record that `data` holds.
pub open spec fn record_in<T: Account>(data: Seq<u8>) -> T {
    choose|record: T| record.stored_in(data)
}

/// Bytes hold at most one configuration.
pub proof fn lemma_config_unique(a: Config, b: Config, data: Seq<u8>)
    requires
        a.stored_in(data),
        b.stored_in(data),
    ensures
        a == b,
        record_in::<Config>(data) == a,
{
    assert(a.discriminator =~= b.discriminator);
    assert(a.admin =~= b.admin);
    assert(a.default_provider =~= b.default_provider);
    assert(a.proposed_admin =~= b.proposed_admin);
    assert(a.seed =~= b.seed);
    let c = record_in::<Config>(data);
    assert(c.stored_in(data));
    assert(c.discriminator =~= a.discriminator);
    assert(c.admin =~= a.admin);
    assert(c.default_provider =~= a.default_provider);
    assert(c.proposed_admin =~= a.proposed_admin);
    assert(c.seed =~= a.seed);
}

/// Bytes hold at most one provider.
pub proof fn lemma_provider_unique(a: Provider, b: Provider, data: Seq<u8>)
    requires
        a.stored_in(data),
        b.stored_in(data),
    ensures
        a == b,
{
    assert(a.discriminator =~= b.discriminator);
    assert(a.provider_authority =~= b.provider_authority);
    assert(a.original_commitment =~= b.original_commitment);
    assert(a.commitment_metadata =~= b.commitment_metadata);
    assert(a.uri =~= b.uri);
    assert(a.current_commitment =~= b.current_commitment);
    assert(a.fee_manager =~= b.fee_manager);
}

/// The provider that bytes hold is the one that was read from them.
pub proof fn lemma_provider_record(a: Provider, data: Seq<u8>)
    requires
        a.stored_in(data),
    ensures
        record_in::<Provider>(data) == a,
{
    let c = record_in::<Provider>(data);
    assert(c.stored_in(data));
    lemma_provider_unique(a, c, data);
}

/// Bytes hold at most one callback account entry at an offset.
pub proof fn lemma_callback_meta_unique(a: CallbackMeta, b: CallbackMeta, data: Seq<u8>, offset: int)
    requires
        callback_meta_at(a, data, offset),
        callback_meta_at(b, data, offset),
    ensures
        a == b,
{
    assert(a.pubkey =~= b.pubkey);
}

/// Bytes hold at most one request.
pub proof fn lemma_request_unique(a: Request, b: Request, data: Seq<u8>)
    requires
        a.stored_in(data),
        b.stored_in(data),
    ensures
        a == b,
{
    assert(a.discriminator =~= b.discriminator);
    assert(a.provider =~= b.provider);
    assert(a.commitment =~= b.commitment);
    assert(a.requester_program_id =~= b.requester_program_id);
    assert(a.requester_signer =~= b.requester_signer);
    assert(a.payer =~= b.payer);
    assert(a.callback_program_id =~= b.callback_program_id);
    assert(a.callback_ix_data =~= b.callback_ix_data);
    assert forall|j: int| 0 <= j < 16 implies a.callback_accounts[j] == b.callback_accounts[j] by {
        lemma_callback_meta_unique(
            a.callback_accounts@[j],
            b.callback_accounts@[j],
            data,
            234 + 34 * j,
        );
    }
    assert(a.callback_accounts =~= b.callback_accounts);
}

/// The request that bytes hold is the one that was read from them.
pub proof fn lemma_request_record(a: Request, data: Seq<u8>)
    requires
        a.stored_in(data),
    ensures
        record_in::<Request>(data) == a,
{
    let c = record_in::<Request>(data);
    assert(c.stored_in(data));
    lemma_request_unique(a, c, data);
}

} // verus!
