//! Commit-reveal randomness service: account records, instruction decoding,
//! the request and reveal state machine, and the provider's hash-chain
//! bookkeeping, all on plain values.

pub mod accounts;
pub mod bytes;
pub mod client;
pub mod constants;
pub mod discriminator;
pub mod error;
pub mod hashing;
pub mod instruction;
pub mod observation;
pub mod pda;
pub mod processor;
pub mod provider_chain;
pub mod requester;
pub mod runtime;
pub mod scan;
pub mod system_instruction;
