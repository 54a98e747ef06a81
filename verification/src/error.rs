//! Error kinds of the protocol and of the host runtime.

use vstd::prelude::*;

verus! {

/// What the protocol itself rejects an instruction with.
#[derive(Clone, Copy, Debug, PartialEq, Eq, Structural)]
pub enum EntropyError {
    InvalidInstruction,
    InvalidAccount,
    InvalidPda,
    NotImplemented,
    OutOfRandomness,
    LastRevealedTooOld,
    IncorrectRevelation,
    BlockhashUnavailable,
    InvalidRevealCall,
    CallbackComputeUnitLimitExceeded,
}

/// How an instruction fails: the host runtime's generic kinds, or a
/// protocol error under its stable code.
#[derive(Clone, Copy, Debug, PartialEq, Eq, Structural)]
pub enum ProgramError {
    InvalidInstructionData,
    InvalidArgument,
    InvalidAccountData,
    MissingRequiredSignature,
    NotEnoughAccountKeys,
    InvalidSeeds,
    Custom(u32),
}

impl EntropyError {
    /// The stable ordinal that clients see.
    pub open spec fn code_spec(self) -> u32 {
        match self {
            EntropyError::InvalidInstruction => 0,
            EntropyError::InvalidAccount => 1,
            EntropyError::InvalidPda => 2,
            EntropyError::NotImplemented => 3,
            EntropyError::OutOfRandomness => 4,
            EntropyError::LastRevealedTooOld => 5,
            EntropyError::IncorrectRevelation => 6,
            EntropyError::BlockhashUnavailable => 7,
            EntropyError::InvalidRevealCall => 8,
            EntropyError::CallbackComputeUnitLimitExceeded => 9,
        }
    }

    /// The program error that carries this error's code.
    pub open spec fn program_error_spec(self) -> ProgramError {
        ProgramError::Custom(self.code_spec())
    }

    /// The stable ordinal that clients see.
    pub fn code(self) -> (c: u32)
        ensures
            c == self.code_spec(),
    {
        match self {
            EntropyError::InvalidInstruction => 0,
            EntropyError::InvalidAccount => 1,
            EntropyError::InvalidPda => 2,
            EntropyError::NotImplemented => 3,
            EntropyError::OutOfRandomness => 4,
            EntropyError::LastRevealedTooOld => 5,
            EntropyError::IncorrectRevelation => 6,
            EntropyError::BlockhashUnavailable => 7,
            EntropyError::InvalidRevealCall => 8,
            EntropyError::CallbackComputeUnitLimitExceeded => 9,
        }
    }

    /// The error with a given ordinal, if there is one.
    pub fn from_code(code: u32) -> (e: Option<EntropyError>)
        ensures
            match e {
                Some(err) => err.code_spec() == code,
                None => code > 9,
            },
    {
        match code {
            0 => Some(EntropyError::InvalidInstruction),
            1 => Some(EntropyError::InvalidAccount),
            2 => Some(EntropyError::InvalidPda),
            3 => Some(EntropyError::NotImplemented),
            4 => Some(EntropyError::OutOfRandomness),
            5 => Some(EntropyError::LastRevealedTooOld),
            6 => Some(EntropyError::IncorrectRevelation),
            7 => Some(EntropyError::BlockhashUnavailable),
            8 => Some(EntropyError::InvalidRevealCall),
            9 => Some(EntropyError::CallbackComputeUnitLimitExceeded),
            _ => None,
        }
    }

    /// The program error that carries this error's code.
    pub fn program_error(self) -> (e: ProgramError)
        ensures
            e == self.program_error_spec(),
    {
        ProgramError::Custom(self.code())
    }

    /// The text shown for this error.
    pub fn message(self) -> (m: &'static str)
        ensures
            m@ == match self {
                EntropyError::InvalidInstruction => "invalid instruction"@,
                EntropyError::InvalidAccount => "invalid account"@,
                EntropyError::InvalidPda => "invalid PDA"@,
                EntropyError::NotImplemented => "not implemented"@,
                EntropyError::OutOfRandomness => "out of randomness"@,
                EntropyError::LastRevealedTooOld => "last revealed too old"@,
                EntropyError::IncorrectRevelation => "incorrect revelation"@,
                EntropyError::BlockhashUnavailable => "blockhash unavailable"@,
                EntropyError::InvalidRevealCall => "invalid reveal call"@,
                EntropyError::CallbackComputeUnitLimitExceeded =>
                    "callback exceeded compute unit limit"@,
            },
    {
        match self {
            EntropyError::InvalidInstruction => "invalid instruction",
            EntropyError::InvalidAccount => "invalid account",
            EntropyError::InvalidPda => "invalid PDA",
            EntropyError::NotImplemented => "not implemented",
            EntropyError::OutOfRandomness => "out of randomness",
            EntropyError::LastRevealedTooOld => "last revealed too old",
            EntropyError::IncorrectRevelation => "incorrect revelation",
            EntropyError::BlockhashUnavailable => "blockhash unavailable",
            EntropyError::InvalidRevealCall => "invalid reveal call",
            EntropyError::CallbackComputeUnitLimitExceeded => "callback exceeded compute unit limit",
        }
    }
}

impl From<EntropyError> for ProgramError {
    fn from(value: EntropyError) -> (e: ProgramError) {
        ProgramError::Custom(value.code())
    }
}

impl vstd::std_specs::convert::FromSpecImpl<EntropyError> for ProgramError {
    open spec fn obeys_from_spec() -> bool {
        true
    }

    open spec fn from_spec(value: EntropyError) -> ProgramError {
        value.program_error_spec()
    }
}

} // verus!
