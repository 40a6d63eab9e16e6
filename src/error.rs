//! Error types
use vstd::prelude::*;

verus! {

/// Errors that may be returned by the swap program.
#[derive(Clone, Copy, Debug, PartialEq, Eq, Structural)]
pub enum SwapError {
    InvalidInstruction,
    AlreadyInUse,
    ExpectedAccount,
    InvalidProgramAddress,
}

impl SwapError {
    /// The stable numeric code that the host reports for this error.
    pub open spec fn spec_code(self) -> u32 {
        match self {
            SwapError::InvalidInstruction => 0,
            SwapError::AlreadyInUse => 1,
            SwapError::ExpectedAccount => 2,
            SwapError::InvalidProgramAddress => 3,
        }
    }

    #[verifier::when_used_as_spec(spec_code)]
    pub fn code(self) -> (r: u32)
        ensures
            r == self.spec_code(),
    {
        match self {
            SwapError::InvalidInstruction => 0,
            SwapError::AlreadyInUse => 1,
            SwapError::ExpectedAccount => 2,
            SwapError::InvalidProgramAddress => 3,
        }
    }
}

/// The failures that processing an instruction reports to the host.
#[derive(Clone, Copy, Debug, PartialEq, Eq, Structural)]
pub enum ProgramError {
    /// A program-specific error, carrying the code of a `SwapError`.
    Custom(u32),
    /// An account's data does not hold a valid record.
    InvalidAccountData,
    /// A record that must be initialized is not.
    UninitializedAccount,
    /// Fewer accounts were supplied than the instruction needs.
    NotEnoughAccountKeys,
    /// An argument of the instruction is not acceptable.
    InvalidArgument,
    /// An amount does not fit in 64 bits.
    ArithmeticOverflow,
}

/// The host error that carries a swap error.
pub open spec fn swap_failure(e: SwapError) -> ProgramError {
    ProgramError::Custom(e.spec_code())
}

impl From<SwapError> for ProgramError {
    fn from(e: SwapError) -> (r: ProgramError)
        ensures
            r == swap_failure(e),
    {
        ProgramError::Custom(e.code())
    }
}

impl vstd::std_specs::convert::FromSpecImpl<SwapError> for ProgramError {
    open spec fn obeys_from_spec() -> bool {
        true
    }

    open spec fn from_spec(e: SwapError) -> ProgramError {
        swap_failure(e)
    }
}

} // verus!
