//! Error taxonomy: every failure an operation can report.

use vstd::prelude::*;

verus! {

/// Errors raised by the codec, the fee validator and the orchestrators.
///
/// `ForwardCallFailure` and `SkimCallFailure` stand for opaque errors
/// propagated from an invoked external program; every error is terminal for
/// the enclosing unit of work.
#[derive(Clone, Copy, Debug, PartialEq, Eq, Structural)]
pub enum AmmError {
    /// Unknown discriminant tag, or a buffer shorter than a field requires.
    InvalidInstruction,
    /// Malformed input outside the instruction codec.
    InvalidInput,
    /// A fee fraction rejected by the validator.
    InvalidFee,
    /// An operation attempted in a state that does not allow it.
    InvalidStatus,
    /// A numeric width conversion failed.
    ConversionFailure,
    /// Fewer account references than the operation requires.
    MissingAccount,
    /// Checked arithmetic failed; fatal for the whole unit of work.
    ArithmeticOverflow,
    /// The forwarded call to the external program reported failure.
    ForwardCallFailure,
    /// A skim transfer call reported failure.
    SkimCallFailure,
}

impl AmmError {
    /// Stable numeric code for each variant, for hosts that report a custom
    /// error number.
    pub fn code(&self) -> (c: u32)
        ensures
            c == self.spec_code(),
    {
        match self {
            AmmError::InvalidInstruction => 0,
            AmmError::InvalidInput => 1,
            AmmError::InvalidFee => 2,
            AmmError::InvalidStatus => 3,
            AmmError::ConversionFailure => 4,
            AmmError::MissingAccount => 5,
            AmmError::ArithmeticOverflow => 6,
            AmmError::ForwardCallFailure => 7,
            AmmError::SkimCallFailure => 8,
        }
    }

    pub open spec fn spec_code(&self) -> u32 {
        match self {
            AmmError::InvalidInstruction => 0,
            AmmError::InvalidInput => 1,
            AmmError::InvalidFee => 2,
            AmmError::InvalidStatus => 3,
            AmmError::ConversionFailure => 4,
            AmmError::MissingAccount => 5,
            AmmError::ArithmeticOverflow => 6,
            AmmError::ForwardCallFailure => 7,
            AmmError::SkimCallFailure => 8,
        }
    }
}

} // verus!
