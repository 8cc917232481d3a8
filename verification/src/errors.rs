//! Error taxonomy of the vault engine.

use vstd::prelude::*;

verus! {

/// An arithmetic failure of the fixed-point engine.
///
/// The engine works on unsigned 256-bit quantities, so a subtraction whose
/// mathematical result would be negative is an error, as is a division by
/// zero.  Every operation is total: instead of panicking, the engine reports
/// which limit was hit.
#[derive(Clone, Copy, Debug, PartialEq, Eq, Structural)]
pub enum ArithmeticError {
    /// A subtraction would have produced a negative value in an unsigned
    /// representation; typically the sign of malformed policy thresholds
    /// (for example a boost or repay ratio at or below the 100% baseline).
    Underflow,
    /// A division had a zero divisor: zero collateral, or a ratio parameter
    /// at the 100% baseline.
    DivideByZero,
    /// An intermediate product or sum exceeded the unsigned 256-bit range.
    Overflow,
    /// The draw/repay iteration stopped making progress toward the target
    /// band, or did not reach it within the step budget; reported instead of
    /// looping forever on degenerate policy parameters.
    NoConvergence,
    /// An external collaborator could not supply vault or price data.  The
    /// engine never produces this itself; it only propagates it.
    DataUnavailable,
}

/// An error reported by a remote blockchain endpoint, carrying the message
/// of the failed read.  The engine itself never constructs one; callers that
/// fetch vault and price data do.
#[derive(Clone, Debug)]
pub struct BlockchainError(pub String);

impl BlockchainError {
    /// The message carried by the error.
    pub fn message(&self) -> (r: &String)
        ensures
            r@ == self.0@,
    {
        &self.0
    }
}

} // verus!
