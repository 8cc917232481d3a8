//! Scaled-integer fixed-point values.
//!
//! A [`FixedPoint`] represents the rational number `raw / 10^decimals` with
//! an unsigned 256-bit `raw` part and an explicit decimal precision.  All
//! operations use truncating integer division (no rounding), exactly as the
//! on-chain arithmetic does, so repeated operations are lossy on purpose.
//! Values of differing precision must be brought to a common precision with
//! [`FixedPoint::rescale`] before they are combined.

use vstd::prelude::*;

use crate::errors::ArithmeticError;
use crate::uint256::pow10;
use crate::uint256::two_pow_256;
use crate::uint256::Uint256;

verus! {

/// The mathematical content of a [`FixedPoint`]: the raw scaled integer and
/// the decimal precision it is scaled by.
#[verifier::ext_equal]
pub struct FixedPointView {
    /// The raw integer; the value represented is `raw / 10^decimals`.
    pub raw: nat,
    /// The decimal precision.
    pub decimals: nat,
}

/// An unsigned fixed-point number: a raw 256-bit integer logically divided
/// by a power of ten.
#[derive(Clone, Copy, Debug, PartialEq, Eq, Structural)]
pub struct FixedPoint {
    /// The raw scaled integer; the value represented is `raw / 10^decimals`.
    pub raw: Uint256,
    /// The decimal precision.
    pub decimals: usize,
}

impl View for FixedPoint {
    type V = FixedPointView;

    open spec fn view(&self) -> FixedPointView {
        FixedPointView { raw: self.raw@, decimals: self.decimals as nat }
    }
}

/// 10^n is never zero.
pub proof fn lemma_pow10_pos(n: nat)
    ensures
        pow10(n) >= 1,
    decreases n,
{
    if n > 0 {
        lemma_pow10_pos((n - 1) as nat);
    }
}

/// Maps a fallible fixed-point result to its mathematical content.
pub open spec fn fp_result(r: Result<FixedPoint, ArithmeticError>) -> Result<
    FixedPointView,
    ArithmeticError,
> {
    match r {
        Ok(v) => Ok(v@),
        Err(e) => Err(e),
    }
}

/// The sum of two values of equal precision, or `Overflow` when it leaves
/// the 256-bit range.
pub open spec fn spec_add(a: FixedPointView, b: FixedPointView) -> Result<
    FixedPointView,
    ArithmeticError,
> {
    if a.raw + b.raw >= two_pow_256() {
        Err(ArithmeticError::Overflow)
    } else {
        Ok(FixedPointView { raw: (a.raw + b.raw) as nat, decimals: a.decimals })
    }
}

/// The difference of two values of equal precision, or `Underflow` when the
/// true result would be negative.
pub open spec fn spec_sub(a: FixedPointView, b: FixedPointView) -> Result<
    FixedPointView,
    ArithmeticError,
> {
    if b.raw > a.raw {
        Err(ArithmeticError::Underflow)
    } else {
        Ok(FixedPointView { raw: (a.raw - b.raw) as nat, decimals: a.decimals })
    }
}

/// The product of two values of equal precision `d`: the raw parts are
/// multiplied in full precision and divided, truncating, by `10^d`.
pub open spec fn spec_mul(a: FixedPointView, b: FixedPointView) -> Result<
    FixedPointView,
    ArithmeticError,
> {
    if a.raw * b.raw >= two_pow_256() {
        Err(ArithmeticError::Overflow)
    } else {
        Ok(FixedPointView { raw: a.raw * b.raw / pow10(a.decimals), decimals: a.decimals })
    }
}

/// The quotient of two values of equal precision `d`: the dividend is scaled
/// by `10^d` in full precision, then divided, truncating, by the divisor.
pub open spec fn spec_div(a: FixedPointView, b: FixedPointView) -> Result<
    FixedPointView,
    ArithmeticError,
> {
    if a.raw * pow10(a.decimals) >= two_pow_256() {
        Err(ArithmeticError::Overflow)
    } else if b.raw == 0 {
        Err(ArithmeticError::DivideByZero)
    } else {
        Ok(FixedPointView { raw: a.raw * pow10(a.decimals) / b.raw, decimals: a.decimals })
    }
}

/// The same value re-expressed with `to` decimals: multiplied by a power of
/// ten when precision grows, divided (truncating) when it shrinks.
pub open spec fn spec_rescale(a: FixedPointView, to: nat) -> Result<
    FixedPointView,
    ArithmeticError,
> {
    if to >= a.decimals {
        if a.raw * pow10((to - a.decimals) as nat) >= two_pow_256() {
            Err(ArithmeticError::Overflow)
        } else {
            Ok(FixedPointView { raw: a.raw * pow10((to - a.decimals) as nat), decimals: to })
        }
    } else {
        Ok(FixedPointView { raw: a.raw / pow10((a.decimals - to) as nat), decimals: to })
    }
}

impl FixedPoint {
    /// Builds a value from its raw scaled integer and its precision.
    pub fn from_raw(raw: Uint256, decimals: usize) -> (r: FixedPoint)
        ensures
            r@.raw == raw@,
            r@.decimals == decimals,
    {
        FixedPoint { raw, decimals }
    }

    /// Builds a value whose raw part fits in 128 bits.
    pub fn from_u128(raw: u128, decimals: usize) -> (r: FixedPoint)
        ensures
            r@.raw == raw,
            r@.decimals == decimals,
    {
        FixedPoint { raw: Uint256::from_u128(raw), decimals }
    }

    /// Builds the value `units` (a whole number of units) at the given
    /// precision, that is `units * 10^decimals`.
    pub fn from_units(units: u128, decimals: usize) -> (r: Result<FixedPoint, ArithmeticError>)
        requires
            decimals <= 77,
        ensures
            fp_result(r) == (if units * pow10(decimals as nat) >= two_pow_256() {
                Err::<FixedPointView, ArithmeticError>(ArithmeticError::Overflow)
            } else {
                Ok::<FixedPointView, ArithmeticError>(
                    FixedPointView {
                        raw: (units * pow10(decimals as nat)) as nat,
                        decimals: decimals as nat,
                    },
                )
            }),
    {
        let scale = Uint256::exp10(decimals);
        match Uint256::from_u128(units).checked_mul(&scale) {
            Some(raw) => Ok(FixedPoint { raw, decimals }),
            None => Err(ArithmeticError::Overflow),
        }
    }

    /// The raw scaled integer, when it fits in 128 bits.
    pub fn raw_u128(&self) -> (r: u128)
        requires
            self@.raw < crate::uint256::two_pow_128(),
        ensures
            r == self@.raw,
    {
        self.raw.to_u128()
    }

    /// True exactly when this value is strictly below `other`, both having
    /// the same precision.
    pub fn lt(&self, other: &FixedPoint) -> (r: bool)
        requires
            self@.decimals == other@.decimals,
        ensures
            r == (self@.raw < other@.raw),
    {
        self.raw.lt(&other.raw)
    }

    /// Addition of two values of equal precision.
    pub fn add(&self, other: &FixedPoint) -> (r: Result<FixedPoint, ArithmeticError>)
        requires
            self@.decimals == other@.decimals,
        ensures
            fp_result(r) == spec_add(self@, other@),
    {
        match self.raw.checked_add(&other.raw) {
            Some(raw) => Ok(FixedPoint { raw, decimals: self.decimals }),
            None => Err(ArithmeticError::Overflow),
        }
    }

    /// Subtraction of two values of equal precision; `Underflow` when the
    /// true result would be negative.
    pub fn sub(&self, other: &FixedPoint) -> (r: Result<FixedPoint, ArithmeticError>)
        requires
            self@.decimals == other@.decimals,
        ensures
            fp_result(r) == spec_sub(self@, other@),
    {
        match self.raw.checked_sub(&other.raw) {
            Some(raw) => Ok(FixedPoint { raw, decimals: self.decimals }),
            None => Err(ArithmeticError::Underflow),
        }
    }

    /// Multiplication of two values of equal precision.
    pub fn mul(&self, other: &FixedPoint) -> (r: Result<FixedPoint, ArithmeticError>)
        requires
            self@.decimals == other@.decimals,
            self@.decimals <= 77,
        ensures
            fp_result(r) == spec_mul(self@, other@),
    {
        let product = match self.raw.checked_mul(&other.raw) {
            Some(p) => p,
            None => {
                return Err(ArithmeticError::Overflow);
            },
        };
        let scale = Uint256::exp10(self.decimals);
        proof {
            lemma_pow10_pos(self.decimals as nat);
        }
        match product.checked_div(&scale) {
            Some(raw) => Ok(FixedPoint { raw, decimals: self.decimals }),
            None => Err(ArithmeticError::DivideByZero),
        }
    }

    /// Division of two values of equal precision; `DivideByZero` when the
    /// divisor is zero.
    pub fn div(&self, other: &FixedPoint) -> (r: Result<FixedPoint, ArithmeticError>)
        requires
            self@.decimals == other@.decimals,
            self@.decimals <= 77,
        ensures
            fp_result(r) == spec_div(self@, other@),
    {
        let scale = Uint256::exp10(self.decimals);
        let scaled = match self.raw.checked_mul(&scale) {
            Some(p) => p,
            None => {
                return Err(ArithmeticError::Overflow);
            },
        };
        match scaled.checked_div(&other.raw) {
            Some(raw) => Ok(FixedPoint { raw, decimals: self.decimals }),
            None => Err(ArithmeticError::DivideByZero),
        }
    }

    /// Re-expresses the value with `to` decimals.  Growing the precision can
    /// overflow; shrinking it truncates.
    pub fn rescale(&self, to: usize) -> (r: Result<FixedPoint, ArithmeticError>)
        requires
            self@.decimals <= 77,
            to <= 77,
        ensures
            fp_result(r) == spec_rescale(self@, to as nat),
    {
        if to >= self.decimals {
            let factor = Uint256::exp10(to - self.decimals);
            match self.raw.checked_mul(&factor) {
                Some(raw) => Ok(FixedPoint { raw, decimals: to }),
                None => Err(ArithmeticError::Overflow),
            }
        } else {
            let factor = Uint256::exp10(self.decimals - to);
            proof {
                lemma_pow10_pos((self.decimals - to) as nat);
            }
            match self.raw.checked_div(&factor) {
                Some(raw) => Ok(FixedPoint { raw, decimals: to }),
                None => Err(ArithmeticError::DivideByZero),
            }
        }
    }
}

} // verus!
