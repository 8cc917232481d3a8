//! Unsigned 256-bit quantities, the raw carrier of every fixed-point value.
//!
//! A [`Uint256`] is held as two 128-bit halves, so its mathematical value is
//! plain data to the verifier.  The four arithmetic operations are delegated
//! to `ethabi::Uint` (the 256-bit integer the on-chain data is encoded with)
//! through checked wrappers; comparisons and conversions are verified here.

use vstd::prelude::*;

verus! {

/// An unsigned 256-bit integer, split into a high and a low 128-bit half.
///
/// The value represented is `hi * 2^128 + lo`.
#[derive(Clone, Copy, Debug, PartialEq, Eq, Structural)]
pub struct Uint256 {
    /// The most significant 128 bits.
    pub hi: u128,
    /// The least significant 128 bits.
    pub lo: u128,
}

/// 2^128, the weight of the high half.
pub open spec fn two_pow_128() -> nat {
    0x1_0000_0000_0000_0000_0000_0000_0000_0000nat
}

/// 2^256, one past the largest representable value.
pub open spec fn two_pow_256() -> nat {
    0x1_0000_0000_0000_0000_0000_0000_0000_0000_0000_0000_0000_0000_0000_0000_0000_0000nat
}

/// 10^n.
pub open spec fn pow10(n: nat) -> nat
    decreases n,
{
    if n == 0 {
        1
    } else {
        10 * pow10((n - 1) as nat)
    }
}

impl Uint256 {
    /// The mathematical value of this integer.
    pub open spec fn val(self) -> nat {
        self.hi as nat * two_pow_128() + self.lo as nat
    }
}

impl View for Uint256 {
    type V = nat;

    open spec fn view(&self) -> nat {
        self.val()
    }
}

impl Uint256 {
    /// The value zero.
    pub fn zero() -> (r: Uint256)
        ensures
            r@ == 0,
    {
        Uint256 { hi: 0, lo: 0 }
    }

    /// Embeds a 128-bit value.
    pub fn from_u128(x: u128) -> (r: Uint256)
        ensures
            r@ == x,
    {
        Uint256 { hi: 0, lo: x }
    }

    /// True exactly when the value is zero.
    pub fn is_zero(&self) -> (r: bool)
        ensures
            r == (self@ == 0),
    {
        proof {
            if self.hi >= 1 {
                assert(self.hi as nat * two_pow_128() >= 1 * two_pow_128()) by (nonlinear_arith)
                    requires
                        self.hi as nat >= 1,
                ;
            }
        }
        self.hi == 0 && self.lo == 0
    }

    /// True exactly when this value is strictly below `other`.
    pub fn lt(&self, other: &Uint256) -> (r: bool)
        ensures
            r == (self@ < other@),
    {
        proof {
            if self.hi < other.hi {
                assert((self.hi as nat + 1) * two_pow_128() <= other.hi as nat * two_pow_128())
                    by (nonlinear_arith)
                    requires
                        self.hi as nat + 1 <= other.hi as nat,
                ;
            }
            if self.hi > other.hi {
                assert((other.hi as nat + 1) * two_pow_128() <= self.hi as nat * two_pow_128())
                    by (nonlinear_arith)
                    requires
                        other.hi as nat + 1 <= self.hi as nat,
                ;
            }
        }
        if self.hi < other.hi {
            true
        } else if self.hi == other.hi {
            self.lo < other.lo
        } else {
            false
        }
    }

    /// Extracts the value when it fits in 128 bits.
    pub fn to_u128(&self) -> (r: u128)
        requires
            self@ < two_pow_128(),
        ensures
            r as nat == self@,
    {
        proof {
            if self.hi >= 1 {
                assert(self.hi as nat * two_pow_128() >= 1 * two_pow_128()) by (nonlinear_arith)
                    requires
                        self.hi as nat >= 1,
                ;
            }
        }
        self.lo
    }

    /// Relies on `ethabi::Uint::checked_add`: the 256-bit sum, or `None` when
    /// it would not fit in 256 bits.
    #[verifier::external_body]
    pub(crate) fn checked_add(&self, other: &Uint256) -> (r: Option<Uint256>)
        ensures
            r is Some <==> self@ + other@ < two_pow_256(),
            r matches Some(v) ==> v@ == self@ + other@,
    {
        let a = (ethabi::Uint::from(self.hi) << 128u32) | ethabi::Uint::from(self.lo);
        let b = (ethabi::Uint::from(other.hi) << 128u32) | ethabi::Uint::from(other.lo);
        a.checked_add(b).map(|v| Uint256 { hi: (v >> 128u32).low_u128(), lo: v.low_u128() })
    }

    /// Relies on `ethabi::Uint::checked_sub`: the difference, or `None` when
    /// the true result would be negative.
    #[verifier::external_body]
    pub(crate) fn checked_sub(&self, other: &Uint256) -> (r: Option<Uint256>)
        ensures
            r is Some <==> other@ <= self@,
            r matches Some(v) ==> v@ == self@ - other@,
    {
        let a = (ethabi::Uint::from(self.hi) << 128u32) | ethabi::Uint::from(self.lo);
        let b = (ethabi::Uint::from(other.hi) << 128u32) | ethabi::Uint::from(other.lo);
        a.checked_sub(b).map(|v| Uint256 { hi: (v >> 128u32).low_u128(), lo: v.low_u128() })
    }

    /// Relies on `ethabi::Uint::checked_mul`: the 256-bit product, or `None`
    /// when it would not fit in 256 bits.
    #[verifier::external_body]
    pub(crate) fn checked_mul(&self, other: &Uint256) -> (r: Option<Uint256>)
        ensures
            r is Some <==> self@ * other@ < two_pow_256(),
            r matches Some(v) ==> v@ == self@ * other@,
    {
        let a = (ethabi::Uint::from(self.hi) << 128u32) | ethabi::Uint::from(self.lo);
        let b = (ethabi::Uint::from(other.hi) << 128u32) | ethabi::Uint::from(other.lo);
        a.checked_mul(b).map(|v| Uint256 { hi: (v >> 128u32).low_u128(), lo: v.low_u128() })
    }

    /// Relies on `ethabi::Uint::checked_div`: the truncating quotient, or
    /// `None` exactly when the divisor is zero.
    #[verifier::external_body]
    pub(crate) fn checked_div(&self, other: &Uint256) -> (r: Option<Uint256>)
        ensures
            r is Some <==> other@ != 0,
            r matches Some(v) ==> v@ == self@ / other@,
    {
        let a = (ethabi::Uint::from(self.hi) << 128u32) | ethabi::Uint::from(self.lo);
        let b = (ethabi::Uint::from(other.hi) << 128u32) | ethabi::Uint::from(other.lo);
        a.checked_div(b).map(|v| Uint256 { hi: (v >> 128u32).low_u128(), lo: v.low_u128() })
    }

    /// Relies on `ethabi::Uint::exp10`: returns 10^n, which fits in 256 bits
    /// for every n up to 77.
    #[verifier::external_body]
    pub(crate) fn exp10(n: usize) -> (r: Uint256)
        requires
            n <= 77,
        ensures
            r@ == pow10(n as nat),
    {
        let v = ethabi::Uint::exp10(n);
        Uint256 { hi: (v >> 128u32).low_u128(), lo: v.low_u128() }
    }
}

} // verus!
