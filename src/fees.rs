//! 256-bit fee totals and the rule that decides whether a payload is better.

use vstd::prelude::*;

verus! {

/// 2^128, the weight of the high half of a [`U256`].
pub open spec fn half_base() -> nat {
    0x1_0000_0000_0000_0000_0000_0000_0000_0000nat
}

/// An unsigned 256-bit integer, held as two 128-bit halves.
#[derive(Clone, Copy, Debug, PartialEq, Eq, Structural)]
pub struct U256 {
    pub hi: u128,
    pub lo: u128,
}

impl View for U256 {
    type V = nat;

    open spec fn view(&self) -> nat {
        self.hi as nat * half_base() + self.lo as nat
    }
}

impl U256 {
    /// Zero.
    pub fn zero() -> (r: U256)
        ensures
            r@ == 0,
    {
        U256 { hi: 0, lo: 0 }
    }

    /// The value `v`.
    pub fn from_u128(v: u128) -> (r: U256)
        ensures
            r@ == v as nat,
    {
        U256 { hi: 0, lo: v }
    }

    /// The value `hi * 2^128 + lo`.
    pub fn from_halves(hi: u128, lo: u128) -> (r: U256)
        ensures
            r@ == hi as nat * half_base() + lo as nat,
    {
        U256 { hi, lo }
    }

    /// Whether `self` is strictly greater than `other`.
    pub fn gt(&self, other: &U256) -> (r: bool)
        ensures
            r == (self@ > other@),
    {
        proof {
            lemma_view_order(*self, *other);
        }
        self.hi > other.hi || (self.hi == other.hi && self.lo > other.lo)
    }

    /// The value as a `u64`, when it fits.
    pub fn to_u64(&self) -> (r: Option<u64>)
        ensures
            r matches Some(v) ==> v as nat == self@,
            r is None <==> self@ > u64::MAX as nat,
    {
        proof {
            lemma_view_order(*self, U256 { hi: 0, lo: u64::MAX as u128 });
        }
        if self.hi == 0 && self.lo <= u64::MAX as u128 {
            Some(self.lo as u64)
        } else {
            None
        }
    }

    /// The value as a `u64`, or `u64::MAX` when it does not fit.
    pub fn saturating_to_u64(&self) -> (r: u64)
        ensures
            r as nat == if self@ > u64::MAX as nat { u64::MAX as nat } else { self@ },
    {
        match self.to_u64() {
            Some(v) => v,
            None => u64::MAX,
        }
    }
}

/// The halves order the values lexicographically.
proof fn lemma_view_order(a: U256, b: U256)
    ensures
        (a@ > b@) == (a.hi > b.hi || (a.hi == b.hi && a.lo > b.lo)),
        (a@ == b@) == (a.hi == b.hi && a.lo == b.lo),
{
    if a.hi > b.hi {
        assert(a.hi as nat * half_base() >= b.hi as nat * half_base() + half_base()) by (nonlinear_arith)
            requires a.hi > b.hi;
    } else if a.hi < b.hi {
        assert(b.hi as nat * half_base() >= a.hi as nat * half_base() + half_base()) by (nonlinear_arith)
            requires a.hi < b.hi;
    }
}

} // verus!
