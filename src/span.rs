//! Lengths of time, kept as whole seconds and a nanosecond remainder.

use vstd::prelude::*;

verus! {

/// Nanoseconds in one second.
pub const NANOS_PER_SEC: u32 = 1_000_000_000;

/// A non-negative length of time.
#[derive(Clone, Copy, Debug, PartialEq, Eq, Structural)]
pub struct Span {
    pub secs: u64,
    pub nanos: u32,
}

impl Span {
    /// The span is well formed: the nanosecond part stays below one second.
    pub open spec fn wf(self) -> bool {
        self.nanos < NANOS_PER_SEC
    }

    /// The length of the span in nanoseconds.
    pub open spec fn nanos_total(self) -> nat {
        self.secs as nat * NANOS_PER_SEC as nat + self.nanos as nat
    }

    /// The empty span.
    pub fn zero() -> (r: Span)
        ensures
            r.wf(),
            r.nanos_total() == 0,
    {
        Span { secs: 0, nanos: 0 }
    }

    /// A span of whole seconds.
    pub fn from_secs(secs: u64) -> (r: Span)
        ensures
            r.wf(),
            r.nanos_total() == secs as nat * NANOS_PER_SEC as nat,
    {
        Span { secs, nanos: 0 }
    }

    /// Whether `self` is shorter than or as long as `other`.
    pub fn le(&self, other: &Span) -> (r: bool)
        requires
            self.wf(),
            other.wf(),
        ensures
            r == (self.nanos_total() <= other.nanos_total()),
    {
        proof {
            lemma_order(*self, *other);
        }
        self.secs < other.secs || (self.secs == other.secs && self.nanos <= other.nanos)
    }

    /// `self - other`, or zero when `other` is the longer one.
    pub fn saturating_sub(&self, other: &Span) -> (r: Span)
        requires
            self.wf(),
            other.wf(),
        ensures
            r.wf(),
            r.nanos_total() == sub_or_zero(self.nanos_total(), other.nanos_total()),
    {
        if self.le(other) {
            Span::zero()
        } else if self.nanos >= other.nanos {
            proof {
                lemma_order(*self, *other);
            }
            Span { secs: self.secs - other.secs, nanos: self.nanos - other.nanos }
        } else {
            proof {
                lemma_order(*self, *other);
            }
            Span { secs: self.secs - other.secs - 1, nanos: NANOS_PER_SEC - other.nanos + self.nanos }
        }
    }

    /// The shorter of the two spans.
    pub fn min(&self, other: &Span) -> (r: Span)
        requires
            self.wf(),
            other.wf(),
        ensures
            r.wf(),
            r.nanos_total() == if self.nanos_total() <= other.nanos_total() {
                self.nanos_total()
            } else {
                other.nanos_total()
            },
    {
        if self.le(other) {
            *self
        } else {
            *other
        }
    }

    /// `self + other`.
    pub fn add(&self, other: &Span) -> (r: Span)
        requires
            self.wf(),
            other.wf(),
            self.nanos_total() + other.nanos_total() <= max_nanos(),
        ensures
            r.wf(),
            r.nanos_total() == self.nanos_total() + other.nanos_total(),
    {
        let n: u32 = self.nanos + other.nanos;
        if n >= NANOS_PER_SEC {
            assert(self.secs as nat + other.secs as nat + 1 <= u64::MAX as nat);
            Span { secs: self.secs + other.secs + 1, nanos: n - NANOS_PER_SEC }
        } else {
            assert(self.secs as nat + other.secs as nat <= u64::MAX as nat);
            Span { secs: self.secs + other.secs, nanos: n }
        }
    }

    /// `self * k`.
    pub fn mul(&self, k: u32) -> (r: Span)
        requires
            self.wf(),
            self.nanos_total() * k as nat <= max_nanos(),
        ensures
            r.wf(),
            r.nanos_total() == self.nanos_total() * k as nat,
    {
        proof {
            assert(self.nanos as nat * k as nat <= 1_000_000_000nat * 0xffff_ffffnat) by (nonlinear_arith)
                requires
                    self.nanos < 1_000_000_000nat,
                    k <= 0xffff_ffffnat;
        }
        let prod: u64 = self.nanos as u64 * k as u64;
        let carry: u64 = prod / NANOS_PER_SEC as u64;
        let rem: u64 = prod % NANOS_PER_SEC as u64;
        proof {
            let s = self.secs as nat;
            let kk = k as nat;
            let b = NANOS_PER_SEC as nat;
            assert(prod as nat == carry as nat * b + rem as nat) by (nonlinear_arith)
                requires
                    carry as nat == prod as nat / b,
                    rem as nat == prod as nat % b,
                    b > 0;
            assert(self.nanos_total() * kk == s * kk * b + prod as nat) by (nonlinear_arith)
                requires
                    self.nanos_total() == s * b + self.nanos as nat,
                    prod as nat == self.nanos as nat * kk;
            assert((s * kk + carry as nat) * b + rem as nat <= max_nanos()) by (nonlinear_arith)
                requires
                    self.nanos_total() * kk == s * kk * b + prod as nat,
                    prod as nat == carry as nat * b + rem as nat,
                    self.nanos_total() * kk <= max_nanos();
            assert(s * kk + carry as nat <= u64::MAX as nat) by (nonlinear_arith)
                requires
                    (s * kk + carry as nat) * b + rem as nat <= max_nanos(),
                    max_nanos() == (u64::MAX as nat + 1) * b - 1,
                    b > 0;
            assert(s * kk <= u64::MAX as nat) by (nonlinear_arith)
                requires s * kk + carry as nat <= u64::MAX as nat;
        }
        let secs: u64 = self.secs * k as u64 + carry;
        proof {
            assert(secs as nat * NANOS_PER_SEC as nat + rem as nat == self.nanos_total() * k as nat) by (nonlinear_arith)
                requires
                    secs as nat == self.secs as nat * k as nat + carry as nat,
                    self.nanos_total() * k as nat == self.secs as nat * k as nat * NANOS_PER_SEC as nat + prod as nat,
                    prod as nat == carry as nat * NANOS_PER_SEC as nat + rem as nat;
        }
        Span { secs, nanos: rem as u32 }
    }
}

/// The longest span that can be held.
pub open spec fn max_nanos() -> nat {
    ((u64::MAX as nat + 1) * NANOS_PER_SEC as nat - 1) as nat
}

/// `a - b` on naturals, saturating at zero.
pub open spec fn sub_or_zero(a: nat, b: nat) -> nat {
    if a > b {
        (a - b) as nat
    } else {
        0
    }
}

/// Seconds first, then nanoseconds, orders well-formed spans by length.
proof fn lemma_order(a: Span, b: Span)
    requires
        a.wf(),
        b.wf(),
    ensures
        (a.nanos_total() <= b.nanos_total()) == (a.secs < b.secs || (a.secs == b.secs && a.nanos <= b.nanos)),
{
    let n = NANOS_PER_SEC as nat;
    if a.secs < b.secs {
        assert(a.secs as nat * n + n <= b.secs as nat * n) by (nonlinear_arith)
            requires
                a.secs < b.secs;
    } else if a.secs > b.secs {
        assert(b.secs as nat * n + n <= a.secs as nat * n) by (nonlinear_arith)
            requires
                a.secs > b.secs;
    }
}

} // verus!
