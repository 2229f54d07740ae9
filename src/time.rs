//! Durations and client heights as plain values.
use vstd::prelude::*;

verus! {

/// Nanoseconds in one second.
pub const NANOS_PER_SEC: u128 = 1_000_000_000;

/// The longest span that can be represented: `u64::MAX` seconds plus just
/// under one second, in nanoseconds.
pub const MAX_SPAN_NANOS: u128 = 18_446_744_073_709_551_615_999_999_999;

/// A non-negative length of time with nanosecond resolution.
#[derive(Clone, Copy, Debug, PartialEq, Eq, Structural)]
pub struct Span {
    nanos: u128,
}

impl View for Span {
    type V = nat;

    closed spec fn view(&self) -> nat {
        self.nanos as nat
    }
}

impl Span {
    #[verifier::type_invariant]
    spec fn inv(&self) -> bool {
        self.nanos <= MAX_SPAN_NANOS
    }

    pub fn zero() -> (r: Span)
        ensures
            r@ == 0,
    {
        Span { nanos: 0 }
    }

    pub fn from_secs(secs: u64) -> (r: Span)
        ensures
            r@ == secs as nat * NANOS_PER_SEC,
    {
        assert(secs as nat * NANOS_PER_SEC <= MAX_SPAN_NANOS) by (nonlinear_arith)
            requires
                secs <= u64::MAX,
        ;
        Span { nanos: secs as u128 * NANOS_PER_SEC }
    }

    pub fn from_nanos(nanos: u64) -> (r: Span)
        ensures
            r@ == nanos as nat,
    {
        Span { nanos: nanos as u128 }
    }

    /// A span of `secs` seconds and `subsec_nanos` nanoseconds.
    pub fn from_parts(secs: u64, subsec_nanos: u32) -> (r: Span)
        requires
            subsec_nanos < NANOS_PER_SEC,
        ensures
            r@ == secs as nat * NANOS_PER_SEC + subsec_nanos as nat,
    {
        assert(secs as nat * NANOS_PER_SEC + subsec_nanos as nat <= MAX_SPAN_NANOS)
            by (nonlinear_arith)
            requires
                secs <= u64::MAX,
                subsec_nanos < NANOS_PER_SEC,
        ;
        Span { nanos: secs as u128 * NANOS_PER_SEC + subsec_nanos as u128 }
    }

    /// Length in nanoseconds; never above `MAX_SPAN_NANOS`.
    pub fn as_nanos(&self) -> (r: u128)
        ensures
            r == self@,
            r <= MAX_SPAN_NANOS,
    {
        proof {
            use_type_invariant(self);
        }
        self.nanos
    }

    /// Whole seconds in the span.
    pub fn as_secs(&self) -> (r: u64)
        ensures
            r == self@ / NANOS_PER_SEC as nat,
    {
        proof {
            use_type_invariant(self);
        }
        assert(self.nanos / NANOS_PER_SEC <= u64::MAX) by (nonlinear_arith)
            requires
                self.nanos <= MAX_SPAN_NANOS,
        ;
        (self.nanos / NANOS_PER_SEC) as u64
    }

    /// The nanoseconds beyond the whole seconds.
    pub fn subsec_nanos(&self) -> (r: u32)
        ensures
            r == self@ % NANOS_PER_SEC as nat,
            r < NANOS_PER_SEC,
    {
        (self.nanos % NANOS_PER_SEC) as u32
    }

    /// A third of the span, rounded down to the nanosecond.
    pub closed spec fn spec_third(self) -> Span {
        Span { nanos: self.nanos / 3 }
    }

    /// A third of a span is a third of its length.
    pub proof fn lemma_third(self)
        ensures
            self.spec_third()@ == self@ / 3,
    {
    }

    /// A third of the span, rounded down to the nanosecond.
    pub fn third(&self) -> (r: Span)
        ensures
            r == self.spec_third(),
            r@ == self@ / 3,
    {
        proof {
            use_type_invariant(self);
        }
        Span { nanos: self.nanos / 3 }
    }
}

/// The height of a client state: a revision number and a height within
/// that revision.
#[derive(Clone, Copy, Debug, PartialEq, Eq, Structural)]
pub struct Height {
    pub revision_number: u64,
    pub revision_height: u64,
}

/// Heights are ordered by revision first, then by height within it.
pub open spec fn height_lt(a: Height, b: Height) -> bool {
    a.revision_number < b.revision_number || (a.revision_number == b.revision_number
        && a.revision_height < b.revision_height)
}

impl Height {
    /// A height; a height of zero within a revision does not exist.
    pub fn new(revision_number: u64, revision_height: u64) -> (r: Option<Height>)
        ensures
            r is Some <==> revision_height != 0,
            r matches Some(h) ==> h.revision_number == revision_number && h.revision_height
                == revision_height,
    {
        if revision_height == 0 {
            None
        } else {
            Some(Height { revision_number, revision_height })
        }
    }

    /// The lowest height: revision 0, height 1.
    pub fn min() -> (r: Height)
        ensures
            r.revision_number == 0,
            r.revision_height == 1,
    {
        Height { revision_number: 0, revision_height: 1 }
    }

    /// Whether `self` is strictly above `other`.
    pub fn is_after(&self, other: &Height) -> (r: bool)
        ensures
            r == height_lt(*other, *self),
    {
        self.revision_number > other.revision_number || (self.revision_number
            == other.revision_number && self.revision_height > other.revision_height)
    }
}

} // verus!
