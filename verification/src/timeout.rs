//! A span of time, in whole seconds and nanoseconds.

use vstd::prelude::*;

use crate::outside;

verus! {

/// Nanoseconds in one second.
pub const NANOS_PER_SEC: u32 = 1_000_000_000;

/// Nanoseconds in one millisecond.
pub const NANOS_PER_MILLI: u32 = 1_000_000;

/// Milliseconds in one second.
pub const MILLIS_PER_SEC: u64 = 1_000;

/// A limit on how long a backend may take. Its view is the number of
/// nanoseconds.
#[derive(Clone, Copy, Debug, PartialEq, Eq, Structural)]
pub struct Timeout {
    secs: u64,
    nanos: u32,
}

impl View for Timeout {
    type V = nat;

    closed spec fn view(&self) -> nat {
        (self.secs * NANOS_PER_SEC + self.nanos) as nat
    }
}

/// The longest span that a `Timeout` can hold, in nanoseconds.
pub open spec fn longest() -> nat {
    (u64::MAX * NANOS_PER_SEC + (NANOS_PER_SEC - 1)) as nat
}

/// How a span of `nanos` nanoseconds is written: milliseconds as `500ms`, for
/// instance, and seconds as `1.5s`.
pub open spec fn span_text(nanos: nat) -> Seq<char> {
    outside::duration_text(
        (nanos / NANOS_PER_SEC as nat) as u64,
        (nanos % NANOS_PER_SEC as nat) as u32,
    )
}

impl Timeout {
    #[verifier::type_invariant]
    spec fn normalised(self) -> bool {
        self.nanos < NANOS_PER_SEC
    }

    /// The span of `secs` seconds and `nanos` nanoseconds.
    pub fn new(secs: u64, nanos: u32) -> (timeout: Timeout)
        requires
            secs * NANOS_PER_SEC + nanos <= longest(),
        ensures
            timeout@ == secs * NANOS_PER_SEC + nanos,
    {
        let carry: u64 = (nanos / NANOS_PER_SEC) as u64;
        let rest: u32 = nanos % NANOS_PER_SEC;
        Timeout { secs: secs + carry, nanos: rest }
    }

    /// The span of `millis` milliseconds.
    pub fn from_millis(millis: u64) -> (timeout: Timeout)
        ensures
            timeout@ == millis * NANOS_PER_MILLI,
    {
        let rest: u64 = millis % MILLIS_PER_SEC;
        Timeout { secs: millis / MILLIS_PER_SEC, nanos: (rest as u32) * NANOS_PER_MILLI }
    }

    /// The whole seconds of the span.
    pub fn as_secs(&self) -> (secs: u64)
        ensures
            secs == self@ / NANOS_PER_SEC as nat,
    {
        proof {
            use_type_invariant(self);
        }
        self.secs
    }

    /// The nanoseconds of the span beyond its whole seconds.
    pub fn subsec_nanos(&self) -> (nanos: u32)
        ensures
            nanos == self@ % NANOS_PER_SEC as nat,
    {
        proof {
            use_type_invariant(self);
        }
        self.nanos
    }

    /// Whether the span is empty.
    pub fn is_zero(&self) -> (zero: bool)
        ensures
            zero == (self@ == 0),
    {
        self.secs == 0 && self.nanos == 0
    }

    /// The sum of two spans, or the longest span where the sum exceeds it.
    pub fn saturating_add(self, other: Timeout) -> (sum: Timeout)
        ensures
            sum@ == if self@ + other@ <= longest() {
                self@ + other@
            } else {
                longest()
            },
    {
        proof {
            use_type_invariant(&self);
            use_type_invariant(&other);
        }
        let nanos: u32 = self.nanos + other.nanos;
        let carry: u64 = if nanos >= NANOS_PER_SEC {
            1
        } else {
            0
        };
        let rest: u32 = nanos % NANOS_PER_SEC;
        match self.secs.checked_add(other.secs) {
            Some(secs) => match secs.checked_add(carry) {
                Some(total) => Timeout { secs: total, nanos: rest },
                None => Timeout { secs: u64::MAX, nanos: NANOS_PER_SEC - 1 },
            },
            None => Timeout { secs: u64::MAX, nanos: NANOS_PER_SEC - 1 },
        }
    }

    /// The span as it is written in messages.
    pub fn to_text(&self) -> (text: String)
        ensures
            text@ == span_text(self@),
    {
        outside::format_duration(self.as_secs(), self.subsec_nanos())
    }
}

/// The longest span has the most seconds and the most nanoseconds that there are.
pub proof fn the_longest_span()
    ensures
        longest() == 18_446_744_073_709_551_615 * 1_000_000_000 + 999_999_999,
{
}

/// A span is written by its whole seconds and the nanoseconds beyond them.
pub proof fn spans_are_written_by_seconds_and_nanoseconds(secs: u64, nanos: u32)
    requires
        nanos < 1_000_000_000,
    ensures
        span_text((secs * 1_000_000_000 + nanos) as nat) == outside::duration_text(secs, nanos),
{
    let whole: nat = (secs * 1_000_000_000 + nanos) as nat;
    assert(whole / 1_000_000_000 == secs && whole % 1_000_000_000 == nanos) by (nonlinear_arith)
        requires
            whole == secs * 1_000_000_000 + nanos,
            0 <= nanos < 1_000_000_000,
    ;
}

} // verus!
