use vstd::prelude::*;

use super::duration::{div_trunc, SignedDuration};

verus! {

/// Number of nanoseconds in one second.
pub open spec fn nanos_per_second() -> int {
    1_000_000_000
}

/// Earliest representable instant, in nanoseconds since the Unix epoch
/// (`-009999-01-02T01:59:59Z`).
pub open spec fn timestamp_min_nanos() -> int {
    -377_705_023_201_000_000_000int
}

/// Latest representable instant, in nanoseconds since the Unix epoch
/// (`9999-12-30T22:00:00.999999999Z`).
pub open spec fn timestamp_max_nanos() -> int {
    253_402_207_200_999_999_999int
}

/// Whether `n` nanoseconds since the epoch is a representable instant.
pub open spec fn in_timestamp_range(n: int) -> bool {
    timestamp_min_nanos() <= n <= timestamp_max_nanos()
}

/// An instant in time with nanosecond precision, viewed as the number of
/// nanoseconds since the Unix epoch. It covers the same range of instants as
/// `jiff::Timestamp`.
#[derive(Debug, Clone, Copy, PartialEq, Eq, Structural, Hash)]
pub struct Timestamp {
    pub(crate) nanos: i128,
}

impl View for Timestamp {
    type V = int;

    closed spec fn view(&self) -> int {
        self.nanos as int
    }
}

impl Timestamp {
    /// Every timestamp lies in the representable range.
    #[verifier::type_invariant]
    pub open spec fn in_range(self) -> bool {
        in_timestamp_range(self@)
    }

    /// Two timestamps with the same view are the same value.
    pub proof fn lemma_view_eq(a: Self, b: Self)
        requires
            a@ == b@,
        ensures
            a == b,
    {
    }

    /// Builds the timestamp `nanosecond` nanoseconds after the Unix epoch,
    /// or `None` when that instant is out of range.
    pub fn from_nanosecond(nanosecond: i128) -> (r: Option<Timestamp>)
        ensures
            r is Some <==> in_timestamp_range(nanosecond as int),
            r matches Some(t) ==> t@ == nanosecond,
    {
        if -377_705_023_201_000_000_000i128 <= nanosecond && nanosecond
            <= 253_402_207_200_999_999_999i128 {
            Some(Timestamp { nanos: nanosecond })
        } else {
            None
        }
    }

    /// Builds the timestamp `second` whole seconds after the Unix epoch, or
    /// `None` when that instant is out of range.
    pub fn from_second(second: i64) -> (r: Option<Timestamp>)
        ensures
            r is Some <==> in_timestamp_range(second * nanos_per_second()),
            r matches Some(t) ==> t@ == second * nanos_per_second(),
    {
        Self::from_nanosecond(second as i128 * 1_000_000_000)
    }

    /// Nanoseconds since the Unix epoch.
    pub fn as_nanosecond(&self) -> (r: i128)
        ensures
            r == self@,
            in_timestamp_range(r as int),
    {
        proof {
            use_type_invariant(self);
        }
        self.nanos
    }

    /// Whole seconds since the Unix epoch; a fractional second is truncated
    /// toward zero.
    pub fn as_second(&self) -> (r: i64)
        ensures
            r == div_trunc(self@, nanos_per_second()),
    {
        proof {
            use_type_invariant(self);
        }
        let q: i128 = if self.nanos >= 0 {
            self.nanos / 1_000_000_000
        } else {
            -((-self.nanos) / 1_000_000_000)
        };
        q as i64
    }

    /// The signed duration from `other` to `self`.
    pub fn duration_since(&self, other: &Timestamp) -> (r: SignedDuration)
        ensures
            r@ == self@ - other@,
    {
        proof {
            use_type_invariant(self);
            use_type_invariant(other);
        }
        SignedDuration::from_nanos_unchecked(self.nanos - other.nanos)
    }

    /// `self + duration`, or `None` when the sum is out of range.
    pub fn checked_add(&self, duration: &SignedDuration) -> (r: Option<Timestamp>)
        ensures
            r is Some <==> in_timestamp_range(self@ + duration@),
            r matches Some(t) ==> t@ == self@ + duration@,
    {
        proof {
            use_type_invariant(self);
            use_type_invariant(duration);
        }
        Self::from_nanosecond(self.nanos + duration.as_nanos())
    }

    /// `self + duration`; the sum must be in range.
    pub fn add(&self, duration: &SignedDuration) -> (r: Timestamp)
        requires
            in_timestamp_range(self@ + duration@),
        ensures
            r@ == self@ + duration@,
    {
        match self.checked_add(duration) {
            Some(t) => t,
            None => {
                assert(false);
                *self
            },
        }
    }

    /// Whether `self` is strictly earlier than `other`.
    pub fn is_before(&self, other: &Timestamp) -> (r: bool)
        ensures
            r == (self@ < other@),
    {
        self.nanos < other.nanos
    }

    /// Whether `self` and `other` are the same instant.
    pub fn same_instant(&self, other: &Timestamp) -> (r: bool)
        ensures
            r == (self@ == other@),
    {
        self.nanos == other.nanos
    }
}

} // verus!
