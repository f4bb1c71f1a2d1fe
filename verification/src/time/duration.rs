use vstd::prelude::*;

verus! {

/// Integer division rounded toward zero, as Rust divides signed integers.
pub open spec fn div_trunc(a: int, b: int) -> int
    recommends
        b > 0,
{
    if a >= 0 {
        a / b
    } else {
        -((-a) / b)
    }
}

/// Longest signed duration, in nanoseconds: `i64::MAX` seconds and
/// 999,999,999 nanoseconds.
pub open spec fn duration_max_nanos() -> int {
    9_223_372_036_854_775_807_999_999_999int
}

/// Most negative signed duration, in nanoseconds: `i64::MIN` seconds and
/// -999,999,999 nanoseconds.
pub open spec fn duration_min_nanos() -> int {
    -9_223_372_036_854_775_808_999_999_999int
}

/// Whether `n` nanoseconds is a representable signed duration.
pub open spec fn in_duration_range(n: int) -> bool {
    duration_min_nanos() <= n <= duration_max_nanos()
}

/// A signed, exact length of time with nanosecond precision, viewed as a
/// number of nanoseconds. It covers the same range as `jiff::SignedDuration`.
#[derive(Debug, Clone, Copy, PartialEq, Eq, Structural, Hash)]
pub struct SignedDuration {
    pub(crate) nanos: i128,
}

impl View for SignedDuration {
    type V = int;

    closed spec fn view(&self) -> int {
        self.nanos as int
    }
}

impl SignedDuration {
    /// Every signed duration lies in the representable range.
    #[verifier::type_invariant]
    pub open spec fn in_range(self) -> bool {
        in_duration_range(self@)
    }

    /// Two durations with the same view are the same value.
    pub proof fn lemma_view_eq(a: Self, b: Self)
        requires
            a@ == b@,
        ensures
            a == b,
    {
    }

    pub(crate) fn from_nanos_unchecked(nanos: i128) -> (r: SignedDuration)
        requires
            in_duration_range(nanos as int),
        ensures
            r@ == nanos,
    {
        SignedDuration { nanos }
    }

    /// The duration of `nanosecond` nanoseconds, or `None` when it is out of
    /// range.
    pub fn from_nanosecond(nanosecond: i128) -> (r: Option<SignedDuration>)
        ensures
            r is Some <==> in_duration_range(nanosecond as int),
            r matches Some(d) ==> d@ == nanosecond,
    {
        if -9_223_372_036_854_775_808_999_999_999i128 <= nanosecond && nanosecond
            <= 9_223_372_036_854_775_807_999_999_999i128 {
            Some(SignedDuration { nanos: nanosecond })
        } else {
            None
        }
    }

    /// The duration of `secs` whole seconds.
    pub fn from_secs(secs: i64) -> (r: SignedDuration)
        ensures
            r@ == secs * 1_000_000_000,
    {
        assert(duration_min_nanos() <= secs * 1_000_000_000 <= duration_max_nanos())
            by (nonlinear_arith)
            requires
                i64::MIN <= secs <= i64::MAX,
        ;
        SignedDuration { nanos: secs as i128 * 1_000_000_000 }
    }

    /// The duration of `mins` whole minutes; the number of seconds must fit
    /// in an `i64`.
    pub fn from_mins(mins: i64) -> (r: SignedDuration)
        requires
            i64::MIN <= mins * 60 <= i64::MAX,
        ensures
            r@ == mins * 60_000_000_000,
    {
        SignedDuration { nanos: mins as i128 * 60_000_000_000 }
    }

    /// The number of nanoseconds.
    pub fn as_nanos(&self) -> (r: i128)
        ensures
            r == self@,
            in_duration_range(r as int),
    {
        proof {
            use_type_invariant(self);
        }
        self.nanos
    }

    /// Whole seconds, truncated toward zero.
    pub fn as_secs(&self) -> (r: i64)
        ensures
            r == div_trunc(self@, 1_000_000_000),
    {
        proof {
            use_type_invariant(self);
        }
        let q: i128 = if self.nanos >= 0 {
            self.nanos / 1_000_000_000
        } else {
            -((-self.nanos) / 1_000_000_000)
        };
        q as i64
    }

    /// Whole minutes, truncated toward zero.
    pub fn as_mins(&self) -> (r: i64)
        ensures
            r == div_trunc(self@, 60_000_000_000),
    {
        proof {
            use_type_invariant(self);
        }
        let q: i128 = if self.nanos >= 0 {
            self.nanos / 60_000_000_000
        } else {
            -((-self.nanos) / 60_000_000_000)
        };
        q as i64
    }

    /// `self * rhs`; the product must be representable.
    pub fn mul(&self, rhs: i32) -> (r: SignedDuration)
        requires
            in_duration_range(self@ * rhs),
        ensures
            r@ == self@ * rhs,
    {
        proof {
            use_type_invariant(self);
        }
        assert(duration_min_nanos() * 2_147_483_648 <= self@ * rhs <= -duration_min_nanos()
            * 2_147_483_648) by (nonlinear_arith)
            requires
                in_duration_range(self@),
                -2_147_483_648 <= rhs <= 2_147_483_647,
        ;
        SignedDuration { nanos: self.nanos * (rhs as i128) }
    }
}

} // verus!
