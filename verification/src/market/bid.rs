use vstd::prelude::*;

use crate::error::Error;
use crate::temporal::step::{is_allowed_step, MinuteStep, MinuteStepError};
use crate::time::span::Span;

verus! {

/// Represents market power increments.
/// For example:
///     -ancillary markets : 1000 kW
///     -wholesale markets: 100 kW
#[derive(Debug, Clone, Copy, PartialEq, Eq, Structural, Hash)]
pub struct KiloWattIncrement(u16);

impl View for KiloWattIncrement {
    type V = u16;

    closed spec fn view(&self) -> u16 {
        self.0
    }
}

impl KiloWattIncrement {
    /// The increment in kilowatts.
    pub fn value(&self) -> (r: u16)
        ensures
            r == self@,
    {
        self.0
    }

    /// Two increments of the same number of kilowatts are the same value.
    pub proof fn lemma_view_eq(a: Self, b: Self)
        requires
            a@ == b@,
        ensures
            a == b,
    {
    }

    /// An increment of `kw` kilowatts.
    pub fn new(kw: u16) -> (r: KiloWattIncrement)
        ensures
            r@ == kw,
    {
        KiloWattIncrement(kw)
    }
}

impl From<u16> for KiloWattIncrement {
    fn from(value: u16) -> (r: Self)
        ensures
            r@ == value,
    {
        KiloWattIncrement(value)
    }
}

impl From<KiloWattIncrement> for u16 {
    fn from(value: KiloWattIncrement) -> (r: u16)
        ensures
            r == value@,
    {
        value.0
    }
}

impl vstd::std_specs::convert::FromSpecImpl<KiloWattIncrement> for u16 {
    open spec fn obeys_from_spec() -> bool {
        true
    }

    open spec fn from_spec(v: KiloWattIncrement) -> u16 {
        v@
    }
}

impl core::ops::Add for KiloWattIncrement {
    type Output = KiloWattIncrement;

    fn add(self, rhs: KiloWattIncrement) -> (r: KiloWattIncrement)
        ensures
            r@ == self@ + rhs@,
    {
        KiloWattIncrement(self.0 + rhs.0)
    }
}

impl vstd::std_specs::ops::AddSpecImpl for KiloWattIncrement {
    open spec fn obeys_add_spec() -> bool {
        true
    }

    /// The sum must fit in a `u16`.
    open spec fn add_req(self, rhs: KiloWattIncrement) -> bool {
        self@ + rhs@ <= u16::MAX
    }

    closed spec fn add_spec(self, rhs: KiloWattIncrement) -> KiloWattIncrement {
        KiloWattIncrement((self.0 + rhs.0) as u16)
    }
}

impl vstd::std_specs::convert::FromSpecImpl<u16> for KiloWattIncrement {
    open spec fn obeys_from_spec() -> bool {
        true
    }

    closed spec fn from_spec(v: u16) -> Self {
        KiloWattIncrement(v)
    }
}

/// A bid product: the time step a bid covers and its power increment.
#[derive(Debug, Clone, Copy, PartialEq, Eq, Structural, Hash)]
pub struct ProductSpecifications {
    pub step: MinuteStep,
    pub increment: KiloWattIncrement,
}

impl ProductSpecifications {
    /// The product whose step is the length of the span `step`; the span
    /// must be 15, 30 or 60 minutes.
    pub fn try_new(step: Span, increment_kw: u16) -> (r: Result<Self, Error>)
        requires
            step.wf(),
        ensures
            r is Ok <==> step.is_time_only() && is_allowed_step(step.time_nanos()),
            r matches Ok(p) ==> p.step@ == step.time_nanos() && p.increment@ == increment_kw,
            !step.is_time_only() ==> r matches Err(Error::Step(
                MinuteStepError::JiffConversionError(_),
            )),
            step.is_time_only() && !is_allowed_step(step.time_nanos()) ==> (r matches Err(
                Error::Step(MinuteStepError::InvalidGranularity { step: s }),
            ) && s@ == step.time_nanos()),
            r matches Err(e) ==> e is Step,
    {
        Ok(
            ProductSpecifications {
                step: MinuteStep::try_from_span(&step)?,
                increment: KiloWattIncrement(increment_kw),
            },
        )
    }
}

} // verus!
