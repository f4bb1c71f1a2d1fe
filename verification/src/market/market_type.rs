use vstd::prelude::*;

verus! {

/// Wholesale energy markets.
#[derive(Debug, Clone, Copy, PartialEq, Eq, Structural, Hash)]
pub enum WholesaleMarketType {
    SpotDayAhead,
    IntradayAuction1,
    IntradayAuction2,
    IntradayAuction3,
    IntradayContinuous,
}

/// A capacity ancillary market is a market where we sell "capacity"
/// which represents a commitment to be available to deliver an agreed
/// upon amount of power either to charge or discharge. This is decided
/// D-1 and commitments are in D. You are paid for your availability
/// and you can be activated or not on your commitment in D on which
/// you are paid an extra variable amount depending on the level of power
/// you and the time you spend activated. This is called the "energy"
/// component of an ancillary market.
#[derive(Debug, Clone, Copy, PartialEq, Eq, Structural, Hash)]
pub enum CapacityAncillaryMarketType {
    Afrr,
    Fcr,
}

/// An energy ancillary market is a market where you opt in to participate
/// to the energy component of the ancillary capacity market.
#[derive(Debug, Clone, Copy, PartialEq, Eq, Structural, Hash)]
pub enum EnergyAncillaryMarketType {
    AfrrFree,
}

/// Ancillary service markets.
#[derive(Debug, Clone, Copy, PartialEq, Eq, Structural, Hash)]
pub enum AncillaryMarketType {
    Capacity(CapacityAncillaryMarketType),
    Energy(EnergyAncillaryMarketType),
}

/// Every market.
#[derive(Debug, Clone, Copy, PartialEq, Eq, Structural, Hash)]
pub enum MarketType {
    WholeSale(WholesaleMarketType),
    Ancillary(AncillaryMarketType),
}

/// The number of a market, from 0 to 7, used as a map key.
pub open spec fn market_code(market: MarketType) -> u8 {
    match market {
        MarketType::WholeSale(WholesaleMarketType::SpotDayAhead) => 0,
        MarketType::WholeSale(WholesaleMarketType::IntradayAuction1) => 1,
        MarketType::WholeSale(WholesaleMarketType::IntradayAuction2) => 2,
        MarketType::WholeSale(WholesaleMarketType::IntradayAuction3) => 3,
        MarketType::WholeSale(WholesaleMarketType::IntradayContinuous) => 4,
        MarketType::Ancillary(AncillaryMarketType::Capacity(CapacityAncillaryMarketType::Afrr)) => 5,
        MarketType::Ancillary(AncillaryMarketType::Capacity(CapacityAncillaryMarketType::Fcr)) => 6,
        MarketType::Ancillary(AncillaryMarketType::Energy(EnergyAncillaryMarketType::AfrrFree)) => 7,
    }
}

/// Different markets have different numbers.
pub proof fn lemma_market_code_injective(a: MarketType, b: MarketType)
    ensures
        market_code(a) == market_code(b) <==> a == b,
{
}

impl MarketType {
    /// The number of the market, from 0 to 7.
    pub fn code(&self) -> (r: u8)
        ensures
            r == market_code(*self),
            r < 8,
    {
        match self {
            MarketType::WholeSale(WholesaleMarketType::SpotDayAhead) => 0,
            MarketType::WholeSale(WholesaleMarketType::IntradayAuction1) => 1,
            MarketType::WholeSale(WholesaleMarketType::IntradayAuction2) => 2,
            MarketType::WholeSale(WholesaleMarketType::IntradayAuction3) => 3,
            MarketType::WholeSale(WholesaleMarketType::IntradayContinuous) => 4,
            MarketType::Ancillary(AncillaryMarketType::Capacity(CapacityAncillaryMarketType::Afrr)) => 5,
            MarketType::Ancillary(AncillaryMarketType::Capacity(CapacityAncillaryMarketType::Fcr)) => 6,
            MarketType::Ancillary(AncillaryMarketType::Energy(EnergyAncillaryMarketType::AfrrFree)) => 7,
        }
    }
}

/// A market kind that designates one market.
pub trait MarketKind: Copy {
    /// The market designated.
    spec fn spec_market_type(&self) -> MarketType;

    /// The market designated.
    fn market_type(&self) -> (r: MarketType)
        ensures
            r == self.spec_market_type(),
    ;
}

impl MarketKind for MarketType {
    open spec fn spec_market_type(&self) -> MarketType {
        *self
    }

    fn market_type(&self) -> (r: MarketType)
        ensures
            r == *self,
    {
        *self
    }
}

impl MarketKind for WholesaleMarketType {
    open spec fn spec_market_type(&self) -> MarketType {
        MarketType::WholeSale(*self)
    }

    fn market_type(&self) -> (r: MarketType)
        ensures
            r == MarketType::WholeSale(*self),
    {
        MarketType::WholeSale(*self)
    }
}

impl MarketKind for AncillaryMarketType {
    open spec fn spec_market_type(&self) -> MarketType {
        MarketType::Ancillary(*self)
    }

    fn market_type(&self) -> (r: MarketType)
        ensures
            r == MarketType::Ancillary(*self),
    {
        MarketType::Ancillary(*self)
    }
}

impl MarketKind for CapacityAncillaryMarketType {
    open spec fn spec_market_type(&self) -> MarketType {
        MarketType::Ancillary(AncillaryMarketType::Capacity(*self))
    }

    fn market_type(&self) -> (r: MarketType)
        ensures
            r == MarketType::Ancillary(AncillaryMarketType::Capacity(*self)),
    {
        MarketType::Ancillary(AncillaryMarketType::Capacity(*self))
    }
}

impl MarketKind for EnergyAncillaryMarketType {
    open spec fn spec_market_type(&self) -> MarketType {
        MarketType::Ancillary(AncillaryMarketType::Energy(*self))
    }

    fn market_type(&self) -> (r: MarketType)
        ensures
            r == MarketType::Ancillary(AncillaryMarketType::Energy(*self)),
    {
        MarketType::Ancillary(AncillaryMarketType::Energy(*self))
    }
}

impl From<WholesaleMarketType> for MarketType {
    fn from(value: WholesaleMarketType) -> (r: Self) {
        MarketType::WholeSale(value)
    }
}

impl vstd::std_specs::convert::FromSpecImpl<WholesaleMarketType> for MarketType {
    open spec fn obeys_from_spec() -> bool {
        true
    }

    open spec fn from_spec(v: WholesaleMarketType) -> Self {
        MarketType::WholeSale(v)
    }
}

impl From<CapacityAncillaryMarketType> for MarketType {
    fn from(value: CapacityAncillaryMarketType) -> (r: Self) {
        MarketType::Ancillary(AncillaryMarketType::Capacity(value))
    }
}

impl vstd::std_specs::convert::FromSpecImpl<CapacityAncillaryMarketType> for MarketType {
    open spec fn obeys_from_spec() -> bool {
        true
    }

    open spec fn from_spec(v: CapacityAncillaryMarketType) -> Self {
        MarketType::Ancillary(AncillaryMarketType::Capacity(v))
    }
}

impl From<EnergyAncillaryMarketType> for MarketType {
    fn from(value: EnergyAncillaryMarketType) -> (r: Self) {
        MarketType::Ancillary(AncillaryMarketType::Energy(value))
    }
}

impl vstd::std_specs::convert::FromSpecImpl<EnergyAncillaryMarketType> for MarketType {
    open spec fn obeys_from_spec() -> bool {
        true
    }

    open spec fn from_spec(v: EnergyAncillaryMarketType) -> Self {
        MarketType::Ancillary(AncillaryMarketType::Energy(v))
    }
}

impl From<AncillaryMarketType> for MarketType {
    fn from(value: AncillaryMarketType) -> (r: Self) {
        MarketType::Ancillary(value)
    }
}

impl vstd::std_specs::convert::FromSpecImpl<AncillaryMarketType> for MarketType {
    open spec fn obeys_from_spec() -> bool {
        true
    }

    open spec fn from_spec(v: AncillaryMarketType) -> Self {
        MarketType::Ancillary(v)
    }
}

/// A market kind designates the market of its own variant: a wholesale
/// kind its wholesale market, an ancillary kind its ancillary market, and
/// each agrees with the conversion into `MarketType`. So two kinds designate
/// the same market only when they are the same kind.
pub proof fn lemma_market_kinds_designate_their_market(
    w: WholesaleMarketType,
    w2: WholesaleMarketType,
    a: AncillaryMarketType,
    c: CapacityAncillaryMarketType,
    e: EnergyAncillaryMarketType,
)
    ensures
        w.spec_market_type() == MarketType::WholeSale(w),
        a.spec_market_type() == MarketType::Ancillary(a),
        c.spec_market_type() == MarketType::Ancillary(AncillaryMarketType::Capacity(c)),
        e.spec_market_type() == MarketType::Ancillary(AncillaryMarketType::Energy(e)),
        w.spec_market_type() == <MarketType as vstd::std_specs::convert::FromSpec<
            WholesaleMarketType,
        >>::from_spec(w),
        w.spec_market_type() == w2.spec_market_type() <==> w == w2,
{
}

} // verus!
