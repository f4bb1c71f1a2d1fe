//! A coarser enumeration of markets and countries: the wholesale markets
//! without the split of intraday auctions, and the ancillary services split
//! by whether their assets must be certified.
use vstd::prelude::*;

verus! {

// region: Market types
/// Wholesale markets.
#[derive(Debug, Hash, Clone, Copy, PartialEq, Eq, Structural)]
pub enum WholesaleMarketType {
    SpotDayAhead,
    IntradayAuction,
    IntradayContinuous,
}

/// Ancillary services whose assets must be certified.
#[derive(Debug, Hash, Clone, Copy, PartialEq, Eq, Structural)]
pub enum CertifiedAncillaryMarketType {
    Afrr,
    Fcr,
}

/// Ancillary services open to uncertified assets.
#[derive(Debug, Hash, Clone, Copy, PartialEq, Eq, Structural)]
pub enum UncertifiedAncillaryMarketType {
    AfrrFree,
}

/// The two families of ancillary services.
#[derive(Debug, Hash, Clone, Copy, PartialEq, Eq, Structural)]
pub enum AncillaryMarketType {
    CertifiedAncillaryMarketType,
    UncertifiedAncillaryMarketType,
}

/// All markets.
#[derive(Debug, Hash, Clone, Copy, PartialEq, Eq, Structural)]
pub enum MarketType {
    WholeSale(WholesaleMarketType),
    Ancillary(AncillaryMarketType),
}
// endregion: Market types

// region: Countries
/// Countries a market can be in.
#[derive(Debug, Hash, Clone, Copy, PartialEq, Eq, Structural)]
pub enum Countries {
    FR,
    DE,
    BE,
    ES,
    IT,
    PT,
}
// endregion: Countries

} // verus!
