//! Definitions of the elements taking part in an optimization problem.
//! They describe what to optimize, independently of how it is modelled.
use vstd::prelude::*;

use crate::market::specification::MarketSpec;

verus! {

// Fixed penalty for now set here. May change if having it as an input of
// optimization may be relevant. Penalties are whole euros per kW.
const ANCILLARY_PENALTY_EURO_PER_KW: i32 = -10;

/// The penalty of every perimeter, in euros per kW.
pub open spec fn perimeter_penalty() -> i32 {
    -10i32
}

// region: Perimeter Definitions
/// Balance responsible party perimeter: assets whose net position is
/// traded together on wholesale markets and on which you pay imbalances.
/// Each commitment already taken is a `C`.
#[derive(Debug)]
pub struct BrpDefinition<C> {
    id: u128,
    /// Ids of the assets composing the perimeter.
    composition: Vec<u128>,
    /// Wholesale markets the perimeter bids on.
    markets: Vec<MarketSpec>,
    /// Commitments already taken on all wholesale markets.
    commitments: Vec<C>,
    /// Penalty for violations in euro per kW.
    penalty: i32,
}

impl<C> BrpDefinition<C> {
    /// The id of the perimeter.
    pub closed spec fn spec_id(self) -> u128 {
        self.id
    }

    /// The assets composing the perimeter.
    pub closed spec fn spec_composition(self) -> Seq<u128> {
        self.composition@
    }

    /// The markets the perimeter bids on.
    pub closed spec fn spec_markets(self) -> Seq<MarketSpec> {
        self.markets@
    }

    /// The commitments already taken.
    pub closed spec fn spec_commitments(self) -> Seq<C> {
        self.commitments@
    }

    /// The penalty, in euros per kW.
    pub closed spec fn spec_penalty(self) -> i32 {
        self.penalty
    }

    /// The perimeter `id` made of the assets `composition`, bidding on
    /// `markets`, with the commitments already taken. Its penalty is the
    /// fixed perimeter penalty.
    pub fn new(id: u128, markets: Vec<MarketSpec>, composition: Vec<u128>, commitments: Vec<C>) -> (r:
        Self)
        ensures
            r.spec_id() == id,
            r.spec_markets() == markets@,
            r.spec_composition() == composition@,
            r.spec_commitments() == commitments@,
            r.spec_penalty() == perimeter_penalty(),
    {
        Self { id, markets, composition, commitments, penalty: ANCILLARY_PENALTY_EURO_PER_KW }
    }

    pub fn id(&self) -> (r: &u128)
        ensures
            *r == self.spec_id(),
    {
        &self.id
    }

    pub fn markets(&self) -> (r: &[MarketSpec])
        ensures
            r@ == self.spec_markets(),
    {
        self.markets.as_slice()
    }

    pub fn commitments(&self) -> (r: &[C])
        ensures
            r@ == self.spec_commitments(),
    {
        self.commitments.as_slice()
    }

    pub fn composition(&self) -> (r: &[u128])
        ensures
            r@ == self.spec_composition(),
    {
        self.composition.as_slice()
    }

    pub fn penalty(&self) -> (r: &i32)
        ensures
            *r == self.spec_penalty(),
    {
        &self.penalty
    }
}

/// Reserve perimeter: assets certified together for one ancillary service.
/// Each commitment already taken is a `C`.
#[derive(Debug)]
pub struct ReserveDefinition<C> {
    id: u128,
    /// Ancillary service the perimeter bids on.
    market: MarketSpec,
    /// Ids of the assets composing the perimeter.
    composition: Vec<u128>,
    /// Commitments already taken on the ancillary service.
    commitments: Vec<C>,
    /// Penalty for violations in euro per kW.
    penalty: i32,
}

impl<C> ReserveDefinition<C> {
    /// The id of the perimeter.
    pub closed spec fn spec_id(self) -> u128 {
        self.id
    }

    /// The assets composing the perimeter.
    pub closed spec fn spec_composition(self) -> Seq<u128> {
        self.composition@
    }

    /// The ancillary service the perimeter bids on.
    pub closed spec fn spec_market(self) -> MarketSpec {
        self.market
    }

    /// The commitments already taken.
    pub closed spec fn spec_commitments(self) -> Seq<C> {
        self.commitments@
    }

    /// The penalty, in euros per kW.
    pub closed spec fn spec_penalty(self) -> i32 {
        self.penalty
    }

    /// The perimeter `id` made of the assets `composition`, bidding on
    /// `market`, with the commitments already taken. Its penalty is the
    /// fixed perimeter penalty.
    pub fn new(id: u128, market: MarketSpec, composition: Vec<u128>, commitments: Vec<C>) -> (r: Self)
        ensures
            r.spec_id() == id,
            r.spec_market() == market,
            r.spec_composition() == composition@,
            r.spec_commitments() == commitments@,
            r.spec_penalty() == perimeter_penalty(),
    {
        Self { id, market, composition, commitments, penalty: ANCILLARY_PENALTY_EURO_PER_KW }
    }

    pub fn id(&self) -> (r: &u128)
        ensures
            *r == self.spec_id(),
    {
        &self.id
    }

    pub fn market(&self) -> (r: &MarketSpec)
        ensures
            *r == self.spec_market(),
    {
        &self.market
    }

    pub fn commitments(&self) -> (r: &[C])
        ensures
            r@ == self.spec_commitments(),
    {
        self.commitments.as_slice()
    }

    pub fn composition(&self) -> (r: &[u128])
        ensures
            r@ == self.spec_composition(),
    {
        self.composition.as_slice()
    }

    pub fn penalty(&self) -> (r: &i32)
        ensures
            *r == self.spec_penalty(),
    {
        &self.penalty
    }
}
// endregion: Perimeter Definitions

} // verus!
