use vstd::prelude::*;

use crate::countries::Countries;
use crate::error::Error;
use crate::market::error::MarketError;
use crate::market::market_type::{lemma_market_code_injective, market_code, MarketType};
use crate::temporal::series::{
    forms_time_series, is_series_error, TimeSeries, TimeStampedUtc,
};
use std::collections::HashMap;

verus! {

broadcast use vstd::std_specs::hash::group_hash_axioms;

// region: Revenue
/// Unit the revenue rate is expressed against, which decides whether it
/// applies to a power bid or to the energy delivered over the bid window.
#[derive(Debug, Clone, Copy, PartialEq, Eq, Structural)]
pub enum RevenueUnit {
    /// €/kW of bid power.
    PerKiloWatt,
    /// €/kWh of bid energy.
    PerKiloWattHour,
}
// endregion: Revenue

// region: Revenue store
/// Revenue series of every market taking part in the optimization,
/// indexed by the market. Each row of a series is an `R`.
#[derive(Debug)]
pub struct RevenueStore<R> {
    series: HashMap<u8, TimeSeries<R>>,
}

impl<R> View for RevenueStore<R> {
    type V = Map<u8, TimeSeries<R>>;

    /// The series held, keyed by market number.
    closed spec fn view(&self) -> Map<u8, TimeSeries<R>> {
        self.series@
    }
}

impl<R> RevenueStore<R> {
    /// Whether a series is held for `market`.
    pub open spec fn has_market(self, market: MarketType) -> bool {
        self@.contains_key(market_code(market))
    }

    /// The series held for `market`.
    pub open spec fn series_of(self, market: MarketType) -> TimeSeries<R> {
        self@[market_code(market)]
    }

    /// The store without any series.
    pub fn new() -> (r: Self)
        ensures
            forall|m: MarketType| !r.has_market(m),
            r@ == Map::<u8, TimeSeries<R>>::empty(),
    {
        RevenueStore { series: HashMap::new() }
    }

    /// Stores `series` as the series of `market`, replacing any former one.
    pub fn insert(&mut self, market: MarketType, series: TimeSeries<R>)
        ensures
            final(self)@ == old(self)@.insert(market_code(market), series),
            final(self).has_market(market),
            final(self).series_of(market) == series,
            forall|m: MarketType|
                m != market ==> (final(self).has_market(m) == old(self).has_market(m)
                    && final(self).series_of(m) == old(self).series_of(m)),
    {
        let code = market.code();
        self.series.insert(code, series);
        proof {
            assert forall|m: MarketType| m != market implies (final(self).has_market(m)
                == old(self).has_market(m) && final(self).series_of(m) == old(self).series_of(
                m,
            )) by {
                lemma_market_code_injective(m, market);
            }
        }
    }

    /// The revenue series of `market`; `country` is the country the market
    /// is bid in, reported when no series is held for the market.
    pub fn get(&self, market: MarketType, country: Countries) -> (r: Result<&TimeSeries<R>, Error>)
        ensures
            r is Ok <==> self.has_market(market),
            r matches Ok(s) ==> *s == self.series_of(market),
            r matches Err(e) ==> e == Error::Market(
                MarketError::MissingMarketRevenue { market, country },
            ),
    {
        match self.series.get(&market.code()) {
            Some(s) => Ok(s),
            None => Err(Error::Market(MarketError::MissingMarketRevenue { market, country })),
        }
    }
}

/// Whether the entry `i` is the last one of `entries` for `market` before
/// position `k`.
pub open spec fn is_last_before<R>(entries: Seq<(MarketType, Vec<R>)>, market: MarketType, i: int, k: int) -> bool {
    &&& 0 <= i < k
    &&& entries[i].0 == market
    &&& forall|j: int| i < j < k ==> entries[j].0 != market
}

impl<R: TimeStampedUtc> RevenueStore<R> {
    /// Lays each list of rows on its grid and stores it as the series of its
    /// market, in order, so that a later entry for the same market replaces
    /// an earlier one. The first list that does not form a time series
    /// makes the whole store fail with its error.
    pub fn try_from_series(entries: Vec<(MarketType, Vec<R>)>) -> (r: Result<Self, Error>)
        ensures
            r is Ok <==> forall|i: int|
                0 <= i < entries.len() ==> forms_time_series((#[trigger] entries@[i]).1@),
            r matches Ok(store) ==> forall|m: MarketType|
                #![trigger store.has_market(m)]
                store.has_market(m) <==> exists|i: int|
                    0 <= i < entries.len() && (#[trigger] entries@[i]).0 == m,
            r matches Ok(store) ==> forall|m: MarketType, i: int|
                #![trigger store.series_of(m), entries@[i]]
                is_last_before(entries@, m, i, entries.len() as int) ==> store.series_of(m).data@
                    == entries@[i].1@,
            r matches Err(e) ==> exists|i: int|
                #![trigger entries@[i]]
                0 <= i < entries.len() && !forms_time_series(entries@[i].1@) && (forall|j: int|
                    0 <= j < i ==> forms_time_series((#[trigger] entries@[j]).1@))
                    && is_series_error(e, entries@[i].1@),
    {
        let ghost given = entries@;
        let mut remaining = entries;
        let mut store = RevenueStore::new();
        let ghost mut k: int = 0;
        while remaining.len() > 0
            invariant
                given == entries@,
                0 <= k <= given.len(),
                remaining@ == given.subrange(k, given.len() as int),
                forall|i: int| 0 <= i < k ==> forms_time_series((#[trigger] given[i]).1@),
                forall|m: MarketType|
                    #![trigger store.has_market(m)]
                    store.has_market(m) <==> exists|i: int|
                        0 <= i < k && (#[trigger] given[i]).0 == m,
                forall|m: MarketType, i: int|
                    #![trigger store.series_of(m), given[i]]
                    is_last_before(given, m, i, k) ==> store.series_of(m).data@ == given[i].1@,
            ensures
                k == given.len(),
            decreases remaining.len(),
        {
            let (market, values) = remaining.remove(0);
            assert(given[k] == (market, values));
            assert(k < given.len());
            let ghost rows = values@;
            let series = match TimeSeries::try_from(values) {
                Ok(s) => s,
                Err(e) => {
                    assert(!forms_time_series(rows));
                    assert(given[k].1@ == rows);
                    assert(!forms_time_series(given[k].1@));
                    assert(is_series_error(e, entries@[k].1@));
                    return Err(e);
                },
            };
            let ghost before = store;
            store.insert(market, series);
            proof {
                assert forall|m: MarketType|
                    #![trigger store.has_market(m)]
                    store.has_market(m) <==> exists|i: int|
                        0 <= i < k + 1 && (#[trigger] given[i]).0 == m by {
                    if m == market {
                        assert(given[k].0 == m);
                    } else if before.has_market(m) {
                        let i = choose|i: int| 0 <= i < k && (#[trigger] given[i]).0 == m;
                        assert(0 <= i < k + 1 && given[i].0 == m);
                    }
                }
                assert forall|m: MarketType, i: int|
                    #![trigger store.series_of(m), given[i]]
                    is_last_before(given, m, i, k + 1) implies store.series_of(m).data@
                        == given[i].1@ by {
                    if m == market {
                        assert(i == k);
                    } else {
                        assert(is_last_before(given, m, i, k));
                        assert(before.series_of(m) == store.series_of(m));
                    }
                }
                k = k + 1;
            }
        }
        Ok(store)
    }
}

} // verus!
