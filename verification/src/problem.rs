//! An optimization problem: the grid it is solved on, its assets, the
//! perimeters they are grouped in and the revenues of the markets bid on.
//! Its consistency is checked when it is built.

pub mod definition;
pub mod error;

use vstd::prelude::*;

use crate::error::Error;
use crate::market::error::MarketError;
use crate::market::revenue::RevenueStore;
use crate::market::specification::MarketSpec;
use crate::temporal::grid::RegularTimeGrid;
use definition::{BrpDefinition, ReserveDefinition};
use error::ProblemError;
use std::collections::{HashMap, HashSet};

verus! {

broadcast use vstd::std_specs::hash::group_hash_axioms;

/// Number of the balance responsible party perimeters whose composition
/// holds `x`; a perimeter listing `x` several times counts once.
pub open spec fn brps_holding<C>(brps: Seq<BrpDefinition<C>>, x: u128) -> nat
    decreases brps.len(),
{
    if brps.len() == 0 {
        0
    } else {
        brps_holding(brps.drop_last(), x) + if brps.last().spec_composition().contains(x) {
            1nat
        } else {
            0nat
        }
    }
}

/// Markets bid on by the balance responsible party perimeters, perimeter
/// after perimeter.
pub open spec fn brp_markets<C>(brps: Seq<BrpDefinition<C>>) -> Seq<MarketSpec>
    decreases brps.len(),
{
    if brps.len() == 0 {
        Seq::empty()
    } else {
        brp_markets(brps.drop_last()) + brps.last().spec_markets()
    }
}

/// The id and composition of every perimeter: the balance responsible party
/// ones, then the reserve ones.
pub open spec fn perimeter_compositions<C>(
    brps: Seq<BrpDefinition<C>>,
    reserves: Seq<ReserveDefinition<C>>,
) -> Seq<(u128, Seq<u128>)> {
    brps.map_values(|b: BrpDefinition<C>| (b.spec_id(), b.spec_composition())) + reserves.map_values(
        |r: ReserveDefinition<C>| (r.spec_id(), r.spec_composition()),
    )
}

/// Every market bid on: those of the balance responsible party perimeters,
/// then that of each reserve perimeter.
pub open spec fn perimeter_markets<C>(
    brps: Seq<BrpDefinition<C>>,
    reserves: Seq<ReserveDefinition<C>>,
) -> Seq<MarketSpec> {
    brp_markets(brps) + reserves.map_values(|r: ReserveDefinition<C>| r.spec_market())
}

/// The ids of `ids` that are not in `known`, in order, repetitions kept.
pub open spec fn unknown_assets(ids: Seq<u128>, known: Set<u128>) -> Seq<u128>
    decreases ids.len(),
{
    if ids.len() == 0 {
        Seq::empty()
    } else if known.contains(ids.last()) {
        unknown_assets(ids.drop_last(), known)
    } else {
        unknown_assets(ids.drop_last(), known).push(ids.last())
    }
}

/// Every id of `ids` is in `known`.
pub open spec fn all_known(ids: Seq<u128>, known: Set<u128>) -> bool {
    forall|k: int| 0 <= k < ids.len() ==> known.contains(#[trigger] ids[k])
}

/// Every perimeter is only composed of known assets.
pub open spec fn compositions_known<C>(
    known: Set<u128>,
    brps: Seq<BrpDefinition<C>>,
    reserves: Seq<ReserveDefinition<C>>,
) -> bool {
    forall|i: int|
        0 <= i < perimeter_compositions(brps, reserves).len() ==> all_known(
            (#[trigger] perimeter_compositions(brps, reserves)[i]).1,
            known,
        )
}

/// Every asset is in at most one balance responsible party perimeter.
pub open spec fn single_brp_membership<C>(brps: Seq<BrpDefinition<C>>) -> bool {
    forall|x: u128| #[trigger] brps_holding(brps, x) <= 1
}

/// Whether two distinct balance responsible party perimeters both hold `x`.
pub open spec fn in_two_brps<C>(brps: Seq<BrpDefinition<C>>, x: u128) -> bool {
    exists|i: int, j: int|
        0 <= i < j < brps.len() && (#[trigger] brps[i]).spec_composition().contains(x) && (
        #[trigger] brps[j]).spec_composition().contains(x)
}

/// Some perimeter holds `x` exactly when at least one is counted, and two
/// distinct perimeters hold it exactly when at least two are counted.
proof fn lemma_brps_holding_counts<C>(brps: Seq<BrpDefinition<C>>, x: u128)
    ensures
        brps_holding(brps, x) >= 1 <==> exists|i: int|
            0 <= i < brps.len() && (#[trigger] brps[i]).spec_composition().contains(x),
        brps_holding(brps, x) >= 2 <==> in_two_brps(brps, x),
    decreases brps.len(),
{
    if brps.len() > 0 {
        let p = brps.drop_last();
        let n = brps.len() - 1;
        lemma_brps_holding_counts(p, x);
        assert forall|i: int| 0 <= i < p.len() implies #[trigger] p[i] == brps[i] by {}
        if exists|i: int| 0 <= i < p.len() && (#[trigger] p[i]).spec_composition().contains(x) {
            let i = choose|i: int| 0 <= i < p.len() && (#[trigger] p[i]).spec_composition().contains(x);
            assert(brps[i] == p[i]);
            if brps[n].spec_composition().contains(x) {
                assert(in_two_brps(brps, x)) by {
                    assert(0 <= i < n < brps.len() && brps[i].spec_composition().contains(x)
                        && brps[n].spec_composition().contains(x));
                }
            }
        }
        if brps[n].spec_composition().contains(x) {
            assert(0 <= n < brps.len() && brps[n].spec_composition().contains(x));
        }
        if in_two_brps(p, x) {
            let (i, j) = choose|i: int, j: int|
                0 <= i < j < p.len() && (#[trigger] p[i]).spec_composition().contains(x) && (
                #[trigger] p[j]).spec_composition().contains(x);
            assert(brps[i] == p[i] && brps[j] == p[j]);
            assert(0 <= i < j < brps.len() && brps[i].spec_composition().contains(x)
                && brps[j].spec_composition().contains(x));
        }
        if in_two_brps(brps, x) {
            let (i, j) = choose|i: int, j: int|
                0 <= i < j < brps.len() && (#[trigger] brps[i]).spec_composition().contains(x) && (
                #[trigger] brps[j]).spec_composition().contains(x);
            if j < n {
                assert(p[i] == brps[i] && p[j] == brps[j]);
                assert(in_two_brps(p, x));
            } else {
                assert(p[i] == brps[i]);
            }
        }
        if exists|i: int| 0 <= i < brps.len() && (#[trigger] brps[i]).spec_composition().contains(x) {
            let i = choose|i: int| 0 <= i < brps.len() && (#[trigger] brps[i]).spec_composition().contains(x);
            if i < n {
                assert(p[i] == brps[i]);
            }
        }
    }
}

/// An asset is in at most one balance responsible party perimeter exactly
/// when no two distinct perimeters both hold it; a perimeter listing an
/// asset several times holds it once.
pub proof fn lemma_single_membership_distinct_brps<C>(brps: Seq<BrpDefinition<C>>)
    ensures
        single_brp_membership(brps) <==> forall|x: u128| !#[trigger] in_two_brps(brps, x),
        assets_in_several_brps(brps) == Set::new(|x: u128| in_two_brps(brps, x)),
{
    assert forall|x: u128| #[trigger] brps_holding(brps, x) <= 1 <==> !in_two_brps(brps, x) by {
        lemma_brps_holding_counts(brps, x);
    }
    if !single_brp_membership(brps) {
        let x = choose|x: u128| !(#[trigger] brps_holding(brps, x) <= 1);
        assert(in_two_brps(brps, x));
    }
    if !(forall|x: u128| !#[trigger] in_two_brps(brps, x)) {
        let x = choose|x: u128| #[trigger] in_two_brps(brps, x);
        assert(!(brps_holding(brps, x) <= 1));
    }
    assert(assets_in_several_brps(brps) =~= Set::new(|x: u128| in_two_brps(brps, x)));
}

/// A revenue series is available for every market bid on.
pub open spec fn revenues_available<C, R>(
    revenues: RevenueStore<R>,
    brps: Seq<BrpDefinition<C>>,
    reserves: Seq<ReserveDefinition<C>>,
) -> bool {
    forall|i: int|
        0 <= i < perimeter_markets(brps, reserves).len() ==> revenues.has_market(
            (#[trigger] perimeter_markets(brps, reserves)[i]).market,
        )
}

/// The unknown assets of a composition are none exactly when all are known.
proof fn lemma_unknown_assets_empty(ids: Seq<u128>, known: Set<u128>)
    ensures
        unknown_assets(ids, known).len() == 0 <==> all_known(ids, known),
    decreases ids.len(),
{
    if ids.len() > 0 {
        lemma_unknown_assets_empty(ids.drop_last(), known);
        if all_known(ids, known) {
            assert(all_known(ids.drop_last(), known)) by {
                assert forall|k: int| 0 <= k < ids.drop_last().len() implies known.contains(
                    #[trigger] ids.drop_last()[k],
                ) by {
                    assert(ids.drop_last()[k] == ids[k]);
                }
            }
            assert(known.contains(ids[ids.len() - 1]));
        } else {
            let k = choose|k: int| 0 <= k < ids.len() && !known.contains(#[trigger] ids[k]);
            if k < ids.len() - 1 {
                assert(ids.drop_last()[k] == ids[k]);
            }
        }
    }
}

/// The prefixes of a sequence grow one element at a time.
proof fn lemma_take_push<T>(s: Seq<T>, i: int)
    requires
        0 <= i < s.len(),
    ensures
        s.take(i + 1).drop_last() == s.take(i),
        s.take(i + 1).last() == s[i],
{
    assert(s.take(i + 1).drop_last() =~= s.take(i));
}

/// The ids of `ids` that are not keys of `assets`.
fn unknown_ids<A>(ids: &[u128], assets: &HashMap<u128, A>) -> (r: Vec<u128>)
    ensures
        r@ == unknown_assets(ids@, assets@.dom()),
{
    let mut out: Vec<u128> = Vec::new();
    let mut i: usize = 0;
    while i < ids.len()
        invariant
            i <= ids@.len(),
            out@ == unknown_assets(ids@.take(i as int), assets@.dom()),
        decreases ids.len() - i,
    {
        proof {
            lemma_take_push(ids@, i as int);
        }
        if !assets.contains_key(&ids[i]) {
            out.push(ids[i]);
        }
        i = i + 1;
    }
    assert(ids@.take(ids@.len() as int) =~= ids@);
    out
}

/// A prefix one longer holds what the shorter one holds, and the new item.
proof fn lemma_take_contains(s: Seq<u128>, j: int, x: u128)
    requires
        0 <= j < s.len(),
    ensures
        s.take(j + 1).contains(x) <==> (s.take(j).contains(x) || s[j] == x),
{
    let t = s.take(j + 1);
    let u = s.take(j);
    assert(t =~= u.push(s[j]));
    if t.contains(x) {
        let k = choose|k: int| 0 <= k < t.len() && t[k] == x;
        if k < j {
            assert(u[k] == x);
        }
    }
    if u.contains(x) {
        let k = choose|k: int| 0 <= k < u.len() && u[k] == x;
        assert(t[k] == x);
    }
    if s[j] == x {
        assert(t[j] == x);
    }
}

/// The perimeters among the first `i + 1` that hold `x` are those among the
/// first `i`, and perimeter `i` if it holds `x`.
proof fn lemma_brps_holding_take<C>(brps: Seq<BrpDefinition<C>>, i: int, x: u128)
    requires
        0 <= i < brps.len(),
    ensures
        brps_holding(brps.take(i + 1), x) == brps_holding(brps.take(i), x) + if brps[i].spec_composition().contains(x) {
            1nat
        } else {
            0nat
        },
{
    lemma_take_push(brps, i);
    let t = brps.take(i + 1);
    assert(t.len() > 0);
    assert(brps_holding(t, x) == brps_holding(t.drop_last(), x) + if t.last().spec_composition().contains(x) {
        1nat
    } else {
        0nat
    });
}

/// The markets of the first `i + 1` perimeters are those of the first `i`,
/// then those of perimeter `i`.
proof fn lemma_brp_markets_take<C>(brps: Seq<BrpDefinition<C>>, i: int)
    requires
        0 <= i < brps.len(),
    ensures
        brp_markets(brps.take(i + 1)) == brp_markets(brps.take(i)) + brps[i].spec_markets(),
{
    lemma_take_push(brps, i);
}

/// The assets held by more than one balance responsible party perimeter.
pub open spec fn assets_in_several_brps<C>(brps: Seq<BrpDefinition<C>>) -> Set<u128> {
    Set::new(|x: u128| brps_holding(brps, x) > 1)
}

/// `e` reports the first perimeter of `comps` that holds an asset outside
/// `known`, with the unknown assets of that perimeter.
pub open spec fn reports_unknown_assets(
    e: Error,
    comps: Seq<(u128, Seq<u128>)>,
    known: Set<u128>,
) -> bool {
    exists|i: int|
        #![trigger comps[i]]
        0 <= i < comps.len() && !all_known(comps[i].1, known) && (forall|j: int|
            0 <= j < i ==> all_known(#[trigger] comps[j].1, known)) && (e matches Error::Problem(
            ProblemError::UnknownAssetsInPerimeter { perimeter_id, asset_ids },
        ) && perimeter_id == comps[i].0 && asset_ids@ == unknown_assets(comps[i].1, known))
}

/// `e` reports, each once, the assets held more than once by the balance
/// responsible party perimeters.
pub open spec fn reports_assets_in_several_brps<C>(e: Error, brps: Seq<BrpDefinition<C>>) -> bool {
    e matches Error::Problem(ProblemError::AssetInMultipleBrps { asset_ids })
        && asset_ids@.to_set() == assets_in_several_brps(brps) && asset_ids@.no_duplicates()
}

/// `e` reports the first market of `markets` that has no revenue series.
pub open spec fn reports_missing_revenue<R>(
    e: Error,
    markets: Seq<MarketSpec>,
    revenues: RevenueStore<R>,
) -> bool {
    exists|i: int|
        #![trigger markets[i]]
        0 <= i < markets.len() && !revenues.has_market(markets[i].market) && (forall|j: int|
            0 <= j < i ==> revenues.has_market((#[trigger] markets[j]).market)) && e
            == Error::Market(
            MarketError::MissingMarketRevenue {
                market: markets[i].market,
                country: markets[i].country,
            },
        )
}

/// Makes sure every perimeter is only composed of known assets.
fn check_compositions<A, C>(
    assets: &HashMap<u128, A>,
    brp_perimeters: &[BrpDefinition<C>],
    reserve_perimeters: &[ReserveDefinition<C>],
) -> (r: Result<(), Error>)
    ensures
        r is Ok <==> compositions_known(assets@.dom(), brp_perimeters@, reserve_perimeters@),
        r matches Err(e) ==> reports_unknown_assets(
            e,
            perimeter_compositions(brp_perimeters@, reserve_perimeters@),
            assets@.dom(),
        ),
{
    let ghost comps = perimeter_compositions(brp_perimeters@, reserve_perimeters@);
    let ghost known = assets@.dom();
    let ghost n = brp_perimeters@.len();
    assert(comps.len() == n + reserve_perimeters@.len());
    let mut i: usize = 0;
    while i < brp_perimeters.len()
        invariant
            i <= brp_perimeters@.len(),
            n == brp_perimeters@.len(),
            comps == perimeter_compositions(brp_perimeters@, reserve_perimeters@),
            known == assets@.dom(),
            forall|j: int| 0 <= j < i ==> all_known(#[trigger] comps[j].1, known),
        decreases brp_perimeters.len() - i,
    {
        let perimeter = &brp_perimeters[i];
        assert(comps[i as int] == (perimeter.spec_id(), perimeter.spec_composition()));
        let asset_ids = unknown_ids(perimeter.composition(), assets);
        proof {
            lemma_unknown_assets_empty(perimeter.spec_composition(), known);
        }
        if asset_ids.len() > 0 {
            let e = Error::Problem(
                ProblemError::UnknownAssetsInPerimeter { perimeter_id: *perimeter.id(), asset_ids },
            );
            assert(reports_unknown_assets(e, comps, known));
            return Err(e);
        }
        i = i + 1;
    }
    let mut k: usize = 0;
    while k < reserve_perimeters.len()
        invariant
            k <= reserve_perimeters@.len(),
            n == brp_perimeters@.len(),
            comps == perimeter_compositions(brp_perimeters@, reserve_perimeters@),
            comps.len() == n + reserve_perimeters@.len(),
            known == assets@.dom(),
            forall|j: int| 0 <= j < n + k ==> all_known(#[trigger] comps[j].1, known),
        decreases reserve_perimeters.len() - k,
    {
        let perimeter = &reserve_perimeters[k];
        assert(comps[n + k] == (perimeter.spec_id(), perimeter.spec_composition()));
        let asset_ids = unknown_ids(perimeter.composition(), assets);
        proof {
            lemma_unknown_assets_empty(perimeter.spec_composition(), known);
        }
        if asset_ids.len() > 0 {
            let e = Error::Problem(
                ProblemError::UnknownAssetsInPerimeter { perimeter_id: *perimeter.id(), asset_ids },
            );
            assert(reports_unknown_assets(e, comps, known));
            return Err(e);
        }
        k = k + 1;
    }
    Ok(())
}

/// Makes sure an asset is in at most one balance responsible party
/// perimeter.
fn check_single_brp_membership<C>(brp_perimeters: &[BrpDefinition<C>]) -> (r: Result<(), Error>)
    ensures
        r is Ok <==> single_brp_membership(brp_perimeters@),
        r matches Err(e) ==> reports_assets_in_several_brps(e, brp_perimeters@),
{
    let ghost brps = brp_perimeters@;
    let mut seen: HashSet<u128> = HashSet::new();
    let mut reported: HashSet<u128> = HashSet::new();
    let mut asset_ids: Vec<u128> = Vec::new();
    let mut i: usize = 0;
    while i < brp_perimeters.len()
        invariant
            i <= brps.len(),
            brps == brp_perimeters@,
            forall|x: u128| #[trigger] seen@.contains(x) <==> brps_holding(brps.take(i as int), x) >= 1,
            forall|x: u128| #[trigger] reported@.contains(x) <==> asset_ids@.contains(x),
            forall|x: u128| #[trigger] asset_ids@.contains(x) <==> brps_holding(brps.take(i as int), x) > 1,
            asset_ids@.no_duplicates(),
        decreases brp_perimeters.len() - i,
    {
        let composition = brp_perimeters[i].composition();
        let mut local: HashSet<u128> = HashSet::new();
        let mut j: usize = 0;
        while j < composition.len()
            invariant
                i < brps.len(),
                j <= composition@.len(),
                composition@ == brps[i as int].spec_composition(),
                forall|x: u128| #[trigger] local@.contains(x) <==> composition@.take(j as int).contains(x),
                forall|x: u128| #[trigger] seen@.contains(x) <==> brps_holding(brps.take(i as int), x)
                    + (if composition@.take(j as int).contains(x) { 1int } else { 0int }) >= 1,
                forall|x: u128| #[trigger] reported@.contains(x) <==> asset_ids@.contains(x),
                forall|x: u128| #[trigger] asset_ids@.contains(x) <==> brps_holding(brps.take(i as int), x)
                    + (if composition@.take(j as int).contains(x) { 1int } else { 0int }) > 1,
                asset_ids@.no_duplicates(),
            decreases composition.len() - j,
        {
            let id = composition[j];
            proof {
                assert forall|x: u128| #[trigger] composition@.take(j + 1).contains(x) <==> (
                composition@.take(j as int).contains(x) || id == x) by {
                    lemma_take_contains(composition@, j as int, x);
                }
            }
            if !local.contains(&id) {
                local.insert(id);
                if seen.contains(&id) {
                    if !reported.contains(&id) {
                        let ghost ids_before = asset_ids@;
                        asset_ids.push(id);
                        reported.insert(id);
                        assert forall|x: u128| #[trigger] asset_ids@.contains(x) <==> ids_before.contains(x)
                            || x == id by {
                            if asset_ids@.contains(x) && x != id {
                                let k = choose|k: int| 0 <= k < asset_ids@.len() && asset_ids@[k] == x;
                                assert(ids_before[k] == x);
                            }
                            if ids_before.contains(x) {
                                let k = choose|k: int| 0 <= k < ids_before.len() && ids_before[k] == x;
                                assert(asset_ids@[k] == x);
                            }
                            if x == id {
                                assert(asset_ids@[asset_ids@.len() - 1] == id);
                            }
                        }
                        assert(asset_ids@.no_duplicates()) by {
                            assert(!ids_before.contains(id));
                            assert forall|a: int, b: int|
                                0 <= a < b < asset_ids@.len() implies asset_ids@[a] != asset_ids@[b] by {
                                assert(ids_before[a] == asset_ids@[a]);
                                if b < asset_ids@.len() - 1 {
                                    assert(ids_before[b] == asset_ids@[b]);
                                }
                            }
                        }
                    }
                } else {
                    seen.insert(id);
                }
            }
            j = j + 1;
        }
        proof {
            assert(composition@.take(composition@.len() as int) =~= composition@);
            assert forall|x: u128| #[trigger] brps_holding(brps.take(i + 1), x) == brps_holding(brps.take(i as int), x)
                + (if composition@.contains(x) { 1int } else { 0int }) by {
                lemma_brps_holding_take(brps, i as int, x);
            }
        }
        i = i + 1;
    }
    proof {
        assert(brps.take(brps.len() as int) =~= brps);
    }
    if asset_ids.len() == 0 {
        assert forall|x: u128| #[trigger] brps_holding(brps, x) <= 1 by {
            if brps_holding(brps, x) > 1 {
                assert(asset_ids@.contains(x));
            }
        }
        Ok(())
    } else {
        let ghost first = asset_ids@[0];
        assert(asset_ids@.contains(first));
        assert(brps_holding(brps, first) > 1);
        assert(asset_ids@.to_set() =~= assets_in_several_brps(brps));
        Err(Error::Problem(ProblemError::AssetInMultipleBrps { asset_ids }))
    }
}

/// The markets of the first `m` perimeters come first among all their
/// markets.
proof fn lemma_brp_markets_prefix<C>(brps: Seq<BrpDefinition<C>>, m: int)
    requires
        0 <= m <= brps.len(),
    ensures
        brp_markets(brps.take(m)).len() <= brp_markets(brps).len(),
        forall|j: int|
            0 <= j < brp_markets(brps.take(m)).len() ==> brp_markets(brps)[j] == #[trigger] brp_markets(
                brps.take(m),
            )[j],
    decreases brps.len(),
{
    if m < brps.len() {
        lemma_brp_markets_prefix(brps.drop_last(), m);
        assert(brps.drop_last().take(m) =~= brps.take(m));
    } else {
        assert(brps.take(m) =~= brps);
    }
}

/// Makes sure a revenue series is available for every market bid on.
fn check_market_revenues<C, R>(
    revenues: &RevenueStore<R>,
    brp_perimeters: &[BrpDefinition<C>],
    reserve_perimeters: &[ReserveDefinition<C>],
) -> (r: Result<(), Error>)
    ensures
        r is Ok <==> revenues_available(*revenues, brp_perimeters@, reserve_perimeters@),
        r matches Err(e) ==> reports_missing_revenue(
            e,
            perimeter_markets(brp_perimeters@, reserve_perimeters@),
            *revenues,
        ),
{
    let ghost brps = brp_perimeters@;
    let ghost markets = perimeter_markets(brp_perimeters@, reserve_perimeters@);
    let ghost n = brp_markets(brps).len();
    assert(markets.len() == n + reserve_perimeters@.len());
    let mut i: usize = 0;
    while i < brp_perimeters.len()
        invariant
            i <= brps.len(),
            brps == brp_perimeters@,
            markets == perimeter_markets(brps, reserve_perimeters@),
            n == brp_markets(brps).len(),
            forall|j: int|
                0 <= j < brp_markets(brps.take(i as int)).len() ==> revenues.has_market(
                    (#[trigger] brp_markets(brps.take(i as int))[j]).market,
                ),
        decreases brp_perimeters.len() - i,
    {
        let markets_i = brp_perimeters[i].markets();
        let ghost done = brp_markets(brps.take(i as int));
        proof {
            lemma_brp_markets_take(brps, i as int);
            lemma_brp_markets_prefix(brps, i + 1);
        }
        let mut k: usize = 0;
        while k < markets_i.len()
            invariant
                k <= markets_i@.len(),
                markets_i@ == brps[i as int].spec_markets(),
                i < brps.len(),
                brps == brp_perimeters@,
                markets == perimeter_markets(brps, reserve_perimeters@),
                n == brp_markets(brps).len(),
                done == brp_markets(brps.take(i as int)),
                brp_markets(brps.take(i + 1)) == done + markets_i@,
                brp_markets(brps.take(i + 1)).len() <= n,
                forall|j: int|
                    0 <= j < brp_markets(brps.take(i + 1)).len() ==> brp_markets(brps)[j]
                        == #[trigger] brp_markets(brps.take(i + 1))[j],
                forall|j: int| 0 <= j < done.len() ==> revenues.has_market((#[trigger] done[j]).market),
                forall|j: int| 0 <= j < k ==> revenues.has_market((#[trigger] markets_i@[j]).market),
            decreases markets_i.len() - k,
        {
            let specs = &markets_i[k];
            match revenues.get(specs.market, specs.country) {
                Ok(_) => {},
                Err(e) => {
                    proof {
                        let prefix = brp_markets(brps.take(i + 1));
                        let idx = done.len() + k;
                        assert(prefix[idx] == markets_i@[k as int]);
                        assert(markets[idx] == brp_markets(brps)[idx]);
                        assert(markets[idx] == markets_i@[k as int]);
                        assert forall|j: int| 0 <= j < idx implies revenues.has_market(
                            (#[trigger] markets[j]).market,
                        ) by {
                            assert(markets[j] == brp_markets(brps)[j]);
                            assert(brp_markets(brps)[j] == prefix[j]);
                            if j < done.len() {
                                assert(prefix[j] == done[j]);
                            } else {
                                assert(prefix[j] == markets_i@[j - done.len()]);
                            }
                        }
                        assert(reports_missing_revenue(e, markets, *revenues));
                    }
                    return Err(e);
                },
            }
            k = k + 1;
        }
        proof {
            let all = brp_markets(brps.take(i + 1));
            assert forall|j: int| 0 <= j < all.len() implies revenues.has_market(
                (#[trigger] all[j]).market,
            ) by {
                if j >= done.len() {
                    assert(all[j] == markets_i@[j - done.len()]);
                } else {
                    assert(all[j] == done[j]);
                }
            }
        }
        i = i + 1;
    }
    proof {
        assert(brps.take(brps.len() as int) =~= brps);
    }
    let mut k: usize = 0;
    while k < reserve_perimeters.len()
        invariant
            k <= reserve_perimeters@.len(),
            brps == brp_perimeters@,
            markets == perimeter_markets(brps, reserve_perimeters@),
            n == brp_markets(brps).len(),
            markets.len() == n + reserve_perimeters@.len(),
            forall|j: int| 0 <= j < n + k ==> revenues.has_market((#[trigger] markets[j]).market),
        decreases reserve_perimeters.len() - k,
    {
        let specs = reserve_perimeters[k].market();
        assert(markets[n + k] == *specs);
        match revenues.get(specs.market, specs.country) {
            Ok(_) => {},
            Err(e) => {
                assert(reports_missing_revenue(e, markets, *revenues));
                return Err(e);
            },
        }
        k = k + 1;
    }
    Ok(())
}

// region: Optimization Problem
/// Complete description of an optimization problem. Its invariants
/// are checked at construction, so any existing problem is consistent
/// and can be modelled without further validation. Each asset is an `A`,
/// each commitment a `C` and each revenue row an `R`.
#[derive(Debug)]
pub struct OptimizationProblem<A, C, R> {
    grid: RegularTimeGrid,
    assets: HashMap<u128, A>,
    brp_perimeters: Vec<BrpDefinition<C>>,
    reserve_perimeters: Vec<ReserveDefinition<C>>,
    revenues: RevenueStore<R>,
}

impl<A, C, R> OptimizationProblem<A, C, R> {
    pub closed spec fn spec_grid(self) -> RegularTimeGrid {
        self.grid
    }

    pub closed spec fn spec_assets(self) -> Map<u128, A> {
        self.assets@
    }

    pub closed spec fn spec_brp_perimeters(self) -> Seq<BrpDefinition<C>> {
        self.brp_perimeters@
    }

    pub closed spec fn spec_reserve_perimeters(self) -> Seq<ReserveDefinition<C>> {
        self.reserve_perimeters@
    }

    pub closed spec fn spec_revenues(self) -> RevenueStore<R> {
        self.revenues
    }

    /// A problem is consistent: perimeters are made of known assets, an
    /// asset is in at most one balance responsible party perimeter, and every
    /// market bid on has revenues.
    #[verifier::type_invariant]
    pub open spec fn is_consistent(self) -> bool {
        &&& compositions_known(
            self.spec_assets().dom(),
            self.spec_brp_perimeters(),
            self.spec_reserve_perimeters(),
        )
        &&& single_brp_membership(self.spec_brp_perimeters())
        &&& revenues_available(
            self.spec_revenues(),
            self.spec_brp_perimeters(),
            self.spec_reserve_perimeters(),
        )
    }
}

impl<A, C, R> OptimizationProblem<A, C, R> {
    /// The problem made of these parts, once checked: the perimeters are
    /// checked to be made of known assets (the first offending perimeter is
    /// reported), then every asset to be in at most one balance responsible
    /// party perimeter (all offending assets are reported), then every market
    /// bid on to have a revenue series (the first market without one is
    /// reported).
    pub fn try_new(
        grid: RegularTimeGrid,
        assets: HashMap<u128, A>,
        brp_perimeters: Vec<BrpDefinition<C>>,
        reserve_perimeters: Vec<ReserveDefinition<C>>,
        revenues: RevenueStore<R>,
    ) -> (r: Result<Self, Error>)
        ensures
            r is Ok <==> {
                &&& compositions_known(assets@.dom(), brp_perimeters@, reserve_perimeters@)
                &&& single_brp_membership(brp_perimeters@)
                &&& revenues_available(revenues, brp_perimeters@, reserve_perimeters@)
            },
            r matches Ok(p) ==> {
                &&& p.spec_grid() == grid
                &&& p.spec_assets() == assets@
                &&& p.spec_brp_perimeters() == brp_perimeters@
                &&& p.spec_reserve_perimeters() == reserve_perimeters@
                &&& p.spec_revenues() == revenues
            },
            r matches Err(e) ==> if !compositions_known(
                assets@.dom(),
                brp_perimeters@,
                reserve_perimeters@,
            ) {
                reports_unknown_assets(
                    e,
                    perimeter_compositions(brp_perimeters@, reserve_perimeters@),
                    assets@.dom(),
                )
            } else if !single_brp_membership(brp_perimeters@) {
                reports_assets_in_several_brps(e, brp_perimeters@)
            } else {
                reports_missing_revenue(
                    e,
                    perimeter_markets(brp_perimeters@, reserve_perimeters@),
                    revenues,
                )
            },
    {
        check_compositions(&assets, brp_perimeters.as_slice(), reserve_perimeters.as_slice())?;
        check_single_brp_membership(brp_perimeters.as_slice())?;
        check_market_revenues(&revenues, brp_perimeters.as_slice(), reserve_perimeters.as_slice())?;
        Ok(Self { grid, assets, brp_perimeters, reserve_perimeters, revenues })
    }

    /// The grid the problem is solved on. Every problem is consistent.
    pub fn grid(&self) -> (r: &RegularTimeGrid)
        ensures
            *r == self.spec_grid(),
            self.is_consistent(),
    {
        proof {
            use_type_invariant(self);
        }
        &self.grid
    }

    /// The assets, by id. Every problem is consistent.
    pub fn assets(&self) -> (r: &HashMap<u128, A>)
        ensures
            r@ == self.spec_assets(),
            self.is_consistent(),
    {
        proof {
            use_type_invariant(self);
        }
        &self.assets
    }

    /// The balance responsible party perimeters. Every problem is consistent.
    pub fn brp_perimeters(&self) -> (r: &[BrpDefinition<C>])
        ensures
            r@ == self.spec_brp_perimeters(),
            self.is_consistent(),
    {
        proof {
            use_type_invariant(self);
        }
        self.brp_perimeters.as_slice()
    }

    /// The reserve perimeters. Every problem is consistent.
    pub fn reserve_perimeters(&self) -> (r: &[ReserveDefinition<C>])
        ensures
            r@ == self.spec_reserve_perimeters(),
            self.is_consistent(),
    {
        proof {
            use_type_invariant(self);
        }
        self.reserve_perimeters.as_slice()
    }

    /// The revenue series of the markets. Every problem is consistent.
    pub fn revenues(&self) -> (r: &RevenueStore<R>)
        ensures
            *r == self.spec_revenues(),
            self.is_consistent(),
    {
        proof {
            use_type_invariant(self);
        }
        &self.revenues
    }
}
// endregion: Optimization Problem

} // verus!
