//! The curve sampler: discretized point sequences for the supply, demand and
//! price-limit lines, and the four-vertex polygons bounding the consumer and
//! producer surplus regions, ready for a rendering surface.

use vstd::prelude::*;

verus! {

use crate::market::{
    INPUT_BOUND, MarketOutcome, SCALE, demand_price, demand_price_at, supply_price,
    supply_price_at,
};
use vstd::arithmetic::div_mod::{
    lemma_div_nonincreasing, lemma_div_pos_is_pos, lemma_fundamental_div_mod, lemma_mod_bound,
};
use vstd::arithmetic::mul::{lemma_mul_inequality, lemma_mul_is_distributive_add_other_way};

/// Number of points a curve is sampled at by default.
pub const DEFAULT_N_SAMPLES: usize = 100;

/// Right edge of the sampled quantity range, and of the plotted price-limit
/// line: 20 units, on the `SCALE` grid.
pub const DEFAULT_MAX_QUANTITY: i64 = 20 * SCALE;

/// Which of the two pricing curves to sample.
#[derive(Clone, Copy, Debug, PartialEq, Eq, Structural)]
pub enum CurveKind {
    Supply,
    Demand,
}

/// The price the chosen curve quotes at quantity `q` under `shift`.
pub open spec fn curve_price_at(kind: CurveKind, q: int, shift: int) -> int {
    match kind {
        CurveKind::Supply => supply_price_at(q, shift),
        CurveKind::Demand => demand_price_at(q, shift),
    }
}

/// One vertex of a curve or polygon: a quantity on the `SCALE` grid paired
/// with a price on the `PRICE_SCALE` grid.
#[derive(Clone, Copy, Debug, PartialEq, Eq, Structural)]
pub struct CurvePoint {
    pub quantity: i64,
    pub price: i64,
}

/// The quantity increment between two neighbouring samples.
pub open spec fn sample_step(max_quantity: int, n_samples: int) -> int {
    if n_samples > 0 {
        max_quantity / n_samples
    } else {
        0
    }
}

/// The price the chosen curve quotes at `q` under `shift`.
pub fn curve_price(kind: CurveKind, q: i64, shift: i64) -> (p: i64)
    requires
        -INPUT_BOUND <= q <= INPUT_BOUND,
        -INPUT_BOUND <= shift <= INPUT_BOUND,
    ensures
        p == curve_price_at(kind, q as int, shift as int),
{
    match kind {
        CurveKind::Supply => supply_price(q, shift),
        CurveKind::Demand => demand_price(q, shift),
    }
}

/// Samples the chosen curve at `n_samples` quantities, evenly spaced from
/// zero in steps of `max_quantity / n_samples`: an ordered, materialized
/// point sequence, sorted by ascending quantity.
pub fn sample_curve(kind: CurveKind, shift: i64, n_samples: usize, max_quantity: i64) -> (points:
    Vec<CurvePoint>)
    requires
        0 <= max_quantity <= INPUT_BOUND,
        -INPUT_BOUND <= shift <= INPUT_BOUND,
    ensures
        points.len() == n_samples,
        forall|k: int|
            0 <= k < n_samples ==> #[trigger] points[k].quantity == k * sample_step(
                max_quantity as int,
                n_samples as int,
            ),
        forall|k: int|
            0 <= k < n_samples ==> #[trigger] points[k].price == curve_price_at(
                kind,
                points[k].quantity as int,
                shift as int,
            ),
        forall|k: int, l: int|
            #![trigger points[k].quantity, points[l].quantity]
            0 <= k <= l < n_samples ==> points[k].quantity <= points[l].quantity,
        n_samples > 0 ==> points[0].quantity == 0,
{
    let mut points: Vec<CurvePoint> = Vec::new();
    if n_samples == 0 {
        return points;
    }
    let whole_range: u64 = max_quantity as u64;
    let samples: u64 = n_samples as u64;
    proof {
        lemma_div_pos_is_pos(whole_range as int, samples as int);
        lemma_div_nonincreasing(whole_range as int, samples as int);
        lemma_fundamental_div_mod(whole_range as int, samples as int);
        lemma_mod_bound(whole_range as int, samples as int);
    }
    let step: i64 = (whole_range / samples) as i64;
    let ghost full_span: int = (n_samples as int) * step;

    let mut q: i64 = 0;
    let mut i: usize = 0;
    while i < n_samples
        invariant
            i <= n_samples,
            points.len() == i,
            0 <= step,
            step == sample_step(max_quantity as int, n_samples as int),
            full_span == (n_samples as int) * step,
            full_span <= max_quantity,
            q == i * step,
            0 <= q <= max_quantity,
            0 <= max_quantity <= INPUT_BOUND,
            -INPUT_BOUND <= shift <= INPUT_BOUND,
            forall|k: int|
                0 <= k < i ==> #[trigger] points[k].quantity == k * sample_step(
                    max_quantity as int,
                    n_samples as int,
                ),
            forall|k: int|
                0 <= k < i ==> #[trigger] points[k].price == curve_price_at(
                    kind,
                    points[k].quantity as int,
                    shift as int,
                ),
        decreases n_samples - i,
    {
        let price: i64 = curve_price(kind, q, shift);
        points.push(CurvePoint { quantity: q, price });
        proof {
            lemma_mul_is_distributive_add_other_way(step as int, i as int, 1);
            lemma_mul_inequality(i as int + 1, n_samples as int, step as int);
        }
        q = q + step;
        i = i + 1;
    }
    proof {
        assert forall|k: int, l: int|
            #![trigger points[k].quantity, points[l].quantity]
            0 <= k <= l < n_samples implies points[k].quantity <= points[l].quantity by {
            lemma_mul_inequality(k, l, sample_step(max_quantity as int, n_samples as int));
        }
    }
    points
}

/// The horizontal price-limit line: two points at the given price, from
/// quantity zero to the right edge of the plot.
pub fn price_limit_line(price_limit: i64) -> (points: Vec<CurvePoint>)
    ensures
        points.len() == 2,
        points[0].quantity == 0,
        points[0].price == price_limit,
        points[1].quantity == DEFAULT_MAX_QUANTITY,
        points[1].price == price_limit,
{
    let mut points: Vec<CurvePoint> = Vec::new();
    points.push(CurvePoint { quantity: 0, price: price_limit });
    points.push(CurvePoint { quantity: DEFAULT_MAX_QUANTITY, price: price_limit });
    points
}

/// The quadrilateral bounding the consumer surplus: it runs along the demand
/// curve from the price axis to the traded quantity, then down to the traded
/// price and back to the axis.
pub fn consumer_surplus_polygon(outcome: &MarketOutcome, demand_shift: i64) -> (poly: Vec<
    CurvePoint,
>)
    requires
        -INPUT_BOUND <= outcome.actual_quantity <= INPUT_BOUND,
        -INPUT_BOUND <= demand_shift <= INPUT_BOUND,
    ensures
        poly.len() == 4,
        poly[0].quantity == 0,
        poly[0].price == demand_price_at(0, demand_shift as int),
        poly[1].quantity == outcome.actual_quantity,
        poly[1].price == demand_price_at(outcome.actual_quantity as int, demand_shift as int),
        poly[2].quantity == outcome.actual_quantity,
        poly[2].price == outcome.actual_price,
        poly[3].quantity == 0,
        poly[3].price == outcome.actual_price,
{
    let mut poly: Vec<CurvePoint> = Vec::new();
    poly.push(CurvePoint { quantity: 0, price: demand_price(0, demand_shift) });
    poly.push(
        CurvePoint {
            quantity: outcome.actual_quantity,
            price: demand_price(outcome.actual_quantity, demand_shift),
        },
    );
    poly.push(CurvePoint { quantity: outcome.actual_quantity, price: outcome.actual_price });
    poly.push(CurvePoint { quantity: 0, price: outcome.actual_price });
    poly
}

/// The quadrilateral bounding the producer surplus: it runs along the traded
/// price from the price axis to the traded quantity, then down to the supply
/// curve and back along it to the axis.
pub fn producer_surplus_polygon(outcome: &MarketOutcome, supply_shift: i64) -> (poly: Vec<
    CurvePoint,
>)
    requires
        -INPUT_BOUND <= outcome.actual_quantity <= INPUT_BOUND,
        -INPUT_BOUND <= supply_shift <= INPUT_BOUND,
    ensures
        poly.len() == 4,
        poly[0].quantity == 0,
        poly[0].price == outcome.actual_price,
        poly[1].quantity == outcome.actual_quantity,
        poly[1].price == outcome.actual_price,
        poly[2].quantity == outcome.actual_quantity,
        poly[2].price == supply_price_at(outcome.actual_quantity as int, supply_shift as int),
        poly[3].quantity == 0,
        poly[3].price == supply_price_at(0, supply_shift as int),
{
    let mut poly: Vec<CurvePoint> = Vec::new();
    poly.push(CurvePoint { quantity: 0, price: outcome.actual_price });
    poly.push(CurvePoint { quantity: outcome.actual_quantity, price: outcome.actual_price });
    poly.push(
        CurvePoint {
            quantity: outcome.actual_quantity,
            price: supply_price(outcome.actual_quantity, supply_shift),
        },
    );
    poly.push(CurvePoint { quantity: 0, price: supply_price(0, supply_shift) });
    poly
}

} // verus!
