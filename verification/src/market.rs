//! The market model: the two linear pricing curves and the derivation of the
//! equilibrium and ceiling outcome from the three simulator parameters.

use vstd::prelude::*;

verus! {

/// Quantities and curve shifts are integer multiples of `1 / SCALE` of a unit.
pub const SCALE: i64 = 1000;

/// Prices are integer multiples of `1 / PRICE_SCALE` of a unit. The curves
/// have slope `1/2` and `-1/2`, so a curve price over a quantity on the
/// `SCALE` grid is a whole number of `PRICE_SCALE` steps: the finer grid keeps
/// every price exact.
pub const PRICE_SCALE: i64 = 2000;

/// Surpluses are integer multiples of `1 / SURPLUS_SCALE` of a unit. A
/// surplus is half a quantity times a price difference, which lands exactly
/// on this grid: `SURPLUS_SCALE = 2 * SCALE * PRICE_SCALE`.
pub const SURPLUS_SCALE: i64 = 4_000_000;

/// Bound on the magnitude of the inputs (price limit, shifts, quantities)
/// accepted by the executable functions, so that every intermediate product
/// fits in an `i64`. It is far outside the slider range of the simulator.
pub const INPUT_BOUND: i64 = 100_000_000;

/// The greater of `x` and zero.
pub open spec fn max0(x: int) -> int {
    if x < 0 {
        0
    } else {
        x
    }
}

/// Supply price at quantity `q` under shift `s`, on the price grid:
/// `max(0, q/2 + 5 + s)` in units.
pub open spec fn supply_price_at(q: int, s: int) -> int {
    max0(q + 5 * PRICE_SCALE + 2 * s)
}

/// Demand price at quantity `q` under shift `d`, on the price grid:
/// `max(0, -q/2 + 15 + d)` in units.
pub open spec fn demand_price_at(q: int, d: int) -> int {
    max0(15 * PRICE_SCALE + 2 * d - q)
}

/// The simulator parameters: a price ceiling and a vertical shift for each
/// curve. `price_limit` is on the price grid; the shifts are on the `SCALE`
/// grid, like quantities.
#[derive(Clone, Copy, Debug, PartialEq, Eq, Structural)]
pub struct SimulatorState {
    pub price_limit: i64,
    pub supply_shift: i64,
    pub demand_shift: i64,
}

/// Supply price at `q` under shift `s`, both within `INPUT_BOUND`.
pub fn supply_price(q: i64, s: i64) -> (p: i64)
    requires
        -INPUT_BOUND <= q <= INPUT_BOUND,
        -INPUT_BOUND <= s <= INPUT_BOUND,
    ensures
        p == supply_price_at(q as int, s as int),
{
    let raw: i64 = q + 5 * PRICE_SCALE + 2 * s;
    if raw < 0 {
        0
    } else {
        raw
    }
}

/// Demand price at `q` under shift `d`, both within `INPUT_BOUND`.
pub fn demand_price(q: i64, d: i64) -> (p: i64)
    requires
        -INPUT_BOUND <= q <= INPUT_BOUND,
        -INPUT_BOUND <= d <= INPUT_BOUND,
    ensures
        p == demand_price_at(q as int, d as int),
{
    let raw: i64 = 15 * PRICE_SCALE + 2 * d - q;
    if raw < 0 {
        0
    } else {
        raw
    }
}

/// The two pricing curves never quote a negative price, whatever the
/// quantity and shift.
pub proof fn lemma_prices_never_negative(q: int, s: int, d: int)
    ensures
        supply_price_at(q, s) >= 0,
        demand_price_at(q, d) >= 0,
{
}

/// Unconstrained equilibrium quantity under shifts `s` and `d`, on the
/// `SCALE` grid: `max(0, (15 + d) - (5 + s))` in units, the intersection of
/// the two curves clamped at zero.
pub open spec fn eq_quantity_at(s: int, d: int) -> int {
    max0(10 * SCALE + d - s)
}

/// Unconstrained equilibrium price: the supply price at the equilibrium
/// quantity. When the equilibrium quantity was clamped to zero the demand
/// curve may quote a different price there; the supply curve is the one the
/// model reads.
pub open spec fn eq_price_at(s: int, d: int) -> int {
    supply_price_at(eq_quantity_at(s, d), s)
}

/// The ceiling binds exactly when it sits strictly below the unconstrained
/// equilibrium price.
pub open spec fn ceiling_binds(limit: int, s: int, d: int) -> bool {
    limit < eq_price_at(s, d)
}

/// The traded price: the ceiling when it binds, the equilibrium price
/// otherwise.
pub open spec fn actual_price_at(limit: int, s: int, d: int) -> int {
    if ceiling_binds(limit, s, d) {
        limit
    } else {
        eq_price_at(s, d)
    }
}

/// The traded quantity. Under a binding ceiling it is the supply curve
/// inverted at the ceiling price, clamped at zero — the supplied amount is
/// what gets traded in a shortage; otherwise it is the equilibrium quantity.
pub open spec fn actual_quantity_at(limit: int, s: int, d: int) -> int {
    if ceiling_binds(limit, s, d) {
        max0(limit - 5 * PRICE_SCALE - 2 * s)
    } else {
        eq_quantity_at(s, d)
    }
}

/// Consumer surplus on the `SURPLUS_SCALE` grid: the triangle
/// `1/2 * quantity * ((15 + d) - price)` between the demand intercept and the
/// traded price, over the traded quantity. May be negative under extreme
/// shifts; that is the documented model, not an error.
pub open spec fn consumer_surplus_at(limit: int, s: int, d: int) -> int {
    actual_quantity_at(limit, s, d) * (15 * PRICE_SCALE + 2 * d - actual_price_at(limit, s, d))
}

/// Producer surplus on the `SURPLUS_SCALE` grid: the triangle
/// `1/2 * quantity * (price - (5 + s))` between the traded price and the
/// supply intercept, over the traded quantity.
pub open spec fn producer_surplus_at(limit: int, s: int, d: int) -> int {
    actual_quantity_at(limit, s, d) * (actual_price_at(limit, s, d) - 5 * PRICE_SCALE - 2 * s)
}

/// The market outcome derived from the three parameters: surpluses on the
/// `SURPLUS_SCALE` grid, traded quantity on the `SCALE` grid, traded price on
/// the price grid. Recomputed on demand, never stored.
#[derive(Clone, Copy, Debug, PartialEq, Eq, Structural)]
pub struct MarketOutcome {
    pub consumer_surplus: i64,
    pub producer_surplus: i64,
    pub actual_quantity: i64,
    pub actual_price: i64,
}

/// `o` is exactly the outcome the model assigns to the parameters
/// `(limit, s, d)`.
pub open spec fn outcome_for(limit: int, s: int, d: int, o: MarketOutcome) -> bool {
    &&& o.consumer_surplus == consumer_surplus_at(limit, s, d)
    &&& o.producer_surplus == producer_surplus_at(limit, s, d)
    &&& o.actual_quantity == actual_quantity_at(limit, s, d)
    &&& o.actual_price == actual_price_at(limit, s, d)
}

/// Derives the full market outcome from the three parameters.
pub fn compute_outcome(price_limit: i64, supply_shift: i64, demand_shift: i64) -> (o:
    MarketOutcome)
    requires
        -INPUT_BOUND <= price_limit <= INPUT_BOUND,
        -INPUT_BOUND <= supply_shift <= INPUT_BOUND,
        -INPUT_BOUND <= demand_shift <= INPUT_BOUND,
    ensures
        outcome_for(price_limit as int, supply_shift as int, demand_shift as int, o),
{
    let raw_eq_qty: i64 = 10 * SCALE + demand_shift - supply_shift;
    let eq_qty: i64 = if raw_eq_qty < 0 {
        0
    } else {
        raw_eq_qty
    };
    let raw_eq_price: i64 = eq_qty + 5 * PRICE_SCALE + 2 * supply_shift;
    let eq_price: i64 = if raw_eq_price < 0 {
        0
    } else {
        raw_eq_price
    };

    let mut actual_price: i64 = eq_price;
    let mut actual_quantity: i64 = eq_qty;
    if price_limit < eq_price {
        actual_price = price_limit;
        let raw_qty: i64 = price_limit - 5 * PRICE_SCALE - 2 * supply_shift;
        actual_quantity = if raw_qty < 0 {
            0
        } else {
            raw_qty
        };
    }

    let demand_gap: i64 = 15 * PRICE_SCALE + 2 * demand_shift - actual_price;
    let supply_gap: i64 = actual_price - 5 * PRICE_SCALE - 2 * supply_shift;
    proof {
        lemma_abs_mul_bound(actual_quantity as int, demand_gap as int, 5 * INPUT_BOUND, 8 * INPUT_BOUND);
        lemma_abs_mul_bound(actual_quantity as int, supply_gap as int, 5 * INPUT_BOUND, 8 * INPUT_BOUND);
    }
    let consumer_surplus: i64 = actual_quantity * demand_gap;
    let producer_surplus: i64 = actual_quantity * supply_gap;

    MarketOutcome { consumer_surplus, producer_surplus, actual_quantity, actual_price }
}

impl SimulatorState {
    /// The parameters sit inside the slider ranges of the interactive
    /// session: price limit in `[0, 20]` units, each shift in `[-10, 10]`.
    pub open spec fn in_slider_range(self) -> bool {
        &&& 0 <= self.price_limit <= 20 * PRICE_SCALE
        &&& -10 * SCALE <= self.supply_shift <= 10 * SCALE
        &&& -10 * SCALE <= self.demand_shift <= 10 * SCALE
    }

    /// The outcome the market assigns to these parameters.
    pub fn outcome(&self) -> (o: MarketOutcome)
        requires
            self.in_slider_range(),
        ensures
            outcome_for(
                self.price_limit as int,
                self.supply_shift as int,
                self.demand_shift as int,
                o,
            ),
    {
        compute_outcome(self.price_limit, self.supply_shift, self.demand_shift)
    }
}

impl Default for SimulatorState {
    /// The session starts with a price limit of 10 units and no shifts.
    fn default() -> (s: Self)
        ensures
            s.price_limit == 10 * PRICE_SCALE,
            s.supply_shift == 0,
            s.demand_shift == 0,
            s.in_slider_range(),
    {
        SimulatorState { price_limit: 10 * PRICE_SCALE, supply_shift: 0, demand_shift: 0 }
    }
}

/// A ceiling at or above the equilibrium price does not bind: the traded
/// price and quantity are the unconstrained equilibrium ones, whatever the
/// exact value of the limit. Two such limits give the whole outcome alike.
pub proof fn lemma_slack_ceiling_keeps_equilibrium(limit1: int, limit2: int, s: int, d: int)
    requires
        limit1 >= eq_price_at(s, d),
        limit2 >= eq_price_at(s, d),
    ensures
        actual_price_at(limit1, s, d) == eq_price_at(s, d),
        actual_quantity_at(limit1, s, d) == eq_quantity_at(s, d),
        consumer_surplus_at(limit1, s, d) == consumer_surplus_at(limit2, s, d),
        producer_surplus_at(limit1, s, d) == producer_surplus_at(limit2, s, d),
{
}

/// Lowering a binding ceiling lowers the traded price in step with the
/// limit, and strictly lowers the traded quantity until it reaches its floor
/// at zero.
pub proof fn lemma_binding_ceiling_monotone(limit1: int, limit2: int, s: int, d: int)
    requires
        limit1 < limit2 < eq_price_at(s, d),
    ensures
        actual_price_at(limit1, s, d) == limit1 < limit2 == actual_price_at(limit2, s, d),
        actual_quantity_at(limit1, s, d) <= actual_quantity_at(limit2, s, d),
        actual_quantity_at(limit1, s, d) > 0 ==> actual_quantity_at(limit1, s, d)
            < actual_quantity_at(limit2, s, d),
        actual_quantity_at(limit2, s, d) == 0 ==> actual_quantity_at(limit1, s, d) == 0,
{
}

/// When the curves cross at a non-negative quantity, both quote the same
/// price there, so reading the equilibrium price off the supply curve is no
/// choice at all. Only when the equilibrium quantity is clamped to zero may
/// the demand curve's quote at that quantity differ.
pub proof fn lemma_curves_agree_at_equilibrium(s: int, d: int)
    requires
        10 * SCALE + d - s >= 0,
    ensures
        eq_price_at(s, d) == demand_price_at(eq_quantity_at(s, d), d),
{
}

/// The outcome is a function of the parameters alone: any two outcomes that
/// satisfy `outcome_for` at the same parameters are equal in every field.
pub proof fn lemma_outcome_deterministic(limit: int, s: int, d: int, o1: MarketOutcome, o2: MarketOutcome)
    requires
        outcome_for(limit, s, d, o1),
        outcome_for(limit, s, d, o2),
    ensures
        o1 == o2,
{
}

/// A product of two factors is bounded by the product of bounds on the
/// factors.
proof fn lemma_abs_mul_bound(a: int, b: int, a_bound: int, b_bound: int)
    requires
        -a_bound <= a <= a_bound,
        -b_bound <= b <= b_bound,
    ensures
        -(a_bound * b_bound) <= a * b <= a_bound * b_bound,
{
    assert(-(a_bound * b_bound) <= a * b <= a_bound * b_bound) by (nonlinear_arith)
        requires
            -a_bound <= a <= a_bound,
            -b_bound <= b <= b_bound,
    ;
}

} // verus!

