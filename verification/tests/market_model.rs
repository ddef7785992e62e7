use price_limit_sim::market::{
    compute_outcome, demand_price, supply_price, MarketOutcome, SimulatorState, INPUT_BOUND,
    PRICE_SCALE, SCALE, SURPLUS_SCALE,
};

// A unit of quantity or shift on the fixed-point grid.
const Q: i64 = SCALE;
// A unit of price on the fixed-point grid.
const P: i64 = PRICE_SCALE;
// A unit of surplus on the fixed-point grid.
const S: i64 = SURPLUS_SCALE;

#[test]
fn default_parameters_reach_equilibrium() {
    // price_limit = 10, shifts = 0: equilibrium at quantity 10, price 10;
    // the ceiling does not bind and both surpluses are 25.
    let o = compute_outcome(10 * P, 0, 0);
    assert_eq!(o.actual_quantity, 10 * Q);
    assert_eq!(o.actual_price, 10 * P);
    assert_eq!(o.consumer_surplus, 25 * S);
    assert_eq!(o.producer_surplus, 25 * S);
}

#[test]
fn default_state_matches_default_parameters() {
    let state = SimulatorState::default();
    assert_eq!(state.price_limit, 10 * P);
    assert_eq!(state.supply_shift, 0);
    assert_eq!(state.demand_shift, 0);
    assert_eq!(state.outcome(), compute_outcome(10 * P, 0, 0));
}

#[test]
fn ceiling_at_supply_intercept_drives_quantity_to_zero() {
    // price_limit = 5, shifts = 0: the equilibrium price 10 is above the
    // limit, so the ceiling binds; the limit equals the supply intercept, so
    // nothing is supplied and both surpluses vanish.
    let o = compute_outcome(5 * P, 0, 0);
    assert_eq!(o.actual_price, 5 * P);
    assert_eq!(o.actual_quantity, 0);
    assert_eq!(o.consumer_surplus, 0);
    assert_eq!(o.producer_surplus, 0);
}

#[test]
fn slack_ceiling_leaves_the_equilibrium_alone() {
    // Any limit at or above the equilibrium price of 10 gives the
    // unconstrained outcome, independent of the limit's exact value.
    let at_equilibrium = compute_outcome(10 * P, 0, 0);
    let above = compute_outcome(15 * P, 0, 0);
    let far_above = compute_outcome(20 * P, 0, 0);
    assert_eq!(above, at_equilibrium);
    assert_eq!(far_above, at_equilibrium);
}

#[test]
fn lowering_a_binding_ceiling_shrinks_the_market() {
    // With shifts fixed at zero the equilibrium price is 10; limits of 9 and
    // 8 bind, and the lower limit trades strictly less at a strictly lower
    // price, down to the floor at zero.
    let nine = compute_outcome(9 * P, 0, 0);
    let eight = compute_outcome(8 * P, 0, 0);
    assert_eq!(nine.actual_price, 9 * P);
    assert_eq!(eight.actual_price, 8 * P);
    assert_eq!(nine.actual_quantity, 8 * Q);
    assert_eq!(eight.actual_quantity, 6 * Q);
    assert!(eight.actual_quantity < nine.actual_quantity);
    let floor = compute_outcome(3 * P, 0, 0);
    assert_eq!(floor.actual_quantity, 0);
}

#[test]
fn binding_ceiling_splits_the_surplus() {
    // price_limit = 8, shifts = 0: the ceiling binds, 6 units trade at 8.
    // Consumer surplus is the triangle 1/2 * 6 * (15 - 8) = 21; producer
    // surplus the triangle 1/2 * 6 * (8 - 5) = 9.
    let o = compute_outcome(8 * P, 0, 0);
    assert_eq!(o.actual_quantity, 6 * Q);
    assert_eq!(o.actual_price, 8 * P);
    assert_eq!(o.consumer_surplus, 21 * S);
    assert_eq!(o.producer_surplus, 9 * S);
}

#[test]
fn shifts_move_the_equilibrium() {
    // supply_shift = 2, demand_shift = -1: equilibrium quantity is
    // 10 - 1 - 2 = 7, equilibrium price 0.5 * 7 + 5 + 2 = 10.5, and a limit
    // of 20 does not bind. Surpluses are 1/2 * 7 * 3.5 = 12.25 each.
    let o = compute_outcome(20 * P, 2 * Q, -Q);
    assert_eq!(o.actual_quantity, 7 * Q);
    assert_eq!(o.actual_price, 21 * P / 2);
    assert_eq!(o.consumer_surplus, 49 * S / 4);
    assert_eq!(o.producer_surplus, 49 * S / 4);
}

#[test]
fn curves_that_never_cross_trade_nothing() {
    // supply_shift = 10, demand_shift = -10: the curves do not cross at a
    // non-negative quantity, the equilibrium quantity is clamped to zero and
    // the equilibrium price is read off the supply curve alone: 5 + 10 = 15.
    let o = compute_outcome(20 * P, 10 * Q, -10 * Q);
    assert_eq!(o.actual_quantity, 0);
    assert_eq!(o.actual_price, 15 * P);
    assert_eq!(o.consumer_surplus, 0);
    assert_eq!(o.producer_surplus, 0);
    // The demand curve quotes a different price at quantity zero in this
    // regime: 15 - 10 = 5.
    assert_eq!(demand_price(0, -10 * Q), 5 * P);
}

#[test]
fn pricing_formulas_give_exact_values() {
    assert_eq!(supply_price(0, 0), 5 * P);
    assert_eq!(supply_price(10 * Q, 0), 10 * P);
    assert_eq!(supply_price(0, 2 * Q), 7 * P);
    assert_eq!(supply_price(3 * Q, -Q), 11 * P / 2);
    assert_eq!(demand_price(0, 0), 15 * P);
    assert_eq!(demand_price(10 * Q, 0), 10 * P);
    assert_eq!(demand_price(0, -3 * Q), 12 * P);
    assert_eq!(demand_price(5 * Q, Q), 27 * P / 2);
}

#[test]
fn prices_floor_at_zero() {
    // The curves never quote a negative price, however hard they are pushed.
    assert_eq!(supply_price(0, -10 * Q), 0);
    assert_eq!(supply_price(-20 * Q, 0), 0);
    assert_eq!(demand_price(40 * Q, 0), 0);
    assert_eq!(demand_price(30 * Q, -Q), 0);
    assert_eq!(demand_price(INPUT_BOUND, INPUT_BOUND / 4), 0);
    assert!(supply_price(-INPUT_BOUND, INPUT_BOUND / 4) >= 0);
    assert!(supply_price(INPUT_BOUND, -INPUT_BOUND / 4) >= 0);
}

#[test]
fn recomputation_is_reproducible() {
    // The outcome is a pure function of the parameters: recomputing with the
    // same arguments gives an identical result, field for field.
    let cases: Vec<(i64, i64, i64)> = vec![
        (10 * P, 0, 0),
        (5 * P, 0, 0),
        (8 * P, 3 * Q, -2 * Q),
        (0, -10 * Q, 10 * Q),
        (20 * P, 10 * Q, -10 * Q),
    ];
    for (limit, supply_shift, demand_shift) in cases {
        let first: MarketOutcome = compute_outcome(limit, supply_shift, demand_shift);
        let second: MarketOutcome = compute_outcome(limit, supply_shift, demand_shift);
        assert_eq!(first, second);
    }
}
