use vstd::prelude::*;
use crate::bond::state::{Adjust, State, Store, Terms};
use crate::chain::Env;
use crate::math::wide_product;

verus! {

// ---------------------------------------------------------------------
// Decay clock
// ---------------------------------------------------------------------

/// The debt that has decayed `elapsed` ticks after decay was last applied:
/// `total_debt * elapsed`, but never more than `total_debt`.
pub open spec fn decay_after(total_debt: int, elapsed: int) -> int {
    if total_debt * elapsed > total_debt {
        total_debt
    } else {
        total_debt * elapsed
    }
}

/// With no tick elapsed nothing decays; after one tick or more, all of it.
pub proof fn lemma_decay_after(total_debt: int, elapsed: int)
    requires
        0 <= total_debt,
        0 <= elapsed,
    ensures
        elapsed == 0 ==> decay_after(total_debt, elapsed) == 0,
        elapsed > 0 ==> decay_after(total_debt, elapsed) == total_debt,
{
    if elapsed > 0 {
        assert(total_debt * elapsed >= total_debt) by (nonlinear_arith)
            requires
                0 <= total_debt,
                1 <= elapsed,
        ;
    } else {
        assert(total_debt * 0 == 0);
    }
}

/// Ticks since decay was last applied.
pub open spec fn elapsed(store: Store, env: Env) -> int {
    env.height - store.state.last_decay
}

/// The debt that has decayed since decay was last applied.
pub open spec fn spec_debt_decay(store: Store, env: Env) -> int {
    decay_after(store.state.total_debt as int, elapsed(store, env))
}

/// Decay never shrinks as ticks pass, and never exceeds the debt: of two
/// ticks, neither before the last decay, the later one has decayed at least
/// as much as the earlier, and no more than the debt.
pub proof fn lemma_decay_monotonic(store: Store, earlier: Env, later: Env)
    requires
        store.state.last_decay <= earlier.height <= later.height,
    ensures
        0 <= spec_debt_decay(store, earlier),
        spec_debt_decay(store, earlier) <= spec_debt_decay(store, later),
        spec_debt_decay(store, later) <= store.state.total_debt,
{
    lemma_decay_after(store.state.total_debt as int, elapsed(store, earlier));
    lemma_decay_after(store.state.total_debt as int, elapsed(store, later));
}

/// The debt that has decayed since decay was last applied.
pub fn debt_decay(store: &Store, env: &Env) -> (decay: u64)
    requires
        store.state.last_decay <= env.height,
    ensures
        decay == spec_debt_decay(*store, *env),
        decay <= store.state.total_debt,
{
    proof {
        lemma_decay_after(store.state.total_debt as int, elapsed(*store, *env));
    }
    let height_since_last: u64 = env.height - store.state.last_decay;
    if height_since_last == 0 {
        0
    } else {
        store.state.total_debt
    }
}

/// The store once the decay that is due has been applied.
pub open spec fn decayed(store: Store, env: Env) -> Store {
    Store {
        state: State {
            total_debt: spec_current_debt(store, env) as u64,
            last_decay: env.height,
            ..store.state
        },
        ..store
    }
}

/// Applies the decay that is due: it leaves the debt, and the clock is set
/// to the current tick.
pub fn decay_debt(store: &mut Store, env: &Env)
    requires
        old(store).state.last_decay <= env.height,
    ensures
        *final(store) == decayed(*old(store), *env),
{
    let decay: u64 = debt_decay(store, env);
    store.state.total_debt = store.state.total_debt - decay;
    store.state.last_decay = env.height;
}

/// The outstanding debt as of the current tick: what has not decayed.
pub open spec fn spec_current_debt(store: Store, env: Env) -> int {
    store.state.total_debt - spec_debt_decay(store, env)
}

/// The outstanding debt as of the current tick.
pub fn current_debt(store: &Store, env: &Env) -> (debt: u64)
    requires
        store.state.last_decay <= env.height,
    ensures
        debt == spec_current_debt(*store, *env),
        debt <= store.state.total_debt,
{
    store.state.total_debt - debt_decay(store, env)
}

// ---------------------------------------------------------------------
// Pricing engine
// ---------------------------------------------------------------------

/// Debt as a share of the token supply, scaled by 10^9.
pub open spec fn ratio_of(debt: int, supply: int) -> int {
    debt * 1_000_000_000 / supply
}

/// The price before the floor is applied.
pub open spec fn raw_price_of(control_variable: int, ratio: int) -> int {
    (control_variable * ratio + 1_000_000_000) / 10_000_000
}

/// The price: the raw price, but never less than `minimum`.
pub open spec fn floored(raw: int, minimum: int) -> int {
    if raw < minimum {
        minimum
    } else {
        raw
    }
}

/// The current debt ratio.
pub open spec fn spec_debt_ratio(store: Store, env: Env) -> int {
    ratio_of(spec_current_debt(store, env), env.total_supply as int)
}

/// The current price before the floor is applied.
pub open spec fn spec_raw_price(store: Store, env: Env) -> int {
    raw_price_of(store.terms.control_variable as int, spec_debt_ratio(store, env))
}

/// The current bond price.
pub open spec fn spec_bond_price(store: Store, env: Env) -> int {
    floored(spec_raw_price(store, env), store.terms.minimum_price as int)
}

/// The current bond price in the reference currency.
pub open spec fn spec_bond_price_in_usd(store: Store, env: Env) -> int {
    spec_bond_price(store, env) * 1_000_000 / 100
}

/// The debt ratio can be computed and fits 64 bits.
pub open spec fn ratio_defined(store: Store, env: Env) -> bool {
    &&& store.state.last_decay <= env.height
    &&& env.total_supply > 0
    &&& spec_debt_ratio(store, env) <= u64::MAX
}

/// The price can be computed and fits 64 bits.
pub open spec fn price_defined(store: Store, env: Env) -> bool {
    &&& ratio_defined(store, env)
    &&& spec_raw_price(store, env) <= u64::MAX
}

/// The price is never below its floor, whatever the debt ratio, and never
/// below 100 where the debt ratio is not negative.
pub proof fn lemma_price_at_least_floor(control_variable: int, ratio: int, minimum: int)
    ensures
        floored(raw_price_of(control_variable, ratio), minimum) >= minimum,
        0 <= control_variable && 0 <= ratio ==> floored(
            raw_price_of(control_variable, ratio),
            minimum,
        ) >= 100,
{
    if 0 <= control_variable && 0 <= ratio {
        assert(control_variable * ratio >= 0) by (nonlinear_arith)
            requires
                0 <= control_variable,
                0 <= ratio,
        ;
    }
}

/// The bond price is never below the minimum price of the terms, whatever
/// the debt, the supply and the tick.
pub proof fn lemma_bond_price_at_least_minimum(store: Store, env: Env)
    ensures
        spec_bond_price(store, env) >= store.terms.minimum_price,
{
}

/// The current debt ratio: the current debt times 10^9 over the token supply.
pub fn debt_ratio(store: &Store, env: &Env) -> (ratio: u64)
    requires
        ratio_defined(*store, *env),
    ensures
        ratio == spec_debt_ratio(*store, *env),
{
    let debt: u64 = current_debt(store, env);
    let ratio: u128 = (debt as u128) * 1_000_000_000u128 / (env.total_supply as u128);
    ratio as u64
}

/// The current price before the floor is applied: the control variable
/// times the debt ratio, plus 10^9, over 10^7.
fn raw_price(store: &Store, env: &Env) -> (raw: u64)
    requires
        price_defined(*store, *env),
    ensures
        raw == spec_raw_price(*store, *env),
        raw >= 100,
{
    let ratio: u64 = debt_ratio(store, env);
    let control_variable: u64 = store.terms.control_variable;
    let raw: u128 = (wide_product(control_variable, ratio) + 1_000_000_000u128) / 10_000_000u128;
    raw as u64
}

/// The current bond price: it rises with the debt ratio, by the control
/// variable, and never falls below the minimum price.
pub fn bond_price(store: &Store, env: &Env) -> (price: u64)
    requires
        price_defined(*store, *env),
    ensures
        price == spec_bond_price(*store, *env),
        price >= store.terms.minimum_price,
        price >= 100,
{
    let raw: u64 = raw_price(store, env);
    if raw < store.terms.minimum_price {
        store.terms.minimum_price
    } else {
        raw
    }
}

/// Whether the price can be computed and fits 64 bits.
pub fn price_is_defined(store: &Store, env: &Env) -> (ok: bool)
    ensures
        ok == price_defined(*store, *env),
{
    if store.state.last_decay > env.height || env.total_supply == 0 {
        return false;
    }
    let debt: u64 = current_debt(store, env);
    let ratio: u128 = (debt as u128) * 1_000_000_000u128 / (env.total_supply as u128);
    if ratio > u64::MAX as u128 {
        return false;
    }
    let control_variable: u64 = store.terms.control_variable;
    let raw: u128 = (wide_product(control_variable, ratio as u64) + 1_000_000_000u128)
        / 10_000_000u128;
    raw <= u64::MAX as u128
}

/// The floor that a pricing inside a deposit leaves behind: where the raw
/// price is not below a floor other than 0, the floor becomes 500.
pub open spec fn floor_after_pricing(raw: int, minimum: u64) -> u64 {
    if raw >= minimum && minimum != 0 {
        500
    } else {
        minimum
    }
}

/// The terms that a pricing inside a deposit leaves behind.
pub open spec fn terms_after_pricing(store: Store, env: Env) -> Terms {
    Terms {
        minimum_price: floor_after_pricing(spec_raw_price(store, env), store.terms.minimum_price),
        ..store.terms
    }
}

/// The current bond price, as `bond_price` gives it, with the side effect
/// that a deposit's pricing has on the floor: see `floor_after_pricing`.
pub fn bond_price_resetting_floor(store: &mut Store, env: &Env) -> (price: u64)
    requires
        price_defined(*old(store), *env),
    ensures
        price == spec_bond_price(*old(store), *env),
        *final(store) == (Store { terms: terms_after_pricing(*old(store), *env), ..*old(store) }),
{
    let raw: u64 = raw_price(store, env);
    if raw < store.terms.minimum_price {
        store.terms.minimum_price
    } else {
        if store.terms.minimum_price != 0 {
            store.terms.minimum_price = 500;
        }
        raw
    }
}

/// The current bond price in the reference currency.
pub fn bond_price_in_usd(store: &Store, env: &Env) -> (price: u64)
    requires
        price_defined(*store, *env),
        spec_bond_price_in_usd(*store, *env) <= u64::MAX,
    ensures
        price == spec_bond_price_in_usd(*store, *env),
        price == spec_bond_price(*store, *env) * 10_000,
{
    let price: u64 = bond_price(store, env);
    let scaled: u128 = (price as u128) * 1_000_000u128 / 100u128;
    scaled as u64
}

/// The largest payout of one bond: `percent` percent of `supply`.
pub open spec fn max_payout_of(supply: int, percent: int) -> int {
    supply * percent / 100
}

/// The largest payout of one bond: `max_pay` percent of the token supply.
pub fn max_payout(env: &Env, max_pay: u64) -> (cap: u64)
    requires
        max_payout_of(env.total_supply as int, max_pay as int) <= u64::MAX,
    ensures
        cap == max_payout_of(env.total_supply as int, max_pay as int),
{
    let cap: u128 = wide_product(env.total_supply, max_pay) / 100u128;
    cap as u64
}

/// What `value` buys at `price`, before it is scaled to the token's unit.
pub open spec fn payout_for_value(value: int, price: int) -> int {
    value / price
}

/// What `value` buys at the current bond price.
pub fn payout_for(store: &Store, env: &Env, value: u64) -> (payout: u64)
    requires
        price_defined(*store, *env),
    ensures
        payout == payout_for_value(value as int, spec_bond_price(*store, *env)),
{
    value / bond_price(store, env)
}

// ---------------------------------------------------------------------
// Adjustment controller
// ---------------------------------------------------------------------

/// Whether the adjustment takes a step at tick `now`: one was set, it is
/// not switched off, and `buffer` ticks have passed since the last step.
pub open spec fn adjustment_fires(adjust: Adjust, now: int) -> bool {
    &&& adjust.last_block != 0
    &&& adjust.rate != 0
    &&& now >= adjust.last_block + adjust.buffer
}

/// The control variable after one step: moved by `target`, up or down.
pub open spec fn stepped_control_variable(terms: Terms, adjust: Adjust) -> int {
    if adjust.add {
        terms.control_variable + adjust.target
    } else {
        terms.control_variable - adjust.target
    }
}

/// Whether a step ends the adjustment: the control variable has passed
/// `target`, going up or going down.
pub open spec fn step_completes(terms: Terms, adjust: Adjust) -> bool {
    if adjust.add {
        stepped_control_variable(terms, adjust) >= adjust.target
    } else {
        stepped_control_variable(terms, adjust) <= adjust.target
    }
}

/// A step, where one is due, leaves the control variable within 64 bits.
pub open spec fn adjust_in_range(terms: Terms, adjust: Adjust, now: int) -> bool {
    adjustment_fires(adjust, now) ==> 0 <= stepped_control_variable(terms, adjust) <= u64::MAX
}

/// The terms after the adjustment controller has run at tick `now`.
pub open spec fn adjusted_terms(terms: Terms, adjust: Adjust, now: int) -> Terms {
    if adjustment_fires(adjust, now) {
        Terms { control_variable: stepped_control_variable(terms, adjust) as u64, ..terms }
    } else {
        terms
    }
}

/// The adjustment after the controller has run at tick `now`.
pub open spec fn adjusted_adjust(terms: Terms, adjust: Adjust, now: int) -> Adjust {
    if adjustment_fires(adjust, now) {
        Adjust {
            rate: if step_completes(terms, adjust) {
                0
            } else {
                adjust.rate
            },
            last_block: now as u64,
            ..adjust
        }
    } else {
        adjust
    }
}

/// Runs the adjustment controller: where a step is due, the control
/// variable moves by `target`, the adjustment is switched off once the
/// control variable has passed `target`, and the tick is recorded.
pub fn adjust(store: &mut Store, env: &Env)
    requires
        adjust_in_range(old(store).terms, old(store).adjust, env.height as int),
    ensures
        *final(store) == (Store {
            terms: adjusted_terms(old(store).terms, old(store).adjust, env.height as int),
            adjust: adjusted_adjust(old(store).terms, old(store).adjust, env.height as int),
            ..*old(store)
        }),
{
    if store.adjust.last_block != 0 {
        let block_can_adjust: u128 = store.adjust.last_block as u128 + store.adjust.buffer as u128;
        if store.adjust.rate != 0 && env.height as u128 >= block_can_adjust {
            let initial: u64 = store.terms.control_variable;
            if store.adjust.add {
                store.terms.control_variable = initial + store.adjust.target;
                if store.terms.control_variable >= store.adjust.target {
                    store.adjust.rate = 0;
                }
            } else {
                store.terms.control_variable = initial - store.adjust.target;
                if store.terms.control_variable <= store.adjust.target {
                    store.adjust.rate = 0;
                }
            }
            store.adjust.last_block = env.height;
        }
    }
}

/// Whether a step of the adjustment, where one is due, leaves the control
/// variable within 64 bits.
pub fn adjust_is_in_range(store: &Store, env: &Env) -> (ok: bool)
    ensures
        ok == adjust_in_range(store.terms, store.adjust, env.height as int),
{
    if store.adjust.last_block == 0 || store.adjust.rate == 0 {
        return true;
    }
    let block_can_adjust: u128 = store.adjust.last_block as u128 + store.adjust.buffer as u128;
    if (env.height as u128) < block_can_adjust {
        return true;
    }
    if store.adjust.add {
        store.terms.control_variable as u128 + store.adjust.target as u128 <= u64::MAX as u128
    } else {
        store.terms.control_variable >= store.adjust.target
    }
}

} // verus!
