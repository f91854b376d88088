use vstd::prelude::*;
use crate::bond::msg::{ExecuteMsg, InstantiateMsg, QueryMsg, QueryResponse, Request, Response};
use crate::bond::pricing::{
    adjust, adjust_in_range, adjust_is_in_range, adjusted_adjust, adjusted_terms, bond_price,
    bond_price_in_usd, bond_price_resetting_floor, current_debt, decay_debt, max_payout, max_payout_of, payout_for, price_defined, price_is_defined, spec_bond_price,
    spec_bond_price_in_usd, spec_current_debt, terms_after_pricing,
};
use crate::bond::state::{Adjust, Bond, State, Store, Terms};
use crate::chain::{amount_sent, attr, sent, Coin, Env, MessageInfo};
use crate::error::ContractError;
use crate::math::wide_product;

verus! {

/// The response asks and reports nothing.
pub open spec fn quiet(response: Response) -> bool {
    response.messages@.len() == 0 && response.attributes@.len() == 0
}

// ---------------------------------------------------------------------
// Set-up and governance
// ---------------------------------------------------------------------

/// The store of a contract that was just set up by `msg`: no debt, the
/// clock at 0, no terms, no adjustment, no position.
pub open spec fn is_fresh(store: Store, msg: InstantiateMsg) -> bool {
    &&& store.state.treasury == msg.treasury
    &&& store.state.dao == msg.dao
    &&& store.state.staking == msg.staking
    &&& store.state.total_debt == 0
    &&& store.state.last_decay == 0
    &&& store.terms == Terms::spec_zero()
    &&& store.adjust == Adjust::spec_unset()
    &&& store.bond is None
}

/// Sets the contract up with the addresses that `msg` names, and reports
/// who did so. The debt and the clock start at 0, whatever `msg` says of
/// them. Who the admin is, the caller keeps: an operation learns from
/// `MessageInfo::is_admin` whether the admin is calling.
pub fn instantiate(env: &Env, info: &MessageInfo, msg: InstantiateMsg) -> (res: Result<
    (Store, Response),
    ContractError,
>)
    ensures
        res matches Ok((store, response)) && {
            &&& is_fresh(store, msg)
            &&& store.wf()
            &&& response.messages@.len() == 0
            &&& response.attributes@.len() == 2
            &&& response.attributes@[0].key@ == "method"@
            &&& response.attributes@[0].value@ == "instantiate"@
            &&& response.attributes@[1].key@ == "owner"@
            &&& response.attributes@[1].value@ == info.sender@
        },
{
    let store = Store {
        state: State {
            treasury: msg.treasury,
            dao: msg.dao,
            staking: msg.staking,
            total_debt: 0,
            last_decay: 0,
        },
        terms: Terms::zero(),
        adjust: Adjust::unset(),
        bond: None,
    };
    let mut response = Response::new();
    response.attributes.push(attr("method", "instantiate"));
    response.attributes.push(attr("owner", info.sender.as_str()));
    Ok((store, response))
}

/// Passes for the admin, and for nobody else.
pub fn only_admin(info: &MessageInfo) -> (res: Result<(), ContractError>)
    ensures
        info.is_admin ==> res == Ok::<(), ContractError>(()),
        !info.is_admin ==> res == Err::<(), ContractError>(ContractError::Unauthorized),
{
    if info.is_admin {
        Ok(())
    } else {
        Err(ContractError::Unauthorized)
    }
}

/// The largest rate that `set_adjustment` accepts: 2.5% of the control
/// variable.
pub open spec fn largest_increment(control_variable: int) -> int {
    control_variable * 25 / 1000
}

/// What `set_adjustment` does: nothing but refuse, for anybody but the
/// admin, and for a rate above 2.5% of the control variable; otherwise the
/// adjustment is replaced, with the current tick as that of its last step.
pub open spec fn set_adjustment_outcome(
    pre: Store,
    info: MessageInfo,
    env: Env,
    addition: bool,
    increment: u64,
    target: u64,
    buffer: u64,
    post: Store,
    res: Result<Response, ContractError>,
) -> bool {
    if !info.is_admin {
        res == Err::<Response, ContractError>(ContractError::Unauthorized) && post == pre
    } else if increment > largest_increment(pre.terms.control_variable as int) {
        res == Err::<Response, ContractError>(ContractError::LargeIncrement) && post == pre
    } else {
        &&& res matches Ok(response)
        &&& quiet(response)
        &&& post == (Store {
            adjust: Adjust { add: addition, rate: increment, target, buffer, last_block: env.height },
            ..pre
        })
    }
}

/// Sets the adjustment, for the admin only, and only with a rate of at
/// most 2.5% of the control variable.
pub fn set_adjustment(
    store: &mut Store,
    info: &MessageInfo,
    env: &Env,
    addition: bool,
    increment: u64,
    target: u64,
    buffer: u64,
) -> (res: Result<Response, ContractError>)
    ensures
        set_adjustment_outcome(
            *old(store),
            *info,
            *env,
            addition,
            increment,
            target,
            buffer,
            *final(store),
            res,
        ),
{
    match only_admin(info) {
        Err(e) => {
            return Err(e);
        },
        Ok(_) => {},
    }
    let compare: u128 = store.terms.control_variable as u128 * 25u128 / 1000u128;
    if increment as u128 > compare {
        return Err(ContractError::LargeIncrement);
    }
    store.adjust = Adjust { add: addition, rate: increment, target, buffer, last_block: env.height };
    Ok(Response::new())
}

/// What `set_staking` does: nothing but refuse, for anybody but the admin;
/// otherwise the staking contract is replaced.
pub open spec fn set_staking_outcome(
    pre: Store,
    info: MessageInfo,
    staking: String,
    post: Store,
    res: Result<Response, ContractError>,
) -> bool {
    if !info.is_admin {
        res == Err::<Response, ContractError>(ContractError::Unauthorized) && post == pre
    } else {
        &&& res matches Ok(response)
        &&& quiet(response)
        &&& post == (Store { state: State { staking, ..pre.state }, ..pre })
    }
}

/// Names the staking contract, for the admin only.
pub fn set_staking(store: &mut Store, info: &MessageInfo, staking: String) -> (res: Result<
    Response,
    ContractError,
>)
    ensures
        set_staking_outcome(*old(store), *info, staking, *final(store), res),
{
    match only_admin(info) {
        Err(e) => {
            return Err(e);
        },
        Ok(_) => {},
    }
    store.state.staking = staking;
    Ok(Response::new())
}

/// What `initialize_bond_terms` does: nothing but refuse, for anybody but
/// the admin; otherwise the terms are replaced, the debt is set, and the
/// decay clock starts at the current tick.
pub open spec fn initialize_bond_terms_outcome(
    pre: Store,
    env: Env,
    info: MessageInfo,
    terms: Terms,
    initial_debt: u64,
    post: Store,
    res: Result<Response, ContractError>,
) -> bool {
    if !info.is_admin {
        res == Err::<Response, ContractError>(ContractError::Unauthorized) && post == pre
    } else {
        &&& res matches Ok(response)
        &&& quiet(response)
        &&& post == (Store {
            state: State { total_debt: initial_debt, last_decay: env.height, ..pre.state },
            terms,
            ..pre
        })
    }
}

/// Sets the terms, the outstanding debt and the decay clock, for the admin
/// only.
pub fn initialize_bond_terms(
    store: &mut Store,
    env: &Env,
    info: &MessageInfo,
    control_variable: u64,
    vesting_term: u64,
    minimum_price: u64,
    max_payout: u64,
    fee: u64,
    max_debt: u64,
    initial_debt: u64,
) -> (res: Result<Response, ContractError>)
    ensures
        initialize_bond_terms_outcome(
            *old(store),
            *env,
            *info,
            Terms { control_variable, vesting_term, minimum_price, max_payout, fee, max_debt },
            initial_debt,
            *final(store),
            res,
        ),
{
    match only_admin(info) {
        Err(e) => {
            return Err(e);
        },
        Ok(_) => {},
    }
    store.terms = Terms { control_variable, vesting_term, minimum_price, max_payout, fee, max_debt };
    store.state.total_debt = initial_debt;
    store.state.last_decay = env.height;
    Ok(Response::new())
}

// ---------------------------------------------------------------------
// Bond issuance
// ---------------------------------------------------------------------

/// The value of a deposit of `amount`, in the unit of the debt.
pub open spec fn value_of(amount: nat) -> int {
    (amount * 1000) as int
}

/// The payout of a bond of `value` bought at `price`.
pub open spec fn payout_of(value: int, price: int) -> int {
    value / price * 100
}

/// The fee on `payout` at `rate` parts per 100000.
pub open spec fn fee_of(payout: int, rate: int) -> int {
    payout * rate / 100000
}

/// The payout of a deposit of `amount` at the current price.
pub open spec fn deposit_payout(store: Store, env: Env, amount: nat) -> int {
    payout_of(value_of(amount), spec_bond_price(store, env))
}

/// What the treasury keeps of a deposit of `amount`: its value, less the
/// payout and the fee.
pub open spec fn deposit_profit(store: Store, env: Env, amount: nat) -> int {
    value_of(amount) - deposit_payout(store, env, amount) - fee_of(
        deposit_payout(store, env, amount),
        store.terms.fee as int,
    )
}

/// Why a deposit of `amount` with the ceiling `max_price` is rejected, if
/// it is: the first of the four checks that fails, in their order.
pub open spec fn deposit_rejection(store: Store, env: Env, amount: nat, max_price: u64) -> Option<
    ContractError,
> {
    if spec_current_debt(store, env) >= store.terms.max_debt {
        Some(ContractError::MaxCapacity)
    } else if max_price <= spec_bond_price(store, env) {
        Some(ContractError::SlippageLimit)
    } else if deposit_payout(store, env, amount) <= 10_000_000 {
        Some(ContractError::SmallBond)
    } else if deposit_payout(store, env, amount) >= max_payout_of(
        env.total_supply as int,
        store.terms.max_payout as int,
    ) {
        Some(ContractError::LargeBond)
    } else {
        None
    }
}

/// The store after a deposit of `amount` that is accepted: the value has
/// joined the decayed debt, the clock stands at the current tick, the
/// payout has joined the position, which vests anew over the whole term at
/// the price paid, and the pricing and the adjustment controller have left
/// their marks on the terms.
pub open spec fn store_after_deposit(store: Store, env: Env, amount: nat) -> Store {
    let terms = terms_after_pricing(store, env);
    Store {
        state: State {
            total_debt: (spec_current_debt(store, env) + value_of(amount)) as u64,
            last_decay: env.height,
            ..store.state
        },
        terms: adjusted_terms(terms, store.adjust, env.height as int),
        adjust: adjusted_adjust(terms, store.adjust, env.height as int),
        bond: Some(
            Bond {
                payout: (store.position().payout + deposit_payout(store, env, amount)) as u64,
                vesting: store.terms.vesting_term,
                last_block: env.height,
                price_paid: spec_bond_price_in_usd(store, env) as u64,
            },
        ),
    }
}

/// Every amount that the deposit works out, as far as it gets, fits 64
/// bits and is not negative: the price, where the debt is under its
/// ceiling; the value, where the price is under the caller's ceiling; the
/// cap, where the payout is large enough; and where the deposit is
/// accepted, the profit, the new debt, the new position, the price paid and
/// the control variable after its adjustment. The clock has not gone back.
pub open spec fn deposit_in_range(store: Store, env: Env, amount: nat, max_price: u64) -> bool {
    let rejection = deposit_rejection(store, env, amount, max_price);
    &&& store.state.last_decay <= env.height
    &&& rejection != Some(ContractError::MaxCapacity) ==> price_defined(store, env)
    &&& rejection != Some(ContractError::MaxCapacity) && rejection != Some(
        ContractError::SlippageLimit,
    ) ==> value_of(amount) <= u64::MAX
    &&& rejection is None || rejection == Some(ContractError::LargeBond) ==> max_payout_of(
        env.total_supply as int,
        store.terms.max_payout as int,
    ) <= u64::MAX
    &&& rejection is None ==> {
        &&& 0 <= deposit_profit(store, env, amount)
        &&& spec_current_debt(store, env) + value_of(amount) <= u64::MAX
        &&& store.position().payout + deposit_payout(store, env, amount) <= u64::MAX
        &&& spec_bond_price_in_usd(store, env) <= u64::MAX
        &&& adjust_in_range(store.terms, store.adjust, env.height as int)
    }
}

/// The request that an accepted deposit of `amount` makes of the treasury:
/// to take the value into its reserves and keep the profit, with the
/// `uusd` that came with the deposit.
pub open spec fn is_reserve_deposit(request: Request, store: Store, env: Env, amount: nat) -> bool {
    &&& request matches Request::ReserveDeposit { treasury, funds, amount: value, profit }
    &&& treasury == store.state.treasury
    &&& funds.denom@ == "uusd"@
    &&& funds.amount == amount
    &&& value == value_of(amount)
    &&& profit == deposit_profit(store, env, amount)
}

/// What `deposit` does with the `uusd` that came with the call: it is
/// rejected, with nothing changed, for the reason that `deposit_rejection`
/// gives; where there is none, the store is that of `store_after_deposit`,
/// and the one request is that of `is_reserve_deposit`.
pub open spec fn deposit_outcome(
    pre: Store,
    env: Env,
    info: MessageInfo,
    max_price: u64,
    post: Store,
    res: Result<Response, ContractError>,
) -> bool {
    let amount = sent(info.funds@, "uusd"@);
    match deposit_rejection(pre, env, amount, max_price) {
        Some(e) => res == Err::<Response, ContractError>(e) && post == pre,
        None => {
            &&& res matches Ok(response)
            &&& post == store_after_deposit(pre, env, amount)
            &&& response.attributes@.len() == 0
            &&& response.messages@.len() == 1
            &&& is_reserve_deposit(response.messages@[0], pre, env, amount)
        },
    }
}

/// The position, with an absent one read as zero.
pub fn bond_info(store: &Store) -> (bond: Bond)
    ensures
        bond == store.position(),
{
    match store.bond {
        Some(bond) => bond,
        None => Bond::zero(),
    }
}

/// A payout is never more than the value that buys it, at a price of 100
/// or more.
proof fn lemma_payout_at_most_value(value: int, price: int)
    requires
        0 <= value,
        100 <= price,
    ensures
        0 <= payout_of(value, price) <= value,
{
    assert(0 <= value / price && (value / price) * 100 <= value) by (nonlinear_arith)
        requires
            0 <= value,
            100 <= price,
    ;
}

/// Sells a bond for the `uusd` that came with the call.
///
/// The decay that is due is applied and the bond is priced. The deposit is
/// rejected, and nothing changes, where the debt has reached its ceiling,
/// where the price is not below `max_price`, where the payout is not above
/// 10000000, or where it is not below the cap on one bond: whichever comes
/// first, in this order. Otherwise the value of the deposit joins the debt,
/// the payout joins the caller's position, which starts to vest anew, the
/// adjustment controller runs, and the treasury is asked to take the
/// deposit.
pub fn deposit(store: &mut Store, env: &Env, info: &MessageInfo, max_price: u64) -> (res: Result<
    Response,
    ContractError,
>)
    requires
        deposit_in_range(*old(store), *env, sent(info.funds@, "uusd"@), max_price),
    ensures
        deposit_outcome(*old(store), *env, *info, max_price, *final(store), res),
        old(store).wf() ==> final(store).wf(),
{
    let debt: u64 = current_debt(store, env);
    if debt >= store.terms.max_debt {
        return Err(ContractError::MaxCapacity);
    }
    let native_price: u64 = bond_price(store, env);
    if max_price <= native_price {
        return Err(ContractError::SlippageLimit);
    }
    let deposit_amount: u128 = amount_sent(&info.funds, "uusd");
    let value: u64 = (deposit_amount * 1000u128) as u64;
    proof {
        lemma_payout_at_most_value(value as int, native_price as int);
    }
    let payout: u64 = payout_for(store, env, value) * 100;
    if payout <= 10_000_000u64 {
        return Err(ContractError::SmallBond);
    }
    let max_payout: u64 = max_payout(env, store.terms.max_payout);
    if payout >= max_payout {
        return Err(ContractError::LargeBond);
    }
    let fee: u64 = (wide_product(payout, store.terms.fee) / 100000u128) as u64;
    let profit: u64 = value - payout - fee;
    let price_in_usd: u64 = bond_price_in_usd(store, env);
    let position: Bond = bond_info(store);

    let _ = bond_price_resetting_floor(store, env);
    decay_debt(store, env);
    store.state.total_debt = store.state.total_debt + value;
    store.bond = Some(
        Bond {
            payout: position.payout + payout,
            vesting: store.terms.vesting_term,
            last_block: env.height,
            price_paid: price_in_usd,
        },
    );
    adjust(store, env);

    let coin = Coin { denom: "uusd".to_owned(), amount: deposit_amount };
    let mut response = Response::new();
    response.messages.push(
        Request::ReserveDeposit {
            treasury: store.state.treasury.clone(),
            funds: coin,
            amount: value,
            profit,
        },
    );
    Ok(response)
}

/// Whether `deposit` can work out, within 64 bits, every amount that it
/// gets to: what a caller tests before it calls `deposit`.
pub fn deposit_is_in_range(store: &Store, env: &Env, info: &MessageInfo, max_price: u64) -> (ok:
    bool)
    ensures
        ok == deposit_in_range(*store, *env, sent(info.funds@, "uusd"@), max_price),
{
    if store.state.last_decay > env.height {
        return false;
    }
    let debt: u64 = current_debt(store, env);
    if debt >= store.terms.max_debt {
        return true;
    }
    if !price_is_defined(store, env) {
        return false;
    }
    let native_price: u64 = bond_price(store, env);
    if max_price <= native_price {
        return true;
    }
    let deposit_amount: u128 = amount_sent(&info.funds, "uusd");
    if deposit_amount > (u64::MAX / 1000) as u128 {
        return false;
    }
    let value: u64 = (deposit_amount * 1000u128) as u64;
    proof {
        lemma_payout_at_most_value(value as int, native_price as int);
    }
    let payout: u64 = value / native_price * 100;
    if payout <= 10_000_000u64 {
        return true;
    }
    let cap: u128 = wide_product(env.total_supply, store.terms.max_payout) / 100u128;
    if cap > u64::MAX as u128 {
        return false;
    }
    if payout as u128 >= cap {
        return true;
    }
    let fee: u128 = wide_product(payout, store.terms.fee) / 100000u128;
    let position: Bond = bond_info(store);
    payout as u128 + fee <= value as u128 && debt as u128 + value as u128 <= u64::MAX as u128
        && position.payout as u128 + payout as u128 <= u64::MAX as u128 && native_price as u128
        * 10_000u128 <= u64::MAX as u128 && adjust_is_in_range(store, env)
}

// ---------------------------------------------------------------------
// Redemption
// ---------------------------------------------------------------------

/// How much of a position has vested at tick `now`, in hundredths of a
/// percent: 10000 is all of it. It is not capped.
pub open spec fn percent_vested(bond: Bond, now: int) -> int {
    (now - bond.last_block) * 10000 / (bond.vesting as int)
}

/// What a position pays out at tick `now`: all that is owed once it has
/// fully vested, and before that the vested share of it.
pub open spec fn released(bond: Bond, now: int) -> int {
    if percent_vested(bond, now) >= 10000 {
        bond.payout as int
    } else {
        bond.payout * percent_vested(bond, now) / 10000
    }
}

/// What is left of a position that is redeemed at tick `now`: nothing once
/// it has fully vested; before that, what was not released, vesting over
/// the ticks that remain.
pub open spec fn position_after_redeem(bond: Bond, now: int) -> Option<Bond> {
    if percent_vested(bond, now) >= 10000 {
        None
    } else {
        Some(
            Bond {
                payout: (bond.payout - released(bond, now)) as u64,
                vesting: (bond.vesting - (now - bond.last_block)) as u64,
                last_block: now as u64,
                price_paid: bond.price_paid,
            },
        )
    }
}

/// The position can be redeemed at the current tick: it vests over at
/// least one tick, and the clock has not gone back.
pub open spec fn redeemable(store: Store, env: Env) -> bool {
    &&& store.position().vesting != 0
    &&& store.position().last_block <= env.height
}

/// Whether the position can be redeemed at the current tick: what a caller
/// tests before it calls `redeem`, `pending_payout` or `percent_vested_for`.
pub fn is_redeemable(store: &Store, env: &Env) -> (ok: bool)
    ensures
        ok == redeemable(*store, *env),
{
    let bond: Bond = bond_info(store);
    bond.vesting != 0 && bond.last_block <= env.height
}

/// A redemption before full vesting releases exactly the vested share,
/// `payout * percent_vested / 10000`, and leaves what was owed less what
/// was released. That is less than a position that owes something, and
/// fewer ticks have passed than the position vests over.
pub proof fn lemma_partial_redemption(bond: Bond, now: int)
    requires
        bond.vesting != 0,
        bond.last_block <= now,
        percent_vested(bond, now) < 10000,
    ensures
        0 <= percent_vested(bond, now),
        now - bond.last_block < bond.vesting,
        released(bond, now) == bond.payout * percent_vested(bond, now) / 10000,
        0 <= released(bond, now) <= bond.payout,
        bond.payout > 0 ==> released(bond, now) < bond.payout,
        position_after_redeem(bond, now) matches Some(left) && left.payout == bond.payout
            - released(bond, now),
{
    let elapsed = now - bond.last_block;
    let vesting = bond.vesting as int;
    let percent = percent_vested(bond, now);
    let payout = bond.payout as int;
    assert(0 <= percent && (percent < 10000 ==> elapsed < vesting)) by (nonlinear_arith)
        requires
            0 <= elapsed,
            0 < vesting,
            percent == elapsed * 10000 / vesting,
    ;
    assert(0 <= payout * percent / 10000 <= payout && (payout > 0 ==> payout * percent / 10000
        < payout)) by (nonlinear_arith)
        requires
            0 <= payout,
            0 <= percent < 10000,
    ;
}

/// A redemption at or after full vesting releases all that is owed and
/// leaves no position.
pub proof fn lemma_full_redemption(bond: Bond, now: int)
    requires
        percent_vested(bond, now) >= 10000,
    ensures
        released(bond, now) == bond.payout,
        position_after_redeem(bond, now) is None,
{
}

/// How much of `bond` has vested at the current tick, in hundredths of a
/// percent, in 128 bits, which it always fits.
fn vested(bond: &Bond, env: &Env) -> (percent: u128)
    requires
        bond.vesting != 0,
        bond.last_block <= env.height,
    ensures
        percent == percent_vested(*bond, env.height as int),
{
    let blocks_since_last: u64 = env.height - bond.last_block;
    wide_product(blocks_since_last, 10000) / (bond.vesting as u128)
}

/// Whether how much of the position has vested can be told in 64 bits:
/// what a caller tests before it calls `percent_vested_for`.
pub fn percent_vested_is_in_range(store: &Store, env: &Env) -> (ok: bool)
    ensures
        ok == (redeemable(*store, *env) && percent_vested(store.position(), env.height as int)
            <= u64::MAX),
{
    if is_redeemable(store, env) {
        let bond: Bond = bond_info(store);
        vested(&bond, env) <= u64::MAX as u128
    } else {
        false
    }
}

/// How much of the position has vested, in hundredths of a percent.
pub fn percent_vested_for(store: &Store, env: &Env) -> (percent: u64)
    requires
        redeemable(*store, *env),
        percent_vested(store.position(), env.height as int) <= u64::MAX,
    ensures
        percent == percent_vested(store.position(), env.height as int),
{
    let bond: Bond = bond_info(store);
    vested(&bond, env) as u64
}

/// What a redemption at the current tick would release.
pub fn pending_payout(store: &Store, env: &Env) -> (payout: u64)
    requires
        redeemable(*store, *env),
    ensures
        payout == released(store.position(), env.height as int),
{
    let bond: Bond = bond_info(store);
    let percent_vested: u128 = vested(&bond, env);
    if percent_vested >= 10000u128 {
        bond.payout
    } else {
        proof {
            lemma_partial_redemption(bond, env.height as int);
        }
        (wide_product(bond.payout, percent_vested as u64) / 10000u128) as u64
    }
}

/// The request that pays `amount` out to `recipient`: staked with the
/// staking contract for the caller where `stake` is set, transferred by
/// the treasury where not.
pub open spec fn is_payout(
    request: Request,
    sender: String,
    staking_address: String,
    treasury_address: String,
    recipient: String,
    stake: bool,
    amount: u64,
) -> bool {
    if stake {
        request == (Request::Stake {
            staking: staking_address,
            owner: sender,
            recipient: staking_address,
            amount,
        })
    } else {
        request == (Request::Transfer { treasury: treasury_address, recipient, amount })
    }
}

/// Asks for `payout` to be paid out to `recipient`: by the staking
/// contract where `stake` is set, by the treasury where not.
pub fn stake_or_send(
    info: &MessageInfo,
    staking_address: String,
    treasury_address: String,
    recipient: String,
    stake: bool,
    payout: u64,
) -> (res: Result<Response, ContractError>)
    ensures
        res matches Ok(response) && response.attributes@.len() == 0 && response.messages@.len()
            == 1 && is_payout(
            response.messages@[0],
            info.sender,
            staking_address,
            treasury_address,
            recipient,
            stake,
            payout,
        ),
{
    let mut response = Response::new();
    if stake {
        response.messages.push(
            Request::Stake {
                staking: staking_address.clone(),
                owner: info.sender.clone(),
                recipient: staking_address,
                amount: payout,
            },
        );
    } else {
        response.messages.push(
            Request::Transfer { treasury: treasury_address, recipient, amount: payout },
        );
    }
    Ok(response)
}

/// What `redeem` does: what has vested of the position is released and
/// paid out to the caller as `stake` says, and the position is left as
/// `position_after_redeem` says.
pub open spec fn redeem_outcome(
    pre: Store,
    env: Env,
    info: MessageInfo,
    stake: bool,
    post: Store,
    res: Result<Response, ContractError>,
) -> bool {
    &&& res matches Ok(response)
    &&& response.attributes@.len() == 0
    &&& response.messages@.len() == 1
    &&& is_payout(
        response.messages@[0],
        info.sender,
        pre.state.staking,
        pre.state.treasury,
        info.sender,
        stake,
        released(pre.position(), env.height as int) as u64,
    )
    &&& 0 <= released(pre.position(), env.height as int) <= pre.position().payout
    &&& post == (Store { bond: position_after_redeem(pre.position(), env.height as int), ..pre })
}

/// Redeems what has vested of the caller's position.
///
/// Once the position has fully vested, all that is owed is released and
/// the position is removed. Before that, the vested share is released, and
/// the rest stays, vesting over the ticks that remain. What is released is
/// paid out as `stake` says.
pub fn redeem(store: &mut Store, env: &Env, info: &MessageInfo, stake: bool) -> (res: Result<
    Response,
    ContractError,
>)
    requires
        redeemable(*old(store), *env),
    ensures
        redeem_outcome(*old(store), *env, *info, stake, *final(store), res),
        old(store).wf() ==> final(store).wf(),
{
    let treasury_address: String = store.state.treasury.clone();
    let staking_address: String = store.state.staking.clone();
    let recipient: String = info.sender.clone();
    let bond: Bond = bond_info(store);
    let percent_vested: u128 = vested(&bond, env);
    if percent_vested >= 10000u128 {
        store.bond = None;
        stake_or_send(info, staking_address, treasury_address, recipient, stake, bond.payout)
    } else {
        proof {
            lemma_partial_redemption(bond, env.height as int);
        }
        let payout: u64 = (wide_product(bond.payout, percent_vested as u64) / 10000u128) as u64;
        store.bond = Some(
            Bond {
                payout: bond.payout - payout,
                vesting: bond.vesting - (env.height - bond.last_block),
                last_block: env.height,
                price_paid: bond.price_paid,
            },
        );
        stake_or_send(info, staking_address, treasury_address, recipient, stake, payout)
    }
}

// ---------------------------------------------------------------------
// Rejections
// ---------------------------------------------------------------------

/// A deposit whose payout is not above 10000000 is rejected as a small
/// bond, with nothing changed, unless the debt ceiling or the caller's
/// price ceiling rejects it first.
pub proof fn lemma_small_bond_rejected(
    pre: Store,
    env: Env,
    info: MessageInfo,
    max_price: u64,
    post: Store,
    res: Result<Response, ContractError>,
)
    requires
        deposit_outcome(pre, env, info, max_price, post, res),
        spec_current_debt(pre, env) < pre.terms.max_debt,
        spec_bond_price(pre, env) < max_price,
        deposit_payout(pre, env, sent(info.funds@, "uusd"@)) <= 10_000_000,
    ensures
        res == Err::<Response, ContractError>(ContractError::SmallBond),
        post == pre,
{
}

/// A deposit whose price ceiling is not above the price is rejected for
/// slippage, with nothing changed, unless the debt ceiling rejects it
/// first.
pub proof fn lemma_slippage_rejected(
    pre: Store,
    env: Env,
    info: MessageInfo,
    max_price: u64,
    post: Store,
    res: Result<Response, ContractError>,
)
    requires
        deposit_outcome(pre, env, info, max_price, post, res),
        spec_current_debt(pre, env) < pre.terms.max_debt,
        max_price <= spec_bond_price(pre, env),
    ensures
        res == Err::<Response, ContractError>(ContractError::SlippageLimit),
        post == pre,
{
}

// ---------------------------------------------------------------------
// Dispatch
// ---------------------------------------------------------------------

/// The command can be carried out within 64 bits: see `deposit_in_range`
/// and `redeemable`. The other commands always can.
pub open spec fn execute_in_range(store: Store, env: Env, info: MessageInfo, msg: ExecuteMsg) -> bool {
    match msg {
        ExecuteMsg::Deposit { max_price } => deposit_in_range(
            store,
            env,
            sent(info.funds@, "uusd"@),
            max_price,
        ),
        ExecuteMsg::Redeem { stake } => redeemable(store, env),
        _ => true,
    }
}

/// What `execute` does: what the operation does that the command names.
pub open spec fn execute_outcome(
    pre: Store,
    env: Env,
    info: MessageInfo,
    msg: ExecuteMsg,
    post: Store,
    res: Result<Response, ContractError>,
) -> bool {
    match msg {
        ExecuteMsg::Init {
            control_variable,
            vesting_term,
            minimum_price,
            max_payout,
            fee,
            max_debt,
            initial_debt,
        } => initialize_bond_terms_outcome(
            pre,
            env,
            info,
            Terms { control_variable, vesting_term, minimum_price, max_payout, fee, max_debt },
            initial_debt,
            post,
            res,
        ),
        ExecuteMsg::SetStaking { staking } => set_staking_outcome(pre, info, staking, post, res),
        ExecuteMsg::Deposit { max_price } => deposit_outcome(pre, env, info, max_price, post, res),
        ExecuteMsg::SetAdjustment { addition, increment, target, buffer } => set_adjustment_outcome(
            pre,
            info,
            env,
            addition,
            increment,
            target,
            buffer,
            post,
            res,
        ),
        ExecuteMsg::Redeem { stake } => redeem_outcome(pre, env, info, stake, post, res),
    }
}

/// Carries out a command.
pub fn execute(store: &mut Store, env: &Env, info: &MessageInfo, msg: ExecuteMsg) -> (res: Result<
    Response,
    ContractError,
>)
    requires
        execute_in_range(*old(store), *env, *info, msg),
    ensures
        execute_outcome(*old(store), *env, *info, msg, *final(store), res),
        old(store).wf() ==> final(store).wf(),
{
    match msg {
        ExecuteMsg::Init {
            control_variable,
            vesting_term,
            minimum_price,
            max_payout,
            fee,
            max_debt,
            initial_debt,
        } => initialize_bond_terms(
            store,
            env,
            info,
            control_variable,
            vesting_term,
            minimum_price,
            max_payout,
            fee,
            max_debt,
            initial_debt,
        ),
        ExecuteMsg::SetStaking { staking } => set_staking(store, info, staking),
        ExecuteMsg::Deposit { max_price } => deposit(store, env, info, max_price),
        ExecuteMsg::SetAdjustment { addition, increment, target, buffer } => set_adjustment(
            store,
            info,
            env,
            addition,
            increment,
            target,
            buffer,
        ),
        ExecuteMsg::Redeem { stake } => redeem(store, env, info, stake),
    }
}

/// Whether the command can be carried out within 64 bits: what a caller
/// tests before it calls `execute`.
pub fn execute_is_in_range(store: &Store, env: &Env, info: &MessageInfo, msg: &ExecuteMsg) -> (ok:
    bool)
    ensures
        ok == execute_in_range(*store, *env, *info, *msg),
{
    match msg {
        ExecuteMsg::Deposit { max_price } => deposit_is_in_range(store, env, info, *max_price),
        ExecuteMsg::Redeem { stake } => is_redeemable(store, env),
        _ => true,
    }
}

/// The answer can be worked out within 64 bits.
pub open spec fn query_in_range(store: Store, env: Env, msg: QueryMsg) -> bool {
    match msg {
        QueryMsg::BondInfo { address } => true,
        QueryMsg::BondPriceInUsd {  } => price_defined(store, env) && spec_bond_price_in_usd(
            store,
            env,
        ) <= u64::MAX,
        QueryMsg::MaxPayout { address, max_pay } => max_payout_of(
            env.total_supply as int,
            max_pay as int,
        ) <= u64::MAX,
        QueryMsg::PendingPayout { address } => redeemable(store, env),
    }
}

/// The answer to a query, where the store holds the position of the
/// address that the query names.
pub open spec fn spec_query(store: Store, env: Env, msg: QueryMsg) -> QueryResponse {
    match msg {
        QueryMsg::BondInfo { address } => QueryResponse::BondInfo(store.position()),
        QueryMsg::BondPriceInUsd {  } => QueryResponse::BondPriceInUsd(
            spec_bond_price_in_usd(store, env) as u64,
        ),
        QueryMsg::MaxPayout { address, max_pay } => QueryResponse::MaxPayout(
            max_payout_of(env.total_supply as int, max_pay as int) as u64,
        ),
        QueryMsg::PendingPayout { address } => QueryResponse::PendingPayout(
            released(store.position(), env.height as int) as u64,
        ),
    }
}

/// Answers a query. The store holds the position of the address that the
/// query names.
pub fn query(store: &Store, env: &Env, msg: QueryMsg) -> (res: QueryResponse)
    requires
        query_in_range(*store, *env, msg),
    ensures
        res == spec_query(*store, *env, msg),
{
    match msg {
        QueryMsg::BondInfo { address } => QueryResponse::BondInfo(bond_info(store)),
        QueryMsg::BondPriceInUsd {  } => QueryResponse::BondPriceInUsd(
            bond_price_in_usd(store, env),
        ),
        QueryMsg::MaxPayout { address, max_pay } => QueryResponse::MaxPayout(
            max_payout(env, max_pay),
        ),
        QueryMsg::PendingPayout { address } => {
            proof {
                if percent_vested(store.position(), env.height as int) < 10000 {
                    lemma_partial_redemption(store.position(), env.height as int);
                }
            }
            QueryResponse::PendingPayout(pending_payout(store, env))
        },
    }
}

/// Whether the answer can be worked out within 64 bits: what a caller
/// tests before it calls `query`.
pub fn query_is_in_range(store: &Store, env: &Env, msg: &QueryMsg) -> (ok: bool)
    ensures
        ok == query_in_range(*store, *env, *msg),
{
    match msg {
        QueryMsg::BondInfo { address } => true,
        QueryMsg::BondPriceInUsd {  } => {
            if price_is_defined(store, env) {
                bond_price(store, env) as u128 * 10_000u128 <= u64::MAX as u128
            } else {
                false
            }
        },
        QueryMsg::MaxPayout { address, max_pay } => {
            wide_product(env.total_supply, *max_pay) / 100u128 <= u64::MAX as u128
        },
        QueryMsg::PendingPayout { address } => is_redeemable(store, env),
    }
}

} // verus!
