use vstd::prelude::*;
use cosmwasm_bignumber::{Decimal256, Uint256};
use crate::chain::Coin;

verus! {

/// An unsigned number of 256 bits, least significant limb first.
#[derive(Clone, Copy, Debug, PartialEq, Eq)]
pub struct Wide {
    pub limbs: [u64; 4],
}

impl View for Wide {
    type V = nat;

    open spec fn view(&self) -> nat {
        (self.limbs@[0] + self.limbs@[1] * 0x1_0000_0000_0000_0000int + self.limbs@[2]
            * 0x1_0000_0000_0000_0000_0000_0000_0000_0000int + self.limbs@[3]
            * 0x1_0000_0000_0000_0000_0000_0000_0000_0000_0000_0000_0000_0000int) as nat
    }
}

impl Wide {
    /// The number in 128 bits, where it fits.
    pub fn narrow(&self) -> (narrowed: Option<u128>)
        ensures
            narrowed matches Some(n) ==> n == self@,
            narrowed is None <==> self@ > u128::MAX,
    {
        if self.limbs[2] == 0 && self.limbs[3] == 0 {
            Some(self.limbs[0] as u128 + (self.limbs[1] as u128) * 0x1_0000_0000_0000_0000u128)
        } else {
            None
        }
    }
}

/// What the chain charges on a transfer: a rate, in units of 10^-18, and a
/// cap on the tax of one transfer in the coin's currency.
#[derive(Clone, Copy, Debug, PartialEq, Eq, Structural)]
pub struct Tax {
    pub rate: u128,
    pub cap: u128,
}

/// One, as a rate in units of 10^-18.
pub const ONE: u128 = 1_000_000_000_000_000_000;

/// `Uint256 * Decimal256` of the big-number crate, on an amount and a
/// decimal of `rate` units of 10^-18. The crate multiplies the two numbers
/// in 256 bits, where the product of two numbers of 128 bits cannot
/// overflow, and divides by 10^18, rounding down. Believed, not proved.
#[verifier::external_body]
fn times_decimal(amount: u128, rate: u128) -> (product: Wide)
    ensures
        product@ == amount * rate / 1_000_000_000_000_000_000,
{
    let product = Uint256::from(amount) * Decimal256(Uint256::from(rate).0);
    Wide { limbs: (product.0).0 }
}

/// `Decimal256 + Decimal256` of the big-number crate, on decimals of `a`
/// and `b` units of 10^-18. The crate adds the units in 256 bits, where
/// the sum of two numbers of 128 bits cannot overflow. Believed, not
/// proved.
#[verifier::external_body]
fn decimal_sum(a: u128, b: u128) -> (sum: Wide)
    ensures
        sum@ == a + b,
{
    let sum = Decimal256(Uint256::from(a).0) + Decimal256(Uint256::from(b).0);
    Wide { limbs: (sum.0).0 }
}

/// `Uint256 / Decimal256` of the big-number crate, on an amount and a
/// decimal of `divisor` units of 10^-18. The crate refuses a divisor of 0;
/// otherwise it multiplies the amount by 10^18 in 256 bits, where a number
/// of 128 bits times 10^18 cannot overflow, and divides by the units,
/// rounding down. Believed, not proved.
#[verifier::external_body]
fn over_decimal(amount: u128, divisor: Wide) -> (quotient: Wide)
    requires
        divisor@ != 0,
    ensures
        quotient@ == amount * 1_000_000_000_000_000_000 / (divisor@ as int),
{
    let mut decimal = Decimal256::zero();
    (decimal.0).0 = divisor.limbs;
    let quotient = Uint256::from(amount) / decimal;
    Wide { limbs: (quotient.0).0 }
}

/// `Uint256 - Uint256` of the big-number crate. The crate refuses to take
/// the larger from the smaller. Believed, not proved.
#[verifier::external_body]
fn difference(a: Wide, b: Wide) -> (d: Wide)
    requires
        a@ >= b@,
    ensures
        d@ == a@ - b@,
{
    let mut minuend = Uint256::zero();
    (minuend.0).0 = a.limbs;
    let mut subtrahend = Uint256::zero();
    (subtrahend.0).0 = b.limbs;
    let d = minuend - subtrahend;
    Wide { limbs: (d.0).0 }
}

/// The tax on a transfer of `amount`: the rate's share of it, rounded
/// down, but no more than the cap.
pub open spec fn tax_on(tax: Tax, amount: u128) -> int {
    let share = amount * tax.rate / 1_000_000_000_000_000_000;
    if share < tax.cap {
        share
    } else {
        tax.cap as int
    }
}

/// The tax that is part of `amount`, where `amount` is what a transfer
/// costs with its tax: `amount` less what is left of it once it is divided
/// by one plus the rate, rounded down, but no more than the cap.
pub open spec fn tax_within(tax: Tax, amount: u128) -> int {
    let net = amount * 1_000_000_000_000_000_000 / (1_000_000_000_000_000_000 + tax.rate);
    if amount - net < tax.cap {
        amount - net
    } else {
        tax.cap as int
    }
}

/// The tax on a transfer of `coin`.
pub fn compute_tax(tax: &Tax, coin: &Coin) -> (amount: u128)
    ensures
        amount == tax_on(*tax, coin.amount),
        amount <= tax.cap,
{
    let share: Wide = times_decimal(coin.amount, tax.rate);
    match share.narrow() {
        Some(share) => {
            if share < tax.cap {
                share
            } else {
                tax.cap
            }
        },
        None => tax.cap,
    }
}

/// The tax that is part of `coin`, where `coin` is what a transfer costs
/// with its tax.
pub fn compute_deducted_tax(tax: &Tax, coin: &Coin) -> (amount: u128)
    ensures
        amount == tax_within(*tax, coin.amount),
        amount <= tax.cap,
        amount <= coin.amount,
{
    let gross: Wide = times_decimal(coin.amount, ONE);
    let divisor: Wide = decimal_sum(ONE, tax.rate);
    let net: Wide = over_decimal(coin.amount, divisor);
    proof {
        let a = coin.amount as int;
        let d = divisor@ as int;
        assert(a * 1_000_000_000_000_000_000 / 1_000_000_000_000_000_000 == a);
        assert(0 <= a * 1_000_000_000_000_000_000 / d <= a) by (nonlinear_arith)
            requires
                0 <= a,
                d >= 1_000_000_000_000_000_000,
        ;
    }
    let within: Wide = difference(gross, net);
    match within.narrow() {
        Some(within) => {
            if within < tax.cap {
                within
            } else {
                tax.cap
            }
        },
        None => tax.cap,
    }
}

/// What is left of `coin` once the tax that is part of it is taken off.
pub fn deduct_tax(tax: &Tax, coin: Coin) -> (net: Coin)
    ensures
        net.denom == coin.denom,
        net.amount == coin.amount - tax_within(*tax, coin.amount),
{
    let tax_amount: u128 = compute_deducted_tax(tax, &coin);
    Coin { denom: coin.denom, amount: coin.amount - tax_amount }
}

} // verus!
