use vstd::prelude::*;

verus! {

/// An amount of one currency.
#[derive(Clone, Debug, PartialEq, Eq)]
pub struct Coin {
    pub denom: String,
    pub amount: u128,
}

/// What the chain reports for one operation.
#[derive(Clone, Copy, Debug, PartialEq, Eq)]
pub struct Env {
    /// The current tick. It never goes back.
    pub height: u64,
    /// Total supply of the backed token, as its ledger reports it.
    pub total_supply: u64,
}

/// Who called, with which funds.
#[derive(Clone, Debug, PartialEq, Eq)]
pub struct MessageInfo {
    pub sender: String,
    pub funds: Vec<Coin>,
    /// Whether the sender is the admin of the contract that is called.
    pub is_admin: bool,
}

/// A key and a value that an operation reports.
#[derive(Clone, Debug, PartialEq, Eq)]
pub struct Attribute {
    pub key: String,
    pub value: String,
}

/// The amount of the first coin of `funds` with denomination `denom`, or 0.
pub open spec fn sent(funds: Seq<Coin>, denom: Seq<char>) -> nat
    decreases funds.len(),
{
    if funds.len() == 0 {
        0
    } else if funds[0].denom@ == denom {
        funds[0].amount as nat
    } else {
        sent(funds.drop_first(), denom)
    }
}

/// The amount of `denom` that came with the call: that of the first such
/// coin, 0 when there is none.
pub fn amount_sent(funds: &Vec<Coin>, denom: &str) -> (amount: u128)
    ensures
        amount == sent(funds@, denom@),
{
    let wanted = denom.to_owned();
    let mut i: usize = 0;
    assert(funds@.skip(0) =~= funds@);
    while i < funds.len()
        invariant
            i <= funds.len(),
            wanted@ == denom@,
            sent(funds@, denom@) == sent(funds@.skip(i as int), denom@),
        decreases funds.len() - i,
    {
        proof {
            let rest = funds@.skip(i as int);
            assert(rest[0] == funds@[i as int]);
            assert(rest.drop_first() =~= funds@.skip(i + 1));
        }
        if funds[i].denom == wanted {
            return funds[i].amount;
        }
        i += 1;
    }
    0
}

/// An attribute with the given key and value.
pub fn attr(key: &str, value: &str) -> (a: Attribute)
    ensures
        a.key@ == key@,
        a.value@ == value@,
{
    Attribute { key: key.to_owned(), value: value.to_owned() }
}

} // verus!
