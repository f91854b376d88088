use vstd::prelude::*;
use crate::bond::state::Bond;
use crate::chain::{Attribute, Coin};

verus! {

/// What sets the contract up. The addresses are valid ones.
#[derive(Clone, Debug, PartialEq, Eq)]
pub struct InstantiateMsg {
    pub admin: String,
    pub treasury: String,
    pub dao: String,
    pub staking: String,
    pub total_debt: u64,
    pub last_decay: u64,
}

/// A command to the contract.
#[derive(Clone, Debug, PartialEq, Eq)]
pub enum ExecuteMsg {
    Init {
        control_variable: u64,
        vesting_term: u64,
        minimum_price: u64,
        max_payout: u64,
        fee: u64,
        max_debt: u64,
        initial_debt: u64,
    },
    SetStaking { staking: String },
    Deposit { max_price: u64 },
    SetAdjustment { addition: bool, increment: u64, target: u64, buffer: u64 },
    Redeem { stake: bool },
}

/// A question to the contract. Where it names an address, the store that
/// answers it holds the position of that address.
#[derive(Clone, Debug, PartialEq, Eq)]
pub enum QueryMsg {
    BondInfo { address: String },
    BondPriceInUsd {  },
    MaxPayout { address: String, max_pay: u64 },
    PendingPayout { address: String },
}

/// A count, as an answer.
#[derive(Clone, Copy, Debug, PartialEq, Eq, Structural)]
pub struct CountResponse {
    pub count: i32,
}

/// What the bond contract asks of another contract.
#[derive(Clone, Debug, PartialEq, Eq)]
pub enum Request {
    /// The treasury is to take `amount` into its reserves and keep `profit`
    /// of it; `funds` are forwarded with the request.
    ReserveDeposit { treasury: String, funds: Coin, amount: u64, profit: u64 },
    /// The treasury is to transfer `amount` of the token to `recipient`.
    Transfer { treasury: String, recipient: String, amount: u64 },
    /// The staking contract is to stake `amount` of the token for `owner`.
    Stake { staking: String, owner: String, recipient: String, amount: u64 },
}

/// What an operation of the bond contract hands back: the requests that it
/// makes, in order, and what it reports.
#[derive(Clone, Debug, PartialEq, Eq)]
pub struct Response {
    pub messages: Vec<Request>,
    pub attributes: Vec<Attribute>,
}

impl Response {
    /// A response that asks and reports nothing.
    pub fn new() -> (response: Response)
        ensures
            response.messages@.len() == 0,
            response.attributes@.len() == 0,
    {
        Response { messages: Vec::new(), attributes: Vec::new() }
    }
}

/// The answer to a query.
#[derive(Clone, Copy, Debug, PartialEq, Eq, Structural)]
pub enum QueryResponse {
    BondInfo(Bond),
    BondPriceInUsd(u64),
    MaxPayout(u64),
    PendingPayout(u64),
}

} // verus!
