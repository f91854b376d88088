use vstd::prelude::*;
use crate::chain::{Attribute, Coin};

verus! {

/// What sets the treasury up.
#[derive(Clone, Debug, PartialEq, Eq)]
pub struct InstantiateMsg {
    pub admin: String,
}

/// A command to the treasury. The addresses are valid ones.
#[derive(Clone, Debug, PartialEq, Eq)]
pub enum ExecuteMsg {
    AddRemoveDepositor { address: String },
    AddRemoveSpender { address: String },
    Deposit { amount: u64, profit: u64 },
    Transfer { recipient: String, amount: u128 },
    TransferFrom { owner: String, recipient: String, amount: u128 },
    IncreaseAllowance { spender: String, amount: u128 },
    Withdraw { recipient: String, amount: u64 },
}

/// A question to the treasury. All of them are for the ledger of the
/// token to answer.
#[derive(Clone, Debug, PartialEq, Eq)]
pub enum QueryMsg {
    TokenInfo {  },
    Balance { address: String },
    QueryAllowance { owner: String, spender: String },
}

/// A count, as an answer.
#[derive(Clone, Copy, Debug, PartialEq, Eq, Structural)]
pub struct CountResponse {
    pub count: i32,
}

/// What the treasury has the ledger of its token do. The ledger lives in
/// the treasury's own storage.
#[derive(Clone, Debug, PartialEq, Eq)]
pub enum TokenCall {
    /// The token is created, with no supply and `minter` as the only one
    /// who may mint it.
    Create { name: String, symbol: String, decimals: u8, minter: String },
    /// `amount` of the token is minted to `recipient`.
    Mint { recipient: String, amount: u128 },
    /// `amount` of the caller's tokens is burnt.
    Burn { amount: u128 },
    /// `amount` of the caller's tokens is transferred to `recipient`.
    Transfer { recipient: String, amount: u128 },
    /// `amount` of `owner`'s tokens is transferred to `recipient`, out of
    /// what `owner` allows the caller.
    TransferFrom { owner: String, recipient: String, amount: u128 },
    /// `spender` is allowed `amount` more of the caller's tokens.
    IncreaseAllowance { spender: String, amount: u128 },
}

/// What the treasury asks of the chain.
#[derive(Clone, Debug, PartialEq, Eq)]
pub enum Request {
    /// The bank is to send `amount` to `to_address`.
    Send { to_address: String, amount: Coin },
}

/// What an operation of the treasury hands back: the requests that it
/// makes of the chain, what it reports, and what it has the ledger of its
/// token do, each in order.
#[derive(Clone, Debug, PartialEq, Eq)]
pub struct Response {
    pub messages: Vec<Request>,
    pub attributes: Vec<Attribute>,
    pub token_calls: Vec<TokenCall>,
}

impl Response {
    /// A response that asks and reports nothing.
    pub fn new() -> (response: Response)
        ensures
            response.messages@.len() == 0,
            response.attributes@.len() == 0,
            response.token_calls@.len() == 0,
    {
        Response { messages: Vec::new(), attributes: Vec::new(), token_calls: Vec::new() }
    }
}

} // verus!
