//! Bond pricing and vesting, and the reserve ledger that backs it.
//!
//! Every operation takes the values it works on as an explicit store, the
//! tick and the token supply as an [`chain::Env`], and the caller as a
//! [`chain::MessageInfo`]. What an operation asks of other contracts comes
//! back as a list of requests; nothing here touches a chain.
pub mod bond;
pub mod chain;
pub mod error;
pub mod math;
pub mod treasury;
