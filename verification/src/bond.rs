//! The bond contract: pricing, issuance, vesting and redemption.
pub mod contract;
pub mod msg;
pub mod pricing;
pub mod state;
pub mod tax;
