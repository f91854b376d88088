//! The treasury contract: reserves, allow-lists, mint and burn.
pub mod contract;
pub mod msg;
pub mod state;
