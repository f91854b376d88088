use vstd::prelude::*;

verus! {

/// Why an operation was rejected. A rejected operation changes nothing.
#[derive(Clone, Copy, Debug, PartialEq, Eq, Structural)]
pub enum ContractError {
    /// The caller is not the admin, or is not on the allow-list.
    Unauthorized,
    /// Outstanding debt has reached the debt ceiling.
    MaxCapacity,
    /// The bond price is not below the caller's ceiling.
    SlippageLimit,
    /// The payout is not above the smallest bond.
    SmallBond,
    /// The payout is not below the cap on a single bond.
    LargeBond,
    /// The adjustment rate exceeds 2.5% of the control variable.
    LargeIncrement,
}

} // verus!
