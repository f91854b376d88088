use vstd::prelude::*;

verus! {

/// The bond contract's own state.
#[derive(Clone, Debug, PartialEq, Eq)]
pub struct State {
    pub treasury: String,
    pub dao: String,
    pub staking: String,
    /// Outstanding debt, before the decay that is due.
    pub total_debt: u64,
    /// The tick at which decay was last applied.
    pub last_decay: u64,
}

/// The terms under which bonds are sold.
#[derive(Clone, Copy, Debug, PartialEq, Eq, Structural)]
pub struct Terms {
    /// Slope of the price in the debt ratio.
    pub control_variable: u64,
    /// Ticks over which a new bond vests.
    pub vesting_term: u64,
    /// Floor of the price.
    pub minimum_price: u64,
    /// Cap on one bond, in percent of the token supply.
    pub max_payout: u64,
    /// Fee on the payout, in parts per 100000.
    pub fee: u64,
    /// Ceiling of the outstanding debt.
    pub max_debt: u64,
}

/// One depositor's vesting position.
#[derive(Clone, Copy, Debug, PartialEq, Eq, Structural)]
pub struct Bond {
    /// What is still owed.
    pub payout: u64,
    /// Ticks left until it is fully vested.
    pub vesting: u64,
    /// Tick of the last deposit or redemption.
    pub last_block: u64,
    /// Price at issuance, in the reference currency.
    pub price_paid: u64,
}

/// How the control variable is being moved.
#[derive(Clone, Copy, Debug, PartialEq, Eq, Structural)]
pub struct Adjust {
    /// Whether the control variable is raised or lowered.
    pub add: bool,
    /// Increment per step; 0 switches the adjustment off.
    pub rate: u64,
    pub target: u64,
    /// Ticks that must pass between two steps.
    pub buffer: u64,
    /// Tick of the last step; 0 while no adjustment was ever set.
    pub last_block: u64,
}

/// What one operation of the bond contract reads and writes: the
/// contract's state, its terms, the running adjustment, and the position of
/// the one address that the operation is about.
#[derive(Clone, Debug, PartialEq, Eq)]
pub struct Store {
    pub state: State,
    pub terms: Terms,
    pub adjust: Adjust,
    /// `None` while the address holds no position.
    pub bond: Option<Bond>,
}

impl Terms {
    /// The terms of a contract on which none were set yet.
    pub open spec fn spec_zero() -> Terms {
        Terms {
            control_variable: 0,
            vesting_term: 0,
            minimum_price: 0,
            max_payout: 0,
            fee: 0,
            max_debt: 0,
        }
    }

    #[verifier::when_used_as_spec(spec_zero)]
    pub fn zero() -> (terms: Terms)
        ensures
            terms == Terms::spec_zero(),
    {
        Terms {
            control_variable: 0,
            vesting_term: 0,
            minimum_price: 0,
            max_payout: 0,
            fee: 0,
            max_debt: 0,
        }
    }
}

impl Bond {
    /// The position of an address that holds none.
    pub open spec fn spec_zero() -> Bond {
        Bond { payout: 0, vesting: 0, last_block: 0, price_paid: 0 }
    }

    #[verifier::when_used_as_spec(spec_zero)]
    pub fn zero() -> (bond: Bond)
        ensures
            bond == Bond::spec_zero(),
    {
        Bond { payout: 0, vesting: 0, last_block: 0, price_paid: 0 }
    }
}

impl Adjust {
    /// The adjustment of a contract on which none was ever set.
    pub open spec fn spec_unset() -> Adjust {
        Adjust { add: false, rate: 0, target: 0, buffer: 0, last_block: 0 }
    }

    #[verifier::when_used_as_spec(spec_unset)]
    pub fn unset() -> (adjust: Adjust)
        ensures
            adjust == Adjust::spec_unset(),
    {
        Adjust { add: false, rate: 0, target: 0, buffer: 0, last_block: 0 }
    }
}

impl Store {
    /// No position with nothing owed is kept.
    pub open spec fn wf(&self) -> bool {
        self.bond matches Some(bond) ==> bond.payout > 0
    }

    /// The position, with an absent one read as zero.
    pub open spec fn position(&self) -> Bond {
        match self.bond {
            Some(bond) => bond,
            None => Bond::spec_zero(),
        }
    }
}

} // verus!
