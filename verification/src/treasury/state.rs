use vstd::prelude::*;

verus! {

/// The treasury's accounts.
#[derive(Clone, Copy, Debug, PartialEq, Eq, Structural)]
pub struct State {
    pub total_reserves: u64,
    pub total_debt: u64,
}

/// The addresses that may deposit into the reserves.
#[derive(Clone, Debug, PartialEq, Eq)]
pub struct ReserveDepositors {
    pub depositors: Vec<String>,
}

/// The addresses that may withdraw from the reserves.
#[derive(Clone, Debug, PartialEq, Eq)]
pub struct ReserveSpenders {
    pub spenders: Vec<String>,
}

/// What one operation of the treasury reads and writes.
#[derive(Clone, Debug, PartialEq, Eq)]
pub struct Store {
    pub state: State,
    pub depositors: ReserveDepositors,
    pub spenders: ReserveSpenders,
}

/// The addresses of a list, as text.
pub open spec fn names(list: Seq<String>) -> Seq<Seq<char>> {
    list.map_values(|address: String| address@)
}

impl View for ReserveDepositors {
    type V = Seq<Seq<char>>;

    open spec fn view(&self) -> Seq<Seq<char>> {
        names(self.depositors@)
    }
}

impl View for ReserveSpenders {
    type V = Seq<Seq<char>>;

    open spec fn view(&self) -> Seq<Seq<char>> {
        names(self.spenders@)
    }
}

impl Store {
    /// No address is listed twice.
    pub open spec fn wf(&self) -> bool {
        self.depositors@.no_duplicates() && self.spenders@.no_duplicates()
    }
}

} // verus!
