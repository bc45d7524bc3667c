//! The messages that the machine receives and the answers to its queries.

use vstd::prelude::*;

verus! {

/// The counts that the machine starts with.
#[derive(Clone, Copy, Debug, PartialEq, Eq, Structural)]
pub struct InstantiateMsg {
    pub chocolate_bars: u64,
    pub water_bottles: u64,
    pub chips_packets: u64,
}

/// A command that changes the state.
#[derive(Clone, Debug, PartialEq, Eq)]
pub enum ExecuteMsg {
    /// Take one item of the category with this name.
    GetItem { category: String },
    /// Add this number of items to every category.
    Refill { number: u64 },
    /// Append these principals to the administrator list.
    AddMembers { admins: Vec<String> },
    /// Remove the caller from the administrator list.
    Leave {},
}

/// The counts of all categories, as a query reports them.
#[derive(Clone, Copy, Debug, PartialEq, Eq, Structural)]
pub struct Items {
    pub chocolate_bars: u64,
    pub water_bottles: u64,
    pub chips_packets: u64,
}

/// A read-only request.
#[derive(Clone, Copy, Debug, PartialEq, Eq, Structural)]
pub enum QueryMsg {
    ItemsCount {},
    AdminsList {},
    Greet {},
}

/// The answer to a query.
#[derive(Clone, Debug, PartialEq, Eq)]
pub enum QueryResponse {
    ItemsCount(Items),
    AdminsList { admins: Vec<String> },
    Greet { message: String },
}

} // verus!
