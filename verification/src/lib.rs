//! A vending machine with an access-controlled refill, as a deterministic
//! state machine over a small persisted state.

pub mod contract;
pub mod decimal;
pub mod error;
pub mod events;
pub mod inventory;
pub mod laws;
pub mod msg;
pub mod registry;
pub mod state;
