//! A rental protocol for on-chain assets: an owner lists an asset with a fee
//! per period, a renter pays for a number of periods and receives a
//! time-limited credential, and the owner's proceeds sit in escrow until the
//! rental ends normally or is cut short by the renter.
//!
//! - `types`: the values the protocol works on.
//! - `fees`: the fee arithmetic (platform cut, escrow, pro-rated split).
//! - `rules`: each operation as a decision on the stored entries it touches.
//! - `contract`: the whole contract state and its operations.
//! - `laws`: properties that span operations.

pub mod types;
pub mod fees;
pub mod rules;
pub mod keyed;
pub mod contract;
pub mod laws;
