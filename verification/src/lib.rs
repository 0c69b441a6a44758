//! A time-phased token sale engine ("price discovery").
//!
//! Participants deposit an accepted asset during a user window, the sale
//! owner deposits the token being launched during an owner window, and after
//! the sale closes both sides redeem their pro-rata share at the price fixed
//! by the ratio of total deposits to total launched supply.
//!
//! The engine is a pure state machine: the clock value, caller identity and
//! participant identifiers are supplied by the host on every call, and every
//! token movement is returned to the host as a payment instruction rather
//! than executed here.

pub mod admin;
pub mod errors;
pub mod ledger;
pub mod phase;
pub mod redeem;
pub mod state;
