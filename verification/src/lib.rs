//! Decision and accounting core of a fixed-supply token sale with an airdrop.
//!
//! The sale runs over three 30-day rounds with tiered, round-discounted prices
//! in three settlement currencies. The airdrop hands a one-time allocation to
//! recipients that prove membership in a committed set with a merkle proof.
//!
//! Nothing in this crate moves assets or reads a clock: every function takes
//! the current record and the current time, and returns the verdict together
//! with the numbers that the surrounding program executes.

pub mod admin;
pub mod airdrop;
pub mod digest;
pub mod error;
pub mod events;
pub mod merkle;
pub mod sale;
pub mod state;
