//! A two-sided pari-mutuel betting pool.
//!
//! Participants stake value on one of two outcomes (`L` or `R`) while a
//! betting window is open.  At settlement a deterministic pseudo-random
//! selector fixes the winning side, a protocol fee (parts-per-thousand of the
//! losing side's total) is moved from escrow to the treasury, and the round is
//! closed.  Each winner then claims, exactly once, their principal plus a
//! pro-rata share of the after-fee losing pool.
//!
//! The crate is the pure accounting core: it works on plain values (account
//! identities as integers, balances as `u64`, the clock as a `u32` passed in
//! by the caller).  Reading the clock, persisting records and moving real
//! funds are the surrounding platform's job.

pub mod betting;
pub mod error;
pub mod laws;
pub mod math;
pub mod rand;
pub mod state;

pub use error::Error;
pub use state::{BetDetails, BetInfo, Side, UserBetDetails};
