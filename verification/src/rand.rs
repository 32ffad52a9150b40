//! The deterministic pseudo-random outcome selector.
//!
//! The winner of a round is a pure function of two weakly unpredictable
//! inputs: the instant the round closed and the total staked at that point.
//! Both inputs are observable, so the selector is replayable and auditable;
//! by the same token an actor who can steer either input's low-order bits can
//! steer the outcome.  That weakness is a known, deliberate policy choice:
//! the contract here is determinism, not unpredictability.

use vstd::prelude::*;

use crate::state::Side;

verus! {

/// What the selector returns: the parity of the sum of its two inputs, odd
/// picking `R` and even picking `L`.
pub open spec fn select_spec(close_time: u32, total_stake: u64) -> Side {
    if (close_time + total_stake) % 2 == 1 {
        Side::R
    } else {
        Side::L
    }
}

/// Picks the winning side of a round from its closing time and its total
/// stake.  Pure and reproducible: the same inputs always give the same side.
pub fn generate(close_time: u32, total_stake: u64) -> (winner: Side)
    ensures
        winner == select_spec(close_time, total_stake),
{
    let sum: u128 = close_time as u128 + total_stake as u128;
    if sum % 2 == 1 {
        Side::R
    } else {
        Side::L
    }
}

} // verus!
