//! The error kinds that the pool's operations can return.

use vstd::prelude::*;

verus! {

/// Every way an operation of the pool can be rejected.
///
/// A rejected operation leaves all state it was handed unchanged.
#[derive(Clone, Copy, Debug, PartialEq, Eq, Structural)]
pub enum Error {
    /// The caller is not the authorized administrator.
    AccessDenied,
    /// The fee rate is out of range (it must be at most 1000 parts per thousand).
    InvalidConfig,
    /// The betting window is malformed or already fully in the past.
    InvalidWindow,
    /// The betting window has not opened yet.
    NotStarted,
    /// The betting window is already over.
    RoundEnded,
    /// The round was already settled and closed.
    RoundAlreadyClosed,
    /// The round has not been settled yet.
    NotClosed,
    /// The staker's balance does not cover the stake.
    InsufficientFunds,
    /// The escrow balance does not cover a payout: an accounting-invariant
    /// breach, unreachable if all value flowed through the pool's operations.
    InsufficientEscrow,
    /// An aggregate or a balance would exceed the integer range.
    Overflow,
    /// A position for this round and participant already exists.
    AlreadyExists,
    /// The participant already claimed their payout for this round.
    AlreadyClaimed,
    /// The treasury account handed to settlement is not the configured one.
    WrongTreasury,
}

} // verus!
