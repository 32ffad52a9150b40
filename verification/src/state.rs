//! The persisted records of the pool and their well-formedness.
//!
//! Account identities are plain integers here: the surrounding platform maps
//! its real account addresses to and from them.

use vstd::prelude::*;

verus! {

/// One of the two mutually exclusive outcomes a stake can be placed on.
#[derive(Clone, Copy, Debug, PartialEq, Eq, Structural)]
pub enum Side {
    /// The left outcome.
    L,
    /// The right outcome.
    R,
}

/// The singleton pool configuration: who administers the pool, where the
/// protocol fee goes, and how large it is.
#[derive(Clone, Copy, Debug, PartialEq, Eq, Structural)]
pub struct BetInfo {
    /// The administrator's account identity.
    pub admin_account: u64,
    /// The account that receives the protocol fee at settlement.
    pub treasury_account: u64,
    /// The protocol fee in parts per thousand (100 means 10%).
    pub bet_fee: u16,
}

/// One betting round: the aggregate stakes, the betting window, and the
/// outcome once the round is settled.
#[derive(Clone, Copy, Debug, PartialEq, Eq, Structural)]
pub struct BetDetails {
    /// The administrator that opened the round.
    pub admin_account: u64,
    /// The sum of all stakes placed in this round.
    pub total_bet_amount: u64,
    /// The sum of all stakes placed on side `L`.
    pub total_l_amount: u64,
    /// The sum of all stakes placed on side `R`.
    pub total_r_amount: u64,
    /// The first instant at which stakes are accepted.
    pub start_time: u32,
    /// The last instant at which stakes are accepted; settlement before this
    /// instant truncates it to the settlement time.
    pub end_time: u32,
    /// The winning side.  Meaningless until `is_close` is true.
    pub winner_result: Side,
    /// Whether the round has been settled.  No stake is accepted and no claim
    /// is possible until this flips, exactly once, from false to true.
    pub is_close: bool,
}

/// One participant's stakes in one round, and whether their payout has been
/// claimed.
#[derive(Clone, Copy, Debug, PartialEq, Eq, Structural)]
pub struct UserBetDetails {
    /// The participant's account identity.
    pub user_account: u64,
    /// The participant's stake on side `L`.
    pub bet_l_amount: u64,
    /// The participant's stake on side `R`.
    pub bet_r_amount: u64,
    /// The round this position belongs to, named by the round's start time.
    pub bet_id: u32,
    /// Whether the payout for this position has already been claimed.
    pub is_claim: bool,
}

/// A configuration is valid when its fee rate is at most 1000 parts per
/// thousand.  `initialize` and `update` reject anything larger.
pub open spec fn config_valid(info: BetInfo) -> bool {
    info.bet_fee <= 1000
}

/// Conservation of the aggregates: every unit staked is counted once, on
/// exactly one side.  Holds of every round the pool's operations produce.
pub open spec fn round_inv(round: BetDetails) -> bool {
    round.total_bet_amount == round.total_l_amount + round.total_r_amount
}

/// A position belongs to a round: its per-side stakes are part of that
/// round's per-side totals.  Every position created by `init_user_bet` and
/// grown by `user_bet` against the same round satisfies this.
pub open spec fn position_in_round(user: UserBetDetails, round: BetDetails) -> bool {
    user.bet_l_amount <= round.total_l_amount && user.bet_r_amount <= round.total_r_amount
}

/// The total staked on the side that lost.  Meaningful once the round is
/// settled.
pub open spec fn losing_total(round: BetDetails) -> u64 {
    if round.winner_result == Side::R {
        round.total_l_amount
    } else {
        round.total_r_amount
    }
}

/// The total staked on the side that won.  Meaningful once the round is
/// settled.
pub open spec fn winning_total(round: BetDetails) -> u64 {
    if round.winner_result == Side::R {
        round.total_r_amount
    } else {
        round.total_l_amount
    }
}

/// The participant's stake on the round's winning side.
pub open spec fn user_winning_stake(round: BetDetails, user: UserBetDetails) -> u64 {
    if round.winner_result == Side::R {
        user.bet_r_amount
    } else {
        user.bet_l_amount
    }
}

} // verus!
