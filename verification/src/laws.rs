//! The pool-wide laws: what holds across whole rounds and whole sequences of
//! operations, proved from the operations' contracts and the arithmetic of
//! [`crate::math`].

use vstd::prelude::*;

use vstd::arithmetic::div_mod::lemma_div_by_multiple;
use vstd::arithmetic::div_mod::lemma_div_pos_is_pos;
use vstd::arithmetic::mul::lemma_mul_is_distributive_add;
use vstd::arithmetic::mul::lemma_mul_nonnegative;

use crate::betting::{add_stake_spec, claim_payout, claim_rejection, stake_step};
use crate::error::Error;
use crate::math::{fee_amount, net_pool};
use crate::math::{lemma_div_superadditive, lemma_fee_bound, lemma_fee_plus_net_pool,
    lemma_net_pool_bound};
use crate::state::{config_valid, losing_total, round_inv, user_winning_stake, winning_total};
use crate::state::{BetDetails, BetInfo, Side, UserBetDetails};

verus! {

/// The sum of the positions' stakes on side `L`.
pub open spec fn sum_bet_l(positions: Seq<UserBetDetails>) -> int
    decreases positions.len(),
{
    if positions.len() == 0 {
        0
    } else {
        sum_bet_l(positions.drop_last()) + positions.last().bet_l_amount
    }
}

/// The sum of the positions' stakes on side `R`.
pub open spec fn sum_bet_r(positions: Seq<UserBetDetails>) -> int
    decreases positions.len(),
{
    if positions.len() == 0 {
        0
    } else {
        sum_bet_r(positions.drop_last()) + positions.last().bet_r_amount
    }
}

/// The sum of the positions' stakes on the round's winning side.
pub open spec fn sum_winning_stakes(round: BetDetails, positions: Seq<UserBetDetails>) -> int
    decreases positions.len(),
{
    if positions.len() == 0 {
        0
    } else {
        sum_winning_stakes(round, positions.drop_last()) + user_winning_stake(
            round,
            positions.last(),
        )
    }
}

/// The sum of the payouts the positions' claims are owed against the round.
pub open spec fn sum_payouts(
    info: BetInfo,
    round: BetDetails,
    positions: Seq<UserBetDetails>,
) -> int
    decreases positions.len(),
{
    if positions.len() == 0 {
        0
    } else {
        sum_payouts(info, round, positions.drop_last()) + claim_payout(
            info,
            round,
            positions.last(),
        )
    }
}

/// Stakes are unsigned, so their sum over the winning side is never negative.
proof fn lemma_sum_winning_nonneg(round: BetDetails, positions: Seq<UserBetDetails>)
    ensures
        0 <= sum_winning_stakes(round, positions),
    decreases positions.len(),
{
    if positions.len() > 0 {
        lemma_sum_winning_nonneg(round, positions.drop_last());
    }
}

/// The sum over the winning side is the matching per-side sum.
proof fn lemma_sum_winning_is_side(round: BetDetails, positions: Seq<UserBetDetails>)
    ensures
        sum_winning_stakes(round, positions) == if round.winner_result == Side::R {
            sum_bet_r(positions)
        } else {
            sum_bet_l(positions)
        },
    decreases positions.len(),
{
    if positions.len() > 0 {
        lemma_sum_winning_is_side(round, positions.drop_last());
    }
}

/// Positions with nothing on the winning side are owed nothing.
proof fn lemma_sum_payouts_zero(info: BetInfo, round: BetDetails, positions: Seq<UserBetDetails>)
    requires
        sum_winning_stakes(round, positions) == 0,
    ensures
        sum_payouts(info, round, positions) == 0,
    decreases positions.len(),
{
    if positions.len() > 0 {
        lemma_sum_winning_nonneg(round, positions.drop_last());
        lemma_sum_payouts_zero(info, round, positions.drop_last());
    }
}

/// The payouts owed to any positions whose winning stakes sum to at most the
/// winning side's total stay within those stakes plus the pro-rata part of
/// the after-fee losing pool that their sum commands.
proof fn lemma_sum_payouts_le(info: BetInfo, round: BetDetails, positions: Seq<UserBetDetails>)
    requires
        config_valid(info),
        0 < winning_total(round),
        sum_winning_stakes(round, positions) <= winning_total(round),
    ensures
        0 <= sum_payouts(info, round, positions),
        sum_payouts(info, round, positions) <= sum_winning_stakes(round, positions) + (net_pool(
            losing_total(round),
            info.bet_fee,
        ) * sum_winning_stakes(round, positions)) / (winning_total(round) as int),
    decreases positions.len(),
{
    let net = net_pool(losing_total(round), info.bet_fee);
    let wt = winning_total(round) as int;
    lemma_net_pool_bound(losing_total(round), info.bet_fee);
    if positions.len() == 0 {
        lemma_mul_nonnegative(net, 0);
        lemma_div_pos_is_pos(net * 0, wt);
    } else {
        let rest = positions.drop_last();
        let w = user_winning_stake(round, positions.last()) as int;
        let s_rest = sum_winning_stakes(round, rest);
        lemma_sum_winning_nonneg(round, rest);
        lemma_sum_payouts_le(info, round, rest);
        lemma_mul_nonnegative(net, s_rest);
        lemma_mul_nonnegative(net, w);
        lemma_div_pos_is_pos(net * w, wt);
        lemma_div_superadditive(net * s_rest, net * w, wt);
        lemma_mul_is_distributive_add(net, s_rest, w);
    }
}

/// Conservation across settlement and claims: the fee plus everything all the
/// round's positions can ever claim never exceeds the round's total stake.
/// The difference stays in escrow as the residual truncation loss, so
/// settlement and claims create no value.
///
/// The positions handed in are all of the round's: side by side their stakes
/// sum to the round's side totals, as placing every stake through the round
/// guarantees.
pub proof fn lemma_settlement_conservation(
    info: BetInfo,
    round: BetDetails,
    positions: Seq<UserBetDetails>,
)
    requires
        config_valid(info),
        round_inv(round),
        sum_bet_l(positions) == round.total_l_amount,
        sum_bet_r(positions) == round.total_r_amount,
    ensures
        0 <= fee_amount(losing_total(round), info.bet_fee) + sum_payouts(info, round, positions),
        fee_amount(losing_total(round), info.bet_fee) + sum_payouts(info, round, positions)
            <= round.total_bet_amount,
{
    let fee = fee_amount(losing_total(round), info.bet_fee);
    let net = net_pool(losing_total(round), info.bet_fee);
    let wt = winning_total(round);
    lemma_fee_bound(losing_total(round), info.bet_fee);
    lemma_sum_winning_is_side(round, positions);
    if wt == 0 {
        lemma_sum_payouts_zero(info, round, positions);
    } else {
        lemma_sum_payouts_le(info, round, positions);
        lemma_net_pool_bound(losing_total(round), info.bet_fee);
        assert((net * (wt as int)) / (wt as int) == net) by {
            lemma_div_by_multiple(net, wt as int);
            vstd::arithmetic::mul::lemma_mul_is_commutative(net, wt as int);
        }
        lemma_fee_plus_net_pool(losing_total(round), info.bet_fee);
    }
}

/// One accepted stake placement never decreases either of a position's
/// recorded stakes, and touches nothing else in the position.
pub proof fn lemma_stake_step_monotonic(before: UserBetDetails, after: UserBetDetails)
    requires
        stake_step(before, after),
    ensures
        before.bet_l_amount <= after.bet_l_amount,
        before.bet_r_amount <= after.bet_r_amount,
        after.user_account == before.user_account,
        after.bet_id == before.bet_id,
        after.is_claim == before.is_claim,
{
    let (bet_amount, bet_type): (u64, bool) = choose|bet_amount: u64, bet_type: bool|
        {
            &&& if bet_type {
                before.bet_r_amount + bet_amount <= u64::MAX
            } else {
                before.bet_l_amount + bet_amount <= u64::MAX
            }
            &&& after == #[trigger] add_stake_spec(before, bet_amount, bet_type)
        };
}

/// Monotonicity: across any sequence of accepted stake placements, a
/// participant's recorded `L` and `R` stakes never decrease.  The sequence is
/// given as the trace of position snapshots, each adjacent pair related by
/// one placement.
pub proof fn lemma_stakes_monotonic(trace: Seq<UserBetDetails>, i: int, j: int)
    requires
        forall|k: int| 0 <= k < trace.len() - 1 ==> #[trigger] stake_step(trace[k], trace[k + 1]),
        0 <= i <= j < trace.len(),
    ensures
        trace[i].bet_l_amount <= trace[j].bet_l_amount,
        trace[i].bet_r_amount <= trace[j].bet_r_amount,
    decreases j - i,
{
    if i < j {
        lemma_stakes_monotonic(trace, i, j - 1);
        assert(stake_step(trace[j - 1], trace[(j - 1) + 1]));
        lemma_stake_step_monotonic(trace[j - 1], trace[j]);
    }
}

/// A claim is idempotent: once one claim against a position has been
/// accepted, the position is marked claimed, and every further claim against
/// it is rejected with `AlreadyClaimed` whatever the balances then are — and
/// by `claim_reward`'s contract a rejected claim moves nothing, so the escrow
/// changes by exactly the payout on the first claim and by zero thereafter.
pub proof fn lemma_claim_idempotent(
    info: BetInfo,
    round: BetDetails,
    user: UserBetDetails,
    escrow_balance: u64,
    user_balance: u64,
    later_escrow_balance: u64,
    later_user_balance: u64,
)
    requires
        claim_rejection(info, round, user, escrow_balance, user_balance) is None,
    ensures
        claim_rejection(
            info,
            round,
            (UserBetDetails { is_claim: true, ..user }),
            later_escrow_balance,
            later_user_balance,
        ) == Some(Error::AlreadyClaimed),
{
}

} // verus!
