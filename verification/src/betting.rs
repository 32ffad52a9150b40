//! The pool's operations: configure, open a round, stake, settle, claim.
//!
//! Every operation is a pure state transition on the records of
//! [`crate::state`] plus the plain balances it moves.  The caller supplies
//! the current time and the balances; the contracts say, input for input,
//! which error comes back and exactly how the state changes.  A rejected
//! operation changes nothing.

use vstd::prelude::*;

use crate::error::Error;
use crate::state::{BetDetails, BetInfo, Side, UserBetDetails};
use crate::state::{config_valid, position_in_round, round_inv};
use crate::state::{losing_total, user_winning_stake, winning_total};

verus! {

/// Creates the pool's singleton configuration.
///
/// Succeeds exactly when the fee rate is at most 1000 parts per thousand;
/// otherwise nothing is created and `InvalidConfig` comes back.
pub fn initialize(admin_account: u64, treasury_account: u64, bet_fee: u16) -> (r: Result<
    BetInfo,
    Error,
>)
    ensures
        r is Ok <==> bet_fee <= 1000,
        r matches Ok(info) ==> info == (BetInfo { admin_account, treasury_account, bet_fee })
            && config_valid(info),
        r is Err ==> r == Err::<BetInfo, Error>(Error::InvalidConfig),
{
    if bet_fee > 1000 {
        return Err(Error::InvalidConfig);
    }
    Ok(BetInfo { admin_account, treasury_account, bet_fee })
}

/// Updates the fee recipient and the fee rate of an existing configuration.
///
/// Only the stored administrator may call this, and the new fee rate must be
/// valid; on any rejection the configuration is left unchanged.
pub fn update(info: &mut BetInfo, caller: u64, treasury_account: u64, bet_fee: u16) -> (r: Result<
    (),
    Error,
>)
    ensures
        r is Ok <==> caller == old(info).admin_account && bet_fee <= 1000,
        caller != old(info).admin_account ==> r == Err::<(), Error>(Error::AccessDenied),
        caller == old(info).admin_account && bet_fee > 1000 ==> r == Err::<(), Error>(
            Error::InvalidConfig,
        ),
        r is Ok ==> *final(info) == (BetInfo {
            admin_account: old(info).admin_account,
            treasury_account,
            bet_fee,
        }) && config_valid(*final(info)),
        r is Err ==> *final(info) == *old(info),
{
    if caller != info.admin_account {
        return Err(Error::AccessDenied);
    }
    if bet_fee > 1000 {
        return Err(Error::InvalidConfig);
    }
    info.treasury_account = treasury_account;
    info.bet_fee = bet_fee;
    Ok(())
}

/// Opens a new betting round with the given window.
///
/// The window must be well-formed (`start_time <= end_time`) and must not lie
/// entirely in the past (`now <= end_time`); otherwise `InvalidWindow` comes
/// back.  A fresh round has all aggregates at zero and is open.
pub fn initialize_bet(admin_account: u64, start_time: u32, end_time: u32, now: u32) -> (r: Result<
    BetDetails,
    Error,
>)
    ensures
        r is Ok <==> start_time <= end_time && now <= end_time,
        r matches Ok(round) ==> round == (BetDetails {
            admin_account,
            total_bet_amount: 0,
            total_l_amount: 0,
            total_r_amount: 0,
            start_time,
            end_time,
            winner_result: Side::L,
            is_close: false,
        }) && round_inv(round),
        r is Err ==> r == Err::<BetDetails, Error>(Error::InvalidWindow),
{
    if now > end_time {
        return Err(Error::InvalidWindow);
    }
    if start_time > end_time {
        return Err(Error::InvalidWindow);
    }
    Ok(
        BetDetails {
            admin_account,
            total_bet_amount: 0,
            total_l_amount: 0,
            total_r_amount: 0,
            start_time,
            end_time,
            winner_result: Side::L,
            is_close: false,
        },
    )
}

/// Why opening a position against this round at this instant is rejected,
/// or `None` when it is accepted.  `already_exists` is the store's answer to
/// whether a position for this round and participant is already persisted.
pub open spec fn open_position_rejection(round: BetDetails, already_exists: bool, now: u32) -> Option<
    Error,
> {
    if round.is_close {
        Some(Error::RoundAlreadyClosed)
    } else if now < round.start_time {
        Some(Error::NotStarted)
    } else if now > round.end_time {
        Some(Error::RoundEnded)
    } else if already_exists {
        Some(Error::AlreadyExists)
    } else {
        None
    }
}

/// Opens a participant's position in a round.
///
/// The round must still be open and the betting window must contain `now`
/// (both boundaries included).  At most one position per round and
/// participant exists: the caller looks the pair up in its store and passes
/// the answer as `already_exists`.  A fresh position has no stakes and is
/// unclaimed.
pub fn init_user_bet(round: &BetDetails, user_account: u64, already_exists: bool, now: u32) -> (r:
    Result<UserBetDetails, Error>)
    ensures
        r is Ok <==> open_position_rejection(*round, already_exists, now) is None,
        open_position_rejection(*round, already_exists, now) matches Some(e) ==> r
            == Err::<UserBetDetails, Error>(e),
        r matches Ok(user) ==> user == (UserBetDetails {
            user_account,
            bet_l_amount: 0,
            bet_r_amount: 0,
            bet_id: round.start_time,
            is_claim: false,
        }) && position_in_round(user, *round),
{
    if round.is_close {
        return Err(Error::RoundAlreadyClosed);
    }
    if now < round.start_time {
        return Err(Error::NotStarted);
    }
    if now > round.end_time {
        return Err(Error::RoundEnded);
    }
    if already_exists {
        return Err(Error::AlreadyExists);
    }
    Ok(
        UserBetDetails {
            user_account,
            bet_l_amount: 0,
            bet_r_amount: 0,
            bet_id: round.start_time,
            is_claim: false,
        },
    )
}

/// Why a stake is rejected, or `None` when it is accepted.  Checked in this
/// order: the round must still be open, the window must contain `now` (both
/// boundaries included), the staker must afford the amount, and neither the
/// round's total nor the escrow balance may overflow.
pub open spec fn stake_rejection(
    round: BetDetails,
    user_balance: u64,
    escrow_balance: u64,
    bet_amount: u64,
    now: u32,
) -> Option<Error> {
    if round.is_close {
        Some(Error::RoundAlreadyClosed)
    } else if now < round.start_time {
        Some(Error::NotStarted)
    } else if now > round.end_time {
        Some(Error::RoundEnded)
    } else if user_balance < bet_amount {
        Some(Error::InsufficientFunds)
    } else if round.total_bet_amount + bet_amount > u64::MAX {
        Some(Error::Overflow)
    } else if escrow_balance + bet_amount > u64::MAX {
        Some(Error::Overflow)
    } else {
        None
    }
}

/// A position after a stake of `bet_amount` on one side (`bet_type` true
/// meaning `R`, false meaning `L`) has been added to it.
pub open spec fn add_stake_spec(
    user: UserBetDetails,
    bet_amount: u64,
    bet_type: bool,
) -> UserBetDetails {
    if bet_type {
        UserBetDetails { bet_r_amount: (user.bet_r_amount + bet_amount) as u64, ..user }
    } else {
        UserBetDetails { bet_l_amount: (user.bet_l_amount + bet_amount) as u64, ..user }
    }
}

/// Two snapshots of a position related by one accepted stake placement: some
/// amount was added to one side, without overflowing it.
pub open spec fn stake_step(before: UserBetDetails, after: UserBetDetails) -> bool {
    exists|bet_amount: u64, bet_type: bool|
        {
            &&& if bet_type {
                before.bet_r_amount + bet_amount <= u64::MAX
            } else {
                before.bet_l_amount + bet_amount <= u64::MAX
            }
            &&& after == #[trigger] add_stake_spec(before, bet_amount, bet_type)
        }
}

/// Places a stake of `bet_amount` on one side of an open round
/// (`bet_type` true meaning `R`, false meaning `L`).
///
/// On success the amount moves from the staker's balance into escrow, and
/// the round's total, the chosen side's total and the participant's matching
/// stake each grow by exactly the amount: stakes never shrink.  The
/// conservation invariant `total == total_L + total_R` and the containment of
/// the position in the round are preserved.  On any rejection nothing
/// changes.
pub fn user_bet(
    round: &mut BetDetails,
    user: &mut UserBetDetails,
    user_balance: &mut u64,
    escrow_balance: &mut u64,
    bet_amount: u64,
    bet_type: bool,
    now: u32,
) -> (r: Result<(), Error>)
    requires
        round_inv(*old(round)),
        position_in_round(*old(user), *old(round)),
    ensures
        r is Ok <==> stake_rejection(
            *old(round),
            *old(user_balance),
            *old(escrow_balance),
            bet_amount,
            now,
        ) is None,
        stake_rejection(*old(round), *old(user_balance), *old(escrow_balance), bet_amount, now)
            matches Some(e) ==> r == Err::<(), Error>(e),
        r is Err ==> *final(round) == *old(round) && *final(user) == *old(user)
            && *final(user_balance) == *old(user_balance)
            && *final(escrow_balance) == *old(escrow_balance),
        r is Ok ==> *final(round) == (BetDetails {
            total_bet_amount: (old(round).total_bet_amount + bet_amount) as u64,
            total_l_amount: if bet_type {
                old(round).total_l_amount
            } else {
                (old(round).total_l_amount + bet_amount) as u64
            },
            total_r_amount: if bet_type {
                (old(round).total_r_amount + bet_amount) as u64
            } else {
                old(round).total_r_amount
            },
            ..*old(round)
        }),
        r is Ok ==> *final(user) == (UserBetDetails {
            bet_l_amount: if bet_type {
                old(user).bet_l_amount
            } else {
                (old(user).bet_l_amount + bet_amount) as u64
            },
            bet_r_amount: if bet_type {
                (old(user).bet_r_amount + bet_amount) as u64
            } else {
                old(user).bet_r_amount
            },
            ..*old(user)
        }),
        r is Ok ==> *final(user_balance) == *old(user_balance) - bet_amount
            && *final(escrow_balance) == *old(escrow_balance) + bet_amount,
        round_inv(*final(round)),
        position_in_round(*final(user), *final(round)),
        old(user).bet_l_amount <= final(user).bet_l_amount,
        old(user).bet_r_amount <= final(user).bet_r_amount,
        r is Ok ==> stake_step(*old(user), *final(user)),
{
    if round.is_close {
        return Err(Error::RoundAlreadyClosed);
    }
    if now < round.start_time {
        return Err(Error::NotStarted);
    }
    if now > round.end_time {
        return Err(Error::RoundEnded);
    }
    if *user_balance < bet_amount {
        return Err(Error::InsufficientFunds);
    }
    if bet_amount > u64::MAX - round.total_bet_amount {
        return Err(Error::Overflow);
    }
    if bet_amount > u64::MAX - *escrow_balance {
        return Err(Error::Overflow);
    }
    *user_balance = *user_balance - bet_amount;
    *escrow_balance = *escrow_balance + bet_amount;
    round.total_bet_amount = round.total_bet_amount + bet_amount;
    if bet_type {
        round.total_r_amount = round.total_r_amount + bet_amount;
        user.bet_r_amount = user.bet_r_amount + bet_amount;
    } else {
        round.total_l_amount = round.total_l_amount + bet_amount;
        user.bet_l_amount = user.bet_l_amount + bet_amount;
    }
    proof {
        assert(*user == add_stake_spec(*old(user), bet_amount, bet_type));
    }
    Ok(())
}

/// The instant a round settled at `now` effectively closes: settlement before
/// the scheduled end truncates the window to `now`; settlement after it keeps
/// the scheduled end.
pub open spec fn close_time(round: BetDetails, now: u32) -> u32 {
    if now < round.end_time {
        now
    } else {
        round.end_time
    }
}

/// The side that wins when the round settles at `now`: the deterministic
/// selector applied to the effective closing time and the total stake.
pub open spec fn settle_winner(round: BetDetails, now: u32) -> Side {
    crate::rand::select_spec(close_time(round, now), round.total_bet_amount)
}

/// The total staked on the side that loses when the round settles at `now`.
pub open spec fn settle_losing(round: BetDetails, now: u32) -> u64 {
    if settle_winner(round, now) == Side::R {
        round.total_l_amount
    } else {
        round.total_r_amount
    }
}

/// The protocol fee taken when the round settles at `now`.
pub open spec fn settle_fee(info: BetInfo, round: BetDetails, now: u32) -> int {
    crate::math::fee_amount(settle_losing(round, now), info.bet_fee)
}

/// Why settling this round at this instant is rejected, or `None` when it is
/// accepted.  Checked in this order: the caller must be the administrator of
/// both the configuration and the round, the treasury handed in must be the
/// configured one, the round must not already be closed, the escrow must
/// cover the fee, and the treasury balance must not overflow.
pub open spec fn settle_rejection(
    info: BetInfo,
    round: BetDetails,
    escrow_balance: u64,
    treasury_balance: u64,
    caller: u64,
    treasury_account: u64,
    now: u32,
) -> Option<Error> {
    if caller != info.admin_account || caller != round.admin_account {
        Some(Error::AccessDenied)
    } else if treasury_account != info.treasury_account {
        Some(Error::WrongTreasury)
    } else if round.is_close {
        Some(Error::RoundAlreadyClosed)
    } else if escrow_balance < settle_fee(info, round, now) {
        Some(Error::InsufficientEscrow)
    } else if treasury_balance + settle_fee(info, round, now) > u64::MAX {
        Some(Error::Overflow)
    } else {
        None
    }
}

/// Settles a round: fixes the winning side, moves the protocol fee from
/// escrow to the treasury, and closes the round, all at once.
///
/// If settlement comes before the scheduled end the window is truncated to
/// `now`; stakes already recorded are not rolled back.  The winner is the
/// deterministic selector applied to the effective closing time and the
/// total stake; the fee is `floor(losing_total * fee_rate / 1000)`.  On any
/// rejection nothing changes.
pub fn finialize_bet(
    info: &BetInfo,
    round: &mut BetDetails,
    escrow_balance: &mut u64,
    treasury_balance: &mut u64,
    caller: u64,
    treasury_account: u64,
    now: u32,
) -> (r: Result<(), Error>)
    requires
        config_valid(*info),
        round_inv(*old(round)),
    ensures
        r is Ok <==> settle_rejection(
            *info,
            *old(round),
            *old(escrow_balance),
            *old(treasury_balance),
            caller,
            treasury_account,
            now,
        ) is None,
        settle_rejection(
            *info,
            *old(round),
            *old(escrow_balance),
            *old(treasury_balance),
            caller,
            treasury_account,
            now,
        ) matches Some(e) ==> r == Err::<(), Error>(e),
        r is Err ==> *final(round) == *old(round)
            && *final(escrow_balance) == *old(escrow_balance)
            && *final(treasury_balance) == *old(treasury_balance),
        r is Ok ==> *final(round) == (BetDetails {
            end_time: close_time(*old(round), now),
            winner_result: settle_winner(*old(round), now),
            is_close: true,
            ..*old(round)
        }),
        r is Ok ==> *final(escrow_balance) == *old(escrow_balance) - settle_fee(
            *info,
            *old(round),
            now,
        ),
        r is Ok ==> *final(treasury_balance) == *old(treasury_balance) + settle_fee(
            *info,
            *old(round),
            now,
        ),
        round_inv(*final(round)),
        0 <= settle_fee(*info, *old(round), now) <= settle_losing(*old(round), now),
{
    proof {
        crate::math::lemma_fee_bound(settle_losing(*old(round), now), info.bet_fee);
    }
    if caller != info.admin_account || caller != round.admin_account {
        return Err(Error::AccessDenied);
    }
    if treasury_account != info.treasury_account {
        return Err(Error::WrongTreasury);
    }
    if round.is_close {
        return Err(Error::RoundAlreadyClosed);
    }
    let effective_end: u32 = if now < round.end_time {
        now
    } else {
        round.end_time
    };
    let winner = crate::rand::generate(effective_end, round.total_bet_amount);
    let losing: u64 = if winner == Side::R {
        round.total_l_amount
    } else {
        round.total_r_amount
    };
    proof {
        crate::math::lemma_fee_bound(losing, info.bet_fee);
        vstd::arithmetic::mul::lemma_mul_upper_bound(
            losing as int,
            u64::MAX as int,
            info.bet_fee as int,
            1000,
        );
    }
    let fee_wide: u128 = (losing as u128 * info.bet_fee as u128) / 1000;
    let fee: u64 = fee_wide as u64;
    assert(fee == settle_fee(*info, *old(round), now));
    if *escrow_balance < fee {
        return Err(Error::InsufficientEscrow);
    }
    if fee > u64::MAX - *treasury_balance {
        return Err(Error::Overflow);
    }
    *escrow_balance = *escrow_balance - fee;
    *treasury_balance = *treasury_balance + fee;
    round.end_time = effective_end;
    round.winner_result = winner;
    round.is_close = true;
    Ok(())
}

/// The payout a claim against a settled round pays: the participant's stake
/// on the winning side back, plus their pro-rata share of the after-fee
/// losing pool.
pub open spec fn claim_payout(info: BetInfo, round: BetDetails, user: UserBetDetails) -> int {
    crate::math::payout_amount(
        user_winning_stake(round, user),
        winning_total(round),
        losing_total(round),
        info.bet_fee,
    )
}

/// Why a claim is rejected, or `None` when it is accepted.  Checked in this
/// order: the round must be settled, the position must not already be
/// claimed, the escrow must cover the payout, and the participant's balance
/// must not overflow.
pub open spec fn claim_rejection(
    info: BetInfo,
    round: BetDetails,
    user: UserBetDetails,
    escrow_balance: u64,
    user_balance: u64,
) -> Option<Error> {
    if !round.is_close {
        Some(Error::NotClosed)
    } else if user.is_claim {
        Some(Error::AlreadyClaimed)
    } else if escrow_balance < claim_payout(info, round, user) {
        Some(Error::InsufficientEscrow)
    } else if user_balance + claim_payout(info, round, user) > u64::MAX {
        Some(Error::Overflow)
    } else {
        None
    }
}

/// Pays a participant's winnings for a settled round, exactly once.
///
/// The payout is the participant's winning-side stake plus
/// `floor(floor(losing_total * (1000 - fee_rate) / 1000) * stake /
/// winning_total)`; a participant who staked nothing on the winning side is
/// paid nothing (their losing stake stays forfeited to the pool).  On
/// success the payout moves from escrow to the participant and the position
/// is marked claimed; a second claim is rejected with `AlreadyClaimed` and
/// moves nothing.
pub fn claim_reward(
    info: &BetInfo,
    round: &BetDetails,
    user: &mut UserBetDetails,
    escrow_balance: &mut u64,
    user_balance: &mut u64,
) -> (r: Result<(), Error>)
    requires
        config_valid(*info),
        round_inv(*round),
        position_in_round(*old(user), *round),
    ensures
        r is Ok <==> claim_rejection(
            *info,
            *round,
            *old(user),
            *old(escrow_balance),
            *old(user_balance),
        ) is None,
        claim_rejection(*info, *round, *old(user), *old(escrow_balance), *old(user_balance))
            matches Some(e) ==> r == Err::<(), Error>(e),
        r is Err ==> *final(user) == *old(user) && *final(escrow_balance) == *old(escrow_balance)
            && *final(user_balance) == *old(user_balance),
        r is Ok ==> *final(user) == (UserBetDetails { is_claim: true, ..*old(user) }),
        r is Ok ==> *final(escrow_balance) == *old(escrow_balance) - claim_payout(
            *info,
            *round,
            *old(user),
        ),
        r is Ok ==> *final(user_balance) == *old(user_balance) + claim_payout(
            *info,
            *round,
            *old(user),
        ),
        0 <= claim_payout(*info, *round, *old(user)) <= user_winning_stake(*round, *old(user))
            + losing_total(*round),
{
    proof {
        crate::math::lemma_payout_bound(
            user_winning_stake(*round, *old(user)),
            winning_total(*round),
            losing_total(*round),
            info.bet_fee,
        );
    }
    if !round.is_close {
        return Err(Error::NotClosed);
    }
    if user.is_claim {
        return Err(Error::AlreadyClaimed);
    }
    let user_win: u64 = if round.winner_result == Side::R {
        user.bet_r_amount
    } else {
        user.bet_l_amount
    };
    let win_total: u64 = if round.winner_result == Side::R {
        round.total_r_amount
    } else {
        round.total_l_amount
    };
    let losing: u64 = if round.winner_result == Side::R {
        round.total_l_amount
    } else {
        round.total_r_amount
    };
    let payout: u64;
    if user_win == 0 {
        payout = 0;
    } else {
        proof {
            vstd::arithmetic::mul::lemma_mul_upper_bound(
                losing as int,
                u64::MAX as int,
                1000 - info.bet_fee,
                1000,
            );
            crate::math::lemma_net_pool_bound(losing, info.bet_fee);
        }
        let net: u128 = (losing as u128 * (1000 - info.bet_fee) as u128) / 1000;
        proof {
            vstd::arithmetic::mul::lemma_mul_upper_bound(
                net as int,
                u64::MAX as int,
                user_win as int,
                u64::MAX as int,
            );
            crate::math::lemma_share_bound(net as int, user_win, win_total);
        }
        let share: u128 = (net * user_win as u128) / (win_total as u128);
        payout = (user_win as u128 + share) as u64;
    }
    assert(payout == claim_payout(*info, *round, *old(user)));
    if *escrow_balance < payout {
        return Err(Error::InsufficientEscrow);
    }
    if payout > u64::MAX - *user_balance {
        return Err(Error::Overflow);
    }
    *escrow_balance = *escrow_balance - payout;
    *user_balance = *user_balance + payout;
    user.is_claim = true;
    Ok(())
}

} // verus!
