//! The fixed-point arithmetic of fees and payouts.
//!
//! Every formula multiplies before dividing, so each floor loses less than
//! one unit, and every quotient is bounded by what it distributes: the fee
//! and the after-fee pool never exceed the losing total, and one winner's
//! share never exceeds the after-fee pool.

use vstd::prelude::*;

use vstd::arithmetic::div_mod::lemma_div_multiples_vanish;
use vstd::arithmetic::div_mod::lemma_div_pos_is_pos;
use vstd::arithmetic::div_mod::lemma_fundamental_div_mod;
use vstd::arithmetic::div_mod::lemma_mod_adds;
use vstd::arithmetic::div_mod::lemma_multiply_divide_le;
use vstd::arithmetic::mul::lemma_mul_inequality;
use vstd::arithmetic::mul::lemma_mul_inequality_converse;
use vstd::arithmetic::mul::lemma_mul_is_commutative;
use vstd::arithmetic::mul::lemma_mul_is_distributive_add;
use vstd::arithmetic::mul::lemma_mul_nonnegative;

verus! {

/// The protocol fee taken at settlement: `floor(losing_total * fee_rate /
/// 1000)`, the fee rate being parts per thousand of the losing side's total.
pub open spec fn fee_amount(losing_total: u64, fee_rate: u16) -> int {
    (losing_total * fee_rate) / 1000
}

/// The after-fee losing pool that is distributed to the winners:
/// `floor(losing_total * (1000 - fee_rate) / 1000)`.
pub open spec fn net_pool(losing_total: u64, fee_rate: u16) -> int
    recommends
        fee_rate <= 1000,
{
    (losing_total * (1000 - fee_rate)) / 1000
}

/// One winner's payout: their principal back, plus the after-fee losing pool
/// pro-rata by their share of the winning side's total.  A participant who
/// staked nothing on the winning side gets nothing.
pub open spec fn payout_amount(
    user_win: u64,
    win_total: u64,
    losing_total: u64,
    fee_rate: u16,
) -> int
    recommends
        fee_rate <= 1000,
        user_win <= win_total,
{
    if user_win == 0 {
        0
    } else {
        user_win + (net_pool(losing_total, fee_rate) * user_win) / (win_total as int)
    }
}

/// Flooring loses at most what a single division can: the floors of two
/// like-denominator fractions sum to at most the floor of their sum.
pub proof fn lemma_div_superadditive(a: int, b: int, d: int)
    requires
        0 <= a,
        0 <= b,
        0 < d,
    ensures
        a / d + b / d <= (a + b) / d,
{
    lemma_fundamental_div_mod(a, d);
    lemma_fundamental_div_mod(b, d);
    lemma_fundamental_div_mod(a + b, d);
    lemma_mod_adds(a, b, d);
    lemma_div_pos_is_pos(a % d + b % d, d);
    lemma_mul_nonnegative(d, (a % d + b % d) / d);
    assert(d * ((a + b) / d) == d * (a / d) + d * (b / d) + d * ((a % d + b % d) / d));
    assert(d * (a / d) + d * (b / d) == d * (a / d + b / d)) by {
        lemma_mul_is_distributive_add(d, a / d, b / d);
    }
    assert((a / d + b / d) * d <= ((a + b) / d) * d) by {
        lemma_mul_is_commutative(d, a / d + b / d);
        lemma_mul_is_commutative(d, (a + b) / d);
    }
    lemma_mul_inequality_converse(a / d + b / d, (a + b) / d, d);
}

/// The fee is never negative and never exceeds the losing total.
pub proof fn lemma_fee_bound(losing_total: u64, fee_rate: u16)
    requires
        fee_rate <= 1000,
    ensures
        0 <= fee_amount(losing_total, fee_rate) <= losing_total,
{
    lemma_mul_nonnegative(losing_total as int, fee_rate as int);
    lemma_div_pos_is_pos(losing_total * fee_rate, 1000);
    lemma_mul_inequality(fee_rate as int, 1000, losing_total as int);
    lemma_mul_is_commutative(fee_rate as int, losing_total as int);
    lemma_mul_is_commutative(1000, losing_total as int);
    lemma_multiply_divide_le(losing_total * fee_rate, 1000, losing_total as int);
}

/// The after-fee pool is never negative and never exceeds the losing total.
pub proof fn lemma_net_pool_bound(losing_total: u64, fee_rate: u16)
    requires
        fee_rate <= 1000,
    ensures
        0 <= net_pool(losing_total, fee_rate) <= losing_total,
{
    lemma_mul_nonnegative(losing_total as int, 1000 - fee_rate);
    lemma_div_pos_is_pos(losing_total * (1000 - fee_rate), 1000);
    lemma_mul_inequality(1000 - fee_rate, 1000, losing_total as int);
    lemma_mul_is_commutative(1000 - fee_rate, losing_total as int);
    lemma_mul_is_commutative(1000, losing_total as int);
    lemma_multiply_divide_le(losing_total * (1000 - fee_rate), 1000, losing_total as int);
}

/// The fee and the after-fee pool together never exceed the losing total:
/// settlement and distribution create no value.
pub proof fn lemma_fee_plus_net_pool(losing_total: u64, fee_rate: u16)
    requires
        fee_rate <= 1000,
    ensures
        fee_amount(losing_total, fee_rate) + net_pool(losing_total, fee_rate) <= losing_total,
{
    lemma_mul_nonnegative(losing_total as int, fee_rate as int);
    lemma_mul_nonnegative(losing_total as int, 1000 - fee_rate);
    lemma_div_superadditive(
        losing_total * fee_rate,
        losing_total * (1000 - fee_rate),
        1000,
    );
    assert(losing_total * fee_rate + losing_total * (1000 - fee_rate) == 1000 * losing_total) by {
        lemma_mul_is_distributive_add(losing_total as int, fee_rate as int, 1000 - fee_rate);
        lemma_mul_is_commutative(losing_total as int, 1000);
    }
    lemma_div_multiples_vanish(losing_total as int, 1000);
}

/// One winner's share of the pool never exceeds the pool: distributing
/// `pool` pro-rata by `user_win / win_total` with `user_win <= win_total`
/// stays within `pool`.
pub proof fn lemma_share_bound(pool: int, user_win: u64, win_total: u64)
    requires
        0 <= pool,
        user_win <= win_total,
        0 < win_total,
    ensures
        0 <= (pool * user_win) / (win_total as int) <= pool,
{
    lemma_mul_nonnegative(pool, user_win as int);
    lemma_div_pos_is_pos(pool * user_win, win_total as int);
    lemma_mul_inequality(user_win as int, win_total as int, pool);
    lemma_mul_is_commutative(user_win as int, pool);
    lemma_mul_is_commutative(win_total as int, pool);
    lemma_multiply_divide_le(pool * user_win, win_total as int, pool);
}

/// One winner's payout never exceeds their winning stake plus the whole
/// losing total, and in particular fits in a `u64` whenever the round's
/// aggregates do.
pub proof fn lemma_payout_bound(user_win: u64, win_total: u64, losing_total: u64, fee_rate: u16)
    requires
        fee_rate <= 1000,
        user_win <= win_total,
    ensures
        0 <= payout_amount(user_win, win_total, losing_total, fee_rate),
        payout_amount(user_win, win_total, losing_total, fee_rate) <= user_win + losing_total,
{
    if user_win != 0 {
        lemma_net_pool_bound(losing_total, fee_rate);
        lemma_share_bound(net_pool(losing_total, fee_rate), user_win, win_total);
    }
}

} // verus!
