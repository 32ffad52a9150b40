//! Each operation's acceptance and each of its rejections, on concrete inputs.

use test_betting::betting::{claim_reward, finialize_bet, init_user_bet, initialize,
    initialize_bet, update, user_bet};
use test_betting::error::Error;
use test_betting::rand::generate;
use test_betting::state::Side;

#[test]
fn initialize_accepts_valid_fee() {
    let info = initialize(1, 2, 100).unwrap();
    assert_eq!(info.admin_account, 1);
    assert_eq!(info.treasury_account, 2);
    assert_eq!(info.bet_fee, 100);
}

#[test]
fn initialize_accepts_fee_boundaries() {
    assert!(initialize(1, 2, 0).is_ok());
    assert!(initialize(1, 2, 1000).is_ok());
}

#[test]
fn initialize_rejects_fee_over_thousand() {
    assert_eq!(initialize(1, 2, 1001), Err(Error::InvalidConfig));
}

#[test]
fn update_changes_treasury_and_fee() {
    let mut info = initialize(1, 2, 100).unwrap();
    assert_eq!(update(&mut info, 1, 9, 250), Ok(()));
    assert_eq!(info.admin_account, 1);
    assert_eq!(info.treasury_account, 9);
    assert_eq!(info.bet_fee, 250);
}

#[test]
fn update_rejects_non_admin() {
    let mut info = initialize(1, 2, 100).unwrap();
    assert_eq!(update(&mut info, 3, 9, 250), Err(Error::AccessDenied));
    assert_eq!(info.treasury_account, 2);
    assert_eq!(info.bet_fee, 100);
}

#[test]
fn update_rejects_fee_over_thousand() {
    let mut info = initialize(1, 2, 100).unwrap();
    assert_eq!(update(&mut info, 1, 9, 1001), Err(Error::InvalidConfig));
    assert_eq!(info.bet_fee, 100);
}

#[test]
fn open_round_starts_empty_and_open() {
    let round = initialize_bet(1, 10, 100, 5).unwrap();
    assert_eq!(round.total_bet_amount, 0);
    assert_eq!(round.total_l_amount, 0);
    assert_eq!(round.total_r_amount, 0);
    assert_eq!(round.start_time, 10);
    assert_eq!(round.end_time, 100);
    assert!(!round.is_close);
}

#[test]
fn open_round_rejects_window_fully_in_past() {
    assert_eq!(initialize_bet(1, 10, 100, 101), Err(Error::InvalidWindow));
}

#[test]
fn open_round_accepts_boundary_windows() {
    // Opening exactly at the scheduled end, and a window of a single instant,
    // are both allowed.
    assert!(initialize_bet(1, 10, 100, 100).is_ok());
    assert!(initialize_bet(1, 50, 50, 0).is_ok());
}

#[test]
fn open_position_starts_empty() {
    let round = initialize_bet(1, 0, 100, 0).unwrap();
    let user = init_user_bet(&round, 7, false, 50).unwrap();
    assert_eq!(user.user_account, 7);
    assert_eq!(user.bet_l_amount, 0);
    assert_eq!(user.bet_r_amount, 0);
    assert_eq!(user.bet_id, 0);
    assert!(!user.is_claim);
}

#[test]
fn open_position_rejects_duplicate() {
    let round = initialize_bet(1, 0, 100, 0).unwrap();
    assert_eq!(init_user_bet(&round, 7, true, 50), Err(Error::AlreadyExists));
}

#[test]
fn open_position_rejects_outside_window() {
    let round = initialize_bet(1, 10, 100, 0).unwrap();
    assert_eq!(init_user_bet(&round, 7, false, 9), Err(Error::NotStarted));
    assert_eq!(init_user_bet(&round, 7, false, 101), Err(Error::RoundEnded));
}

#[test]
fn open_position_rejects_closed_round() {
    let info = initialize(1, 2, 100).unwrap();
    let mut round = initialize_bet(1, 0, 100, 0).unwrap();
    let mut escrow = 0u64;
    let mut treasury = 0u64;
    finialize_bet(&info, &mut round, &mut escrow, &mut treasury, 1, 2, 100).unwrap();
    assert_eq!(init_user_bet(&round, 7, false, 100), Err(Error::RoundAlreadyClosed));
}

#[test]
fn stake_moves_funds_and_grows_totals() {
    let round0 = initialize_bet(1, 0, 100, 0).unwrap();
    let mut round = round0;
    let mut user = init_user_bet(&round, 7, false, 50).unwrap();
    let mut balance = 1_000u64;
    let mut escrow = 0u64;
    assert_eq!(user_bet(&mut round, &mut user, &mut balance, &mut escrow, 300, false, 50), Ok(()));
    assert_eq!(balance, 700);
    assert_eq!(escrow, 300);
    assert_eq!(round.total_bet_amount, 300);
    assert_eq!(round.total_l_amount, 300);
    assert_eq!(round.total_r_amount, 0);
    assert_eq!(user.bet_l_amount, 300);
    assert_eq!(user.bet_r_amount, 0);
    assert_eq!(user_bet(&mut round, &mut user, &mut balance, &mut escrow, 200, true, 60), Ok(()));
    assert_eq!(round.total_bet_amount, 500);
    assert_eq!(round.total_r_amount, 200);
    assert_eq!(user.bet_r_amount, 200);
}

#[test]
fn stake_rejects_insufficient_funds() {
    let mut round = initialize_bet(1, 0, 100, 0).unwrap();
    let mut user = init_user_bet(&round, 7, false, 50).unwrap();
    let mut balance = 99u64;
    let mut escrow = 0u64;
    assert_eq!(
        user_bet(&mut round, &mut user, &mut balance, &mut escrow, 100, false, 50),
        Err(Error::InsufficientFunds)
    );
    assert_eq!(balance, 99);
    assert_eq!(escrow, 0);
    assert_eq!(round.total_bet_amount, 0);
}

#[test]
fn stake_rejects_total_overflow() {
    let mut round = initialize_bet(1, 0, 100, 0).unwrap();
    let mut user = init_user_bet(&round, 7, false, 50).unwrap();
    let mut balance = u64::MAX;
    let mut escrow = 0u64;
    assert_eq!(
        user_bet(&mut round, &mut user, &mut balance, &mut escrow, u64::MAX, false, 50),
        Ok(())
    );
    let mut balance2 = 10u64;
    assert_eq!(
        user_bet(&mut round, &mut user, &mut balance2, &mut escrow, 1, false, 50),
        Err(Error::Overflow)
    );
    assert_eq!(round.total_bet_amount, u64::MAX);
}

#[test]
fn stake_rejects_escrow_overflow() {
    let mut round = initialize_bet(1, 0, 100, 0).unwrap();
    let mut user = init_user_bet(&round, 7, false, 50).unwrap();
    let mut balance = 10u64;
    let mut escrow = u64::MAX;
    assert_eq!(
        user_bet(&mut round, &mut user, &mut balance, &mut escrow, 1, true, 50),
        Err(Error::Overflow)
    );
    assert_eq!(escrow, u64::MAX);
    assert_eq!(balance, 10);
}

#[test]
fn stake_rejects_closed_round() {
    let info = initialize(1, 2, 100).unwrap();
    let mut round = initialize_bet(1, 0, 100, 0).unwrap();
    let mut user = init_user_bet(&round, 7, false, 50).unwrap();
    let mut escrow = 0u64;
    let mut treasury = 0u64;
    finialize_bet(&info, &mut round, &mut escrow, &mut treasury, 1, 2, 50).unwrap();
    let mut balance = 100u64;
    assert_eq!(
        user_bet(&mut round, &mut user, &mut balance, &mut escrow, 10, false, 50),
        Err(Error::RoundAlreadyClosed)
    );
}

#[test]
fn settle_rejects_non_admin() {
    let info = initialize(1, 2, 100).unwrap();
    let mut round = initialize_bet(1, 0, 100, 0).unwrap();
    let mut escrow = 0u64;
    let mut treasury = 0u64;
    assert_eq!(
        finialize_bet(&info, &mut round, &mut escrow, &mut treasury, 3, 2, 100),
        Err(Error::AccessDenied)
    );
    assert!(!round.is_close);
}

#[test]
fn settle_rejects_wrong_treasury() {
    let info = initialize(1, 2, 100).unwrap();
    let mut round = initialize_bet(1, 0, 100, 0).unwrap();
    let mut escrow = 0u64;
    let mut treasury = 0u64;
    assert_eq!(
        finialize_bet(&info, &mut round, &mut escrow, &mut treasury, 1, 5, 100),
        Err(Error::WrongTreasury)
    );
    assert!(!round.is_close);
}

#[test]
fn settle_rejects_second_settlement() {
    let info = initialize(1, 2, 100).unwrap();
    let mut round = initialize_bet(1, 0, 100, 0).unwrap();
    let mut escrow = 0u64;
    let mut treasury = 0u64;
    assert_eq!(finialize_bet(&info, &mut round, &mut escrow, &mut treasury, 1, 2, 100), Ok(()));
    assert!(round.is_close);
    assert_eq!(
        finialize_bet(&info, &mut round, &mut escrow, &mut treasury, 1, 2, 100),
        Err(Error::RoundAlreadyClosed)
    );
}

#[test]
fn settle_truncates_end_time() {
    let info = initialize(1, 2, 100).unwrap();
    let mut round = initialize_bet(1, 0, 100, 0).unwrap();
    let mut escrow = 0u64;
    let mut treasury = 0u64;
    assert_eq!(finialize_bet(&info, &mut round, &mut escrow, &mut treasury, 1, 2, 40), Ok(()));
    assert_eq!(round.end_time, 40);
}

#[test]
fn settle_rejects_escrow_below_fee() {
    let info = initialize(1, 2, 1000).unwrap();
    let mut round = initialize_bet(1, 0, 100, 0).unwrap();
    let mut user = init_user_bet(&round, 7, false, 50).unwrap();
    let mut balance = 200u64;
    let mut escrow = 0u64;
    // Stake 100 on each side, then drain the escrow behind the pool's back:
    // settlement must refuse to pay the fee out of nothing.
    user_bet(&mut round, &mut user, &mut balance, &mut escrow, 100, false, 50).unwrap();
    user_bet(&mut round, &mut user, &mut balance, &mut escrow, 100, true, 50).unwrap();
    let mut drained = 0u64;
    let mut treasury = 0u64;
    assert_eq!(
        finialize_bet(&info, &mut round, &mut drained, &mut treasury, 1, 2, 100),
        Err(Error::InsufficientEscrow)
    );
    assert!(!round.is_close);
}

#[test]
fn claim_rejects_before_settlement() {
    let round = initialize_bet(1, 0, 100, 0).unwrap();
    let info = initialize(1, 2, 100).unwrap();
    let mut user = init_user_bet(&round, 7, false, 50).unwrap();
    let mut escrow = 0u64;
    let mut balance = 0u64;
    assert_eq!(
        claim_reward(&info, &round, &mut user, &mut escrow, &mut balance),
        Err(Error::NotClosed)
    );
    assert!(!user.is_claim);
}

#[test]
fn claim_rejects_escrow_below_payout() {
    let info = initialize(1, 2, 0).unwrap();
    let mut round = initialize_bet(1, 0, 100, 0).unwrap();
    let mut user = init_user_bet(&round, 7, false, 50).unwrap();
    let mut balance = 100u64;
    let mut escrow = 0u64;
    // One staker on each side; whoever wins is owed their principal back at
    // least, so a drained escrow cannot cover the payout.
    user_bet(&mut round, &mut user, &mut balance, &mut escrow, 50, false, 50).unwrap();
    user_bet(&mut round, &mut user, &mut balance, &mut escrow, 50, true, 50).unwrap();
    let mut treasury = 0u64;
    finialize_bet(&info, &mut round, &mut escrow, &mut treasury, 1, 2, 100).unwrap();
    let mut drained = 0u64;
    let mut payout_account = 0u64;
    assert_eq!(
        claim_reward(&info, &round, &mut user, &mut drained, &mut payout_account),
        Err(Error::InsufficientEscrow)
    );
    assert!(!user.is_claim);
}

#[test]
fn claim_rejects_balance_overflow() {
    let info = initialize(1, 2, 0).unwrap();
    let mut round = initialize_bet(1, 0, 100, 0).unwrap();
    let mut user = init_user_bet(&round, 7, false, 50).unwrap();
    let mut balance = 100u64;
    let mut escrow = 0u64;
    user_bet(&mut round, &mut user, &mut balance, &mut escrow, 50, false, 50).unwrap();
    user_bet(&mut round, &mut user, &mut balance, &mut escrow, 50, true, 50).unwrap();
    let mut treasury = 0u64;
    finialize_bet(&info, &mut round, &mut escrow, &mut treasury, 1, 2, 100).unwrap();
    let mut full_account = u64::MAX;
    assert_eq!(
        claim_reward(&info, &round, &mut user, &mut escrow, &mut full_account),
        Err(Error::Overflow)
    );
    assert!(!user.is_claim);
}

#[test]
fn selector_is_deterministic_and_two_valued() {
    assert_eq!(generate(100, 200), generate(100, 200));
    assert_eq!(generate(100, 200), Side::L);
    assert_eq!(generate(101, 200), Side::R);
    assert_eq!(generate(100, 201), Side::R);
}
