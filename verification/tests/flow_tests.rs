use price_discovery::admin::AdminActionsModule;
use price_discovery::phase::PhaseModule;
use price_discovery::redeem::RedeemModule;
use price_discovery::state::{CommonStorageModule, Payment, Sale, TokenKind};

const ADMIN: u64 = 1;
const USER_A: u64 = 2;
const USER_B: u64 = 3;

// start 1000, user window 100, owner window 50, owner redeem window 200:
// user deposits in [1000, 1100), owner deposits in [1100, 1150),
// owner redeems in [1150, 1350), users redeem from 1350 on.
fn sale() -> Sale {
    Sale::new(ADMIN, 1000, 100, 50, 200, 1, 0).unwrap()
}

fn sale_with_users() -> Sale {
    let mut s = sale();
    s.add_users_to_whitelist(ADMIN, 1000, vec![(USER_A, 0), (USER_B, 0)]).unwrap();
    s
}

#[test]
fn pro_rata_settlement_pays_both_sides() {
    let mut s = sale_with_users();
    s.user_deposit(USER_A, 1050, 300).unwrap();
    s.user_deposit(USER_B, 1060, 700).unwrap();
    assert_eq!(s.accepted_token_balance(), 1000);
    s.owner_deposit(ADMIN, 1120, 1000).unwrap();
    assert_eq!(s.launched_token_balance(), 1000);

    let owner_take = s.owner_redeem(ADMIN, 1200).unwrap();
    assert_eq!(owner_take, Payment { token: TokenKind::Accepted, amount: 1000 });

    let a = s.user_redeem(USER_A, 1400).unwrap();
    assert_eq!(a, Payment { token: TokenKind::Launched, amount: 300 });
    let b = s.user_redeem(USER_B, 1450).unwrap();
    assert_eq!(b, Payment { token: TokenKind::Launched, amount: 700 });

    assert_eq!(s.launched_tokens_paid, 1000);
    assert_eq!(s.accepted_tokens_paid, 1000);
    assert!(s.user_redeemed(USER_A));
    assert!(s.user_redeemed(USER_B));
    assert!(s.owner_redeemed());
}

#[test]
fn refund_when_owner_never_deposited() {
    let mut s = sale_with_users();
    s.user_deposit(USER_A, 1050, 500).unwrap();
    assert_eq!(s.launched_token_balance(), 0);
    let refund = s.user_redeem(USER_A, 1400).unwrap();
    assert_eq!(refund, Payment { token: TokenKind::Accepted, amount: 500 });
    assert!(s.user_redeemed(USER_A));
}

#[test]
fn refund_when_owner_missed_redeem_window() {
    let mut s = sale_with_users();
    s.user_deposit(USER_A, 1050, 400).unwrap();
    s.owner_deposit(ADMIN, 1120, 900).unwrap();
    // the owner never calls owner_redeem during [1150, 1350)
    let pulled = s.withdraw_launchpad_tokens(ADMIN, 1360).unwrap();
    assert_eq!(pulled, Payment { token: TokenKind::Launched, amount: 900 });
    assert!(s.owner_redeemed());
    assert_eq!(s.launched_token_balance(), 0);
    let refund = s.user_redeem(USER_A, 1400).unwrap();
    assert_eq!(refund, Payment { token: TokenKind::Accepted, amount: 400 });
}

#[test]
fn truncation_dust_stays_bounded_by_redeemer_count() {
    let mut s = sale();
    s.add_users_to_whitelist(ADMIN, 1000, vec![(2, 0), (3, 0), (4, 0)]).unwrap();
    s.user_deposit(2, 1050, 1).unwrap();
    s.user_deposit(3, 1050, 1).unwrap();
    s.user_deposit(4, 1050, 1).unwrap();
    s.owner_deposit(ADMIN, 1120, 100).unwrap();
    s.owner_redeem(ADMIN, 1200).unwrap();
    assert_eq!(s.user_redeem(2, 1400).unwrap().amount, 33);
    assert_eq!(s.user_redeem(3, 1400).unwrap().amount, 33);
    assert_eq!(s.user_redeem(4, 1400).unwrap().amount, 33);
    // 1 launched token of dust stays locked, under the 3-redeemer bound
    assert_eq!(s.launched_tokens_paid, 99);
    assert!(s.launched_tokens_paid <= s.launched_token_total);
}

#[test]
fn aggregate_tracks_deposit_sum_through_user_window() {
    let mut s = sale_with_users();
    s.user_deposit(USER_A, 1010, 250).unwrap();
    s.user_deposit(USER_B, 1020, 100).unwrap();
    s.user_withdraw(USER_A, 1030, 50).unwrap();
    s.user_deposit(USER_B, 1040, 25).unwrap();
    let sum = s.total_deposit_by_user(USER_A) + s.total_deposit_by_user(USER_B);
    assert_eq!(s.accepted_token_balance(), sum);
    assert_eq!(sum, 325);
}

#[test]
fn admin_refund_restores_funds_and_removes_membership() {
    let mut s = sale_with_users();
    s.user_deposit(USER_A, 1010, 200).unwrap();
    s.user_deposit(USER_B, 1020, 300).unwrap();
    let refunds = s.refund_users(ADMIN, 1030, vec![USER_A, USER_B]).unwrap();
    assert_eq!(refunds.len(), 2);
    assert_eq!(refunds[0].user_id, USER_A);
    assert_eq!(refunds[0].amount, 200);
    assert_eq!(refunds[1].user_id, USER_B);
    assert_eq!(refunds[1].amount, 300);
    assert!(!s.is_user_whitelisted(USER_A));
    assert!(!s.is_user_whitelisted(USER_B));
    assert_eq!(s.accepted_token_balance(), 0);
    assert_eq!(s.total_deposit_by_user(USER_A), 0);
}

#[test]
fn relisting_a_refunded_user_restores_membership() {
    let mut s = sale_with_users();
    s.user_deposit(USER_A, 1010, 200).unwrap();
    s.refund_users(ADMIN, 1020, vec![USER_A]).unwrap();
    assert!(!s.is_user_whitelisted(USER_A));
    s.add_users_to_whitelist(ADMIN, 1030, vec![(USER_A, 0)]).unwrap();
    assert!(s.is_user_whitelisted(USER_A));
    assert_eq!(s.total_deposit_by_user(USER_A), 0);
    s.user_deposit(USER_A, 1040, 75).unwrap();
    assert_eq!(s.total_deposit_by_user(USER_A), 75);
}

#[test]
fn relisting_a_known_user_is_idempotent() {
    let mut s = sale_with_users();
    s.user_deposit(USER_A, 1010, 120).unwrap();
    s.add_users_to_whitelist(ADMIN, 1020, vec![(USER_A, 999)]).unwrap();
    // the existing record is kept: balance intact, cap not overwritten
    assert_eq!(s.total_deposit_by_user(USER_A), 120);
    assert_eq!(s.user_deposit_limit(USER_A), 0);
}

#[test]
fn owner_can_adjust_supply_during_owner_window() {
    let mut s = sale_with_users();
    s.user_deposit(USER_A, 1050, 10).unwrap();
    s.owner_deposit(ADMIN, 1110, 500).unwrap();
    s.owner_withdraw(ADMIN, 1120, 200).unwrap();
    assert_eq!(s.launched_token_balance(), 300);
}

#[test]
fn window_extension_while_active_is_allowed() {
    let mut s = sale();
    // user window is live at 1050; extending it keeps the phase
    s.set_user_deposit_withdraw_time(ADMIN, 1050, 150).unwrap();
    assert_eq!(s.user_deposit_withdraw_time(), 150);
    // later windows can still be reshaped before they begin
    s.set_owner_deposit_withdraw_time(ADMIN, 1060, 40).unwrap();
    s.set_owner_redeem_time(ADMIN, 1070, 300).unwrap();
    assert_eq!(s.owner_deposit_withdraw_time(), 40);
    assert_eq!(s.owner_redeem_time(), 300);
}

#[test]
fn min_launched_tokens_is_configurable_before_redeem() {
    let mut s = sale();
    s.set_min_launched_tokens(ADMIN, 1050, 5000).unwrap();
    assert_eq!(s.min_launched_tokens(), 5000);
    assert_eq!(s.start_time(), 1000);
}

#[test]
fn empty_batches_are_no_ops() {
    let mut s = sale();
    s.add_users_to_whitelist(ADMIN, 1000, vec![]).unwrap();
    let refunds = s.refund_users(ADMIN, 1010, vec![]).unwrap();
    assert!(refunds.is_empty());
    assert_eq!(s.accepted_token_balance(), 0);
}

#[test]
fn whitelisted_user_with_no_deposit_redeems_nothing() {
    let mut s = sale_with_users();
    s.user_deposit(USER_A, 1010, 100).unwrap();
    s.owner_deposit(ADMIN, 1110, 100).unwrap();
    s.owner_redeem(ADMIN, 1200).unwrap();
    let empty_handed = s.user_redeem(USER_B, 1400).unwrap();
    assert_eq!(empty_handed, Payment { token: TokenKind::Launched, amount: 0 });
    assert!(s.user_redeemed(USER_B));
}

#[test]
fn withdrawing_everything_keeps_membership() {
    let mut s = sale_with_users();
    s.user_deposit(USER_A, 1010, 80).unwrap();
    s.user_withdraw(USER_A, 1020, 80).unwrap();
    assert_eq!(s.total_deposit_by_user(USER_A), 0);
    assert!(s.is_user_whitelisted(USER_A));
    assert_eq!(s.accepted_token_balance(), 0);
}

#[test]
fn unknown_participants_read_as_empty() {
    let s = sale();
    assert_eq!(s.total_deposit_by_user(42), 0);
    assert_eq!(s.user_deposit_limit(42), 0);
    assert!(!s.is_user_whitelisted(42));
    assert!(!s.user_redeemed(42));
    assert!(!s.owner_redeemed());
}

#[test]
fn deposit_caps_are_enforced_and_adjustable() {
    let mut s = sale();
    s.add_users_to_whitelist(ADMIN, 1000, vec![(USER_A, 500)]).unwrap();
    assert_eq!(s.user_deposit_limit(USER_A), 500);
    s.user_deposit(USER_A, 1010, 400).unwrap();
    s.set_user_limit(ADMIN, USER_A, 450).unwrap();
    assert_eq!(s.user_deposit_limit(USER_A), 450);
    // zero always means unlimited, whatever the current balance
    s.set_user_limit(ADMIN, USER_A, 0).unwrap();
    s.user_deposit(USER_A, 1020, 1000).unwrap();
    assert_eq!(s.total_deposit_by_user(USER_A), 1400);
}
