use price_discovery::admin::AdminActionsModule;
use price_discovery::errors::SaleError;
use price_discovery::redeem::RedeemModule;
use price_discovery::state::{CommonStorageModule, Sale};

const ADMIN: u64 = 1;
const USER: u64 = 2;

fn sale() -> Sale {
    Sale::new(ADMIN, 1000, 100, 50, 200, 1, 0).unwrap()
}

fn sale_with_user() -> Sale {
    let mut s = sale();
    s.add_users_to_whitelist(ADMIN, 1000, vec![(USER, 0)]).unwrap();
    s
}

#[test]
fn construction_rejects_bad_durations() {
    assert_eq!(Sale::new(ADMIN, 1000, 0, 50, 200, 1, 0).unwrap_err(), SaleError::InvalidDuration);
    let month: u64 = 60 * 60 * 24 * 30;
    assert_eq!(
        Sale::new(ADMIN, 1000, month + 1, 50, 200, 1, 0).unwrap_err(),
        SaleError::InvalidDuration
    );
    assert_eq!(Sale::new(ADMIN, 1000, 100, 0, 200, 1, 0).unwrap_err(), SaleError::InvalidDuration);
    assert_eq!(Sale::new(ADMIN, 1000, 100, 50, 0, 1, 0).unwrap_err(), SaleError::InvalidDuration);
    let quarter: u64 = 60 * 60 * 24 * 90;
    assert_eq!(
        Sale::new(ADMIN, 1000, 100, 50, quarter + 1, 1, 0).unwrap_err(),
        SaleError::InvalidDuration
    );
    // a start time so late the window sums would wrap
    assert_eq!(
        Sale::new(ADMIN, u64::MAX, 100, 50, 200, 1, 0).unwrap_err(),
        SaleError::InvalidDuration
    );
}

#[test]
fn deposit_outside_user_window_is_rejected() {
    let mut s = sale_with_user();
    assert_eq!(s.user_deposit(USER, 999, 100).unwrap_err(), SaleError::WrongPhase);
    let mut s2 = sale_with_user();
    assert_eq!(s2.user_deposit(USER, 1150, 100).unwrap_err(), SaleError::WrongPhase);
}

#[test]
fn deposit_without_whitelist_always_fails() {
    let mut s = sale();
    assert_eq!(s.user_deposit(USER, 1050, 100).unwrap_err(), SaleError::NotWhitelisted);
    assert_eq!(s.accepted_token_balance(), 0);
    assert_eq!(s.total_deposit_by_user(USER), 0);
    // a refunded participant is no longer whitelisted either
    let mut s2 = sale_with_user();
    s2.user_deposit(USER, 1010, 50).unwrap();
    s2.refund_users(ADMIN, 1020, vec![USER]).unwrap();
    assert_eq!(s2.user_deposit(USER, 1030, 50).unwrap_err(), SaleError::NotWhitelisted);
    assert_eq!(s2.total_deposit_by_user(USER), 0);
}

#[test]
fn deposit_cap_and_floor_are_enforced() {
    let mut s = sale();
    s.add_users_to_whitelist(ADMIN, 1000, vec![(USER, 400)]).unwrap();
    assert_eq!(s.user_deposit(USER, 1010, 500).unwrap_err(), SaleError::LimitExceeded);
    let mut s2 = Sale::new(ADMIN, 1000, 100, 50, 200, 1, 100).unwrap();
    s2.add_users_to_whitelist(ADMIN, 1000, vec![(USER, 0)]).unwrap();
    assert_eq!(s2.user_deposit(USER, 1010, 99).unwrap_err(), SaleError::BelowMinDeposit);
    s2.user_deposit(USER, 1010, 100).unwrap();
}

#[test]
fn deposit_overflow_is_rejected() {
    let mut s = sale_with_user();
    s.user_deposit(USER, 1010, u64::MAX).unwrap();
    assert_eq!(s.user_deposit(USER, 1020, 1).unwrap_err(), SaleError::Overflow);
    let mut s2 = sale();
    s2.owner_deposit(ADMIN, 1110, u64::MAX).unwrap();
    assert_eq!(s2.owner_deposit(ADMIN, 1120, 1).unwrap_err(), SaleError::Overflow);
}

#[test]
fn withdraw_more_than_balance_is_rejected() {
    let mut s = sale_with_user();
    s.user_deposit(USER, 1010, 50).unwrap();
    assert_eq!(s.user_withdraw(USER, 1020, 100).unwrap_err(), SaleError::InsufficientBalance);
    let mut s2 = sale();
    s2.owner_deposit(ADMIN, 1110, 10).unwrap();
    assert_eq!(s2.owner_withdraw(ADMIN, 1120, 11).unwrap_err(), SaleError::InsufficientBalance);
}

#[test]
fn only_admin_may_run_owner_and_admin_actions() {
    let mut s = sale_with_user();
    let outsider: u64 = 99;
    assert_eq!(s.owner_deposit(outsider, 1110, 10).unwrap_err(), SaleError::Unauthorized);
    assert_eq!(s.owner_withdraw(outsider, 1110, 10).unwrap_err(), SaleError::Unauthorized);
    assert_eq!(s.owner_redeem(outsider, 1200).unwrap_err(), SaleError::Unauthorized);
    assert_eq!(s.withdraw_launchpad_tokens(outsider, 1400).unwrap_err(), SaleError::Unauthorized);
    assert_eq!(s.set_user_limit(outsider, USER, 10).unwrap_err(), SaleError::Unauthorized);
    assert_eq!(
        s.add_users_to_whitelist(outsider, 1010, vec![(7, 0)]).unwrap_err(),
        SaleError::Unauthorized
    );
    assert_eq!(s.refund_users(outsider, 1010, vec![USER]).unwrap_err(), SaleError::Unauthorized);
    assert_eq!(
        s.set_user_deposit_withdraw_time(outsider, 1010, 100).unwrap_err(),
        SaleError::Unauthorized
    );
    assert_eq!(s.set_min_launched_tokens(outsider, 1010, 5).unwrap_err(), SaleError::Unauthorized);
    assert_eq!(s.require_caller_admin(ADMIN), Ok(()));
}

#[test]
fn user_redeem_is_one_shot() {
    let mut s = sale_with_user();
    s.user_deposit(USER, 1010, 100).unwrap();
    s.owner_deposit(ADMIN, 1110, 100).unwrap();
    s.owner_redeem(ADMIN, 1200).unwrap();
    s.user_redeem(USER, 1400).unwrap();
    assert_eq!(s.user_redeem(USER, 1410).unwrap_err(), SaleError::AlreadyRedeemed);
    assert_eq!(s.user_redeem(USER, 2000).unwrap_err(), SaleError::AlreadyRedeemed);
}

#[test]
fn owner_redeem_is_one_shot() {
    let mut s = sale_with_user();
    s.user_deposit(USER, 1010, 100).unwrap();
    s.owner_deposit(ADMIN, 1110, 100).unwrap();
    s.owner_redeem(ADMIN, 1200).unwrap();
    assert_eq!(s.owner_redeem(ADMIN, 1210).unwrap_err(), SaleError::AlreadyRedeemed);
    assert_eq!(s.withdraw_launchpad_tokens(ADMIN, 1400).unwrap_err(), SaleError::AlreadyRedeemed);
}

#[test]
fn owner_redeem_needs_a_launched_supply() {
    let mut s = sale_with_user();
    s.user_deposit(USER, 1010, 100).unwrap();
    assert_eq!(s.owner_redeem(ADMIN, 1200).unwrap_err(), SaleError::NothingToRedeem);
}

#[test]
fn shrinking_the_active_window_is_rejected() {
    let mut s = sale();
    // the user window [1000, 1100) is live at 1050 and may not shrink
    assert_eq!(
        s.set_user_deposit_withdraw_time(ADMIN, 1050, 50).unwrap_err(),
        SaleError::InvalidDuration
    );
    assert_eq!(
        s.set_owner_deposit_withdraw_time(ADMIN, 1120, 10).unwrap_err(),
        SaleError::InvalidDuration
    );
    assert_eq!(s.set_owner_redeem_time(ADMIN, 1200, 100).unwrap_err(), SaleError::InvalidDuration);
}

#[test]
fn elapsed_windows_are_frozen() {
    let mut s = sale();
    // once the owner window runs, the user window lies in the past
    assert_eq!(
        s.set_user_deposit_withdraw_time(ADMIN, 1120, 120).unwrap_err(),
        SaleError::WrongPhase
    );
    assert_eq!(
        s.set_owner_deposit_withdraw_time(ADMIN, 1200, 60).unwrap_err(),
        SaleError::WrongPhase
    );
    assert_eq!(s.set_owner_redeem_time(ADMIN, 1400, 250).unwrap_err(), SaleError::WrongPhase);
}

#[test]
fn duration_bounds_are_enforced() {
    let mut s = sale();
    let month: u64 = 60 * 60 * 24 * 30;
    assert_eq!(
        s.set_user_deposit_withdraw_time(ADMIN, 900, month + 1).unwrap_err(),
        SaleError::InvalidDuration
    );
    assert_eq!(
        s.set_owner_deposit_withdraw_time(ADMIN, 900, 0).unwrap_err(),
        SaleError::InvalidDuration
    );
    let quarter: u64 = 60 * 60 * 24 * 90;
    assert_eq!(
        s.set_owner_redeem_time(ADMIN, 900, quarter + 1).unwrap_err(),
        SaleError::InvalidDuration
    );
}

#[test]
fn min_launched_tokens_must_be_positive_and_early() {
    let mut s = sale();
    assert_eq!(s.set_min_launched_tokens(ADMIN, 1010, 0).unwrap_err(), SaleError::InvalidAmount);
    assert_eq!(s.set_min_launched_tokens(ADMIN, 1200, 5).unwrap_err(), SaleError::WrongPhase);
}

#[test]
fn limits_respect_current_deposits_and_the_floor() {
    let mut s = Sale::new(ADMIN, 1000, 100, 50, 200, 1, 100).unwrap();
    s.add_users_to_whitelist(ADMIN, 1000, vec![(USER, 0)]).unwrap();
    s.user_deposit(USER, 1010, 300).unwrap();
    assert_eq!(s.set_user_limit(ADMIN, USER, 200).unwrap_err(), SaleError::LimitBelowCurrentDeposit);
    assert_eq!(s.set_user_limit(ADMIN, USER, 0), Ok(()));
    let mut s2 = Sale::new(ADMIN, 1000, 100, 50, 200, 1, 100).unwrap();
    s2.add_users_to_whitelist(ADMIN, 1000, vec![(USER, 0)]).unwrap();
    assert_eq!(s2.set_user_limit(ADMIN, USER, 50).unwrap_err(), SaleError::BelowMinDeposit);
    assert_eq!(s2.set_user_limit(ADMIN, 42, 0).unwrap_err(), SaleError::NotWhitelisted);
}

#[test]
fn refund_lists_are_checked_before_any_change() {
    let mut s = sale_with_user();
    s.user_deposit(USER, 1010, 100).unwrap();
    // the administrator itself may not appear in the list
    assert_eq!(s.refund_users(ADMIN, 1020, vec![USER, ADMIN]).unwrap_err(), SaleError::Unauthorized);
    // a duplicate entry would redeem the same participant twice
    assert_eq!(
        s.refund_users(ADMIN, 1020, vec![USER, USER]).unwrap_err(),
        SaleError::NotWhitelisted
    );
    // an unknown participant rejects the whole batch
    assert_eq!(s.refund_users(ADMIN, 1020, vec![USER, 42]).unwrap_err(), SaleError::NotWhitelisted);
    // the failed calls changed nothing
    assert_eq!(s.total_deposit_by_user(USER), 100);
    assert!(s.is_user_whitelisted(USER));
    assert_eq!(s.accepted_token_balance(), 100);
    // refunds stop once the redeem phases begin
    assert_eq!(s.refund_users(ADMIN, 1200, vec![USER]).unwrap_err(), SaleError::WrongPhase);
    assert_eq!(
        s.add_users_to_whitelist(ADMIN, 1200, vec![(7, 0)]).unwrap_err(),
        SaleError::WrongPhase
    );
}

#[test]
fn redemption_respects_phase_and_membership() {
    let mut s = sale_with_user();
    s.user_deposit(USER, 1010, 100).unwrap();
    s.owner_deposit(ADMIN, 1110, 100).unwrap();
    assert_eq!(s.owner_redeem(ADMIN, 1120).unwrap_err(), SaleError::WrongPhase);
    assert_eq!(s.user_redeem(USER, 1200).unwrap_err(), SaleError::WrongPhase);
    assert_eq!(s.withdraw_launchpad_tokens(ADMIN, 1200).unwrap_err(), SaleError::WrongPhase);
    s.owner_redeem(ADMIN, 1200).unwrap();
    assert_eq!(s.user_redeem(42, 1400).unwrap_err(), SaleError::NotWhitelisted);
}
