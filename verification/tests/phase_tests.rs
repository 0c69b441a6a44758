use price_discovery::phase::{Phase, PhaseModule};
use price_discovery::state::Sale;

fn sale() -> Sale {
    // start 1000, user window 100, owner window 50, owner redeem window 200
    Sale::new(1, 1000, 100, 50, 200, 1, 0).unwrap()
}

fn phase_rank(p: Phase) -> u32 {
    match p {
        Phase::Idle => 0,
        Phase::UserDepositWithdraw => 1,
        Phase::OwnerDepositWithdraw => 2,
        Phase::OwnerRedeem => 3,
        Phase::UserRedeem => 4,
    }
}

#[test]
fn phase_boundaries_scenario() {
    let s = sale();
    assert_eq!(s.get_current_phase(0), Phase::Idle);
    assert_eq!(s.get_current_phase(999), Phase::Idle);
    assert_eq!(s.get_current_phase(1000), Phase::UserDepositWithdraw);
    assert_eq!(s.get_current_phase(1050), Phase::UserDepositWithdraw);
    assert_eq!(s.get_current_phase(1099), Phase::UserDepositWithdraw);
    assert_eq!(s.get_current_phase(1100), Phase::OwnerDepositWithdraw);
    assert_eq!(s.get_current_phase(1149), Phase::OwnerDepositWithdraw);
    // phase boundaries are half-open: the owner window ends as 1150 begins
    assert_eq!(s.get_current_phase(1150), Phase::OwnerRedeem);
    assert_eq!(s.get_current_phase(1200), Phase::OwnerRedeem);
    assert_eq!(s.get_current_phase(1349), Phase::OwnerRedeem);
    assert_eq!(s.get_current_phase(1350), Phase::UserRedeem);
    assert_eq!(s.get_current_phase(1400), Phase::UserRedeem);
    assert_eq!(s.get_current_phase(u64::MAX), Phase::UserRedeem);
}

#[test]
fn phase_is_deterministic() {
    let s = sale();
    for now in [0u64, 999, 1000, 1100, 1150, 1350, 5000] {
        assert_eq!(s.get_current_phase(now), s.get_current_phase(now));
    }
}

#[test]
fn phase_is_monotone_in_time() {
    let s = sale();
    let mut last: u32 = 0;
    for now in 0u64..2000 {
        let rank = phase_rank(s.get_current_phase(now));
        assert!(rank >= last);
        last = rank;
    }
}

#[test]
fn phase_guards_accept_exactly_their_phase() {
    let s = sale();
    assert!(s.require_user_deposit_withdraw_allowed(&Phase::UserDepositWithdraw).is_ok());
    assert!(s.require_user_deposit_withdraw_allowed(&Phase::Idle).is_err());
    assert!(s.require_owner_deposit_withdraw_allowed(&Phase::OwnerDepositWithdraw).is_ok());
    assert!(s.require_owner_deposit_withdraw_allowed(&Phase::OwnerRedeem).is_err());
    assert!(s.require_owner_redeem_allowed(&Phase::OwnerRedeem).is_ok());
    assert!(s.require_owner_redeem_allowed(&Phase::UserRedeem).is_err());
    assert!(s.require_user_redeem_allowed(&Phase::UserRedeem).is_ok());
    assert!(s.require_user_redeem_allowed(&Phase::OwnerRedeem).is_err());
    assert!(s.require_before_redeem(&Phase::Idle).is_ok());
    assert!(s.require_before_redeem(&Phase::UserDepositWithdraw).is_ok());
    assert!(s.require_before_redeem(&Phase::OwnerDepositWithdraw).is_ok());
    assert!(s.require_before_redeem(&Phase::OwnerRedeem).is_err());
    assert!(s.require_before_redeem(&Phase::UserRedeem).is_err());
}

#[test]
fn window_getters_report_configuration() {
    let s = sale();
    assert_eq!(s.user_deposit_withdraw_time(), 100);
    assert_eq!(s.owner_deposit_withdraw_time(), 50);
    assert_eq!(s.owner_redeem_time(), 200);
}
