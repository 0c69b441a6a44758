use vstd::prelude::*;

use crate::errors::SaleError;

verus! {

/// Upper bound on the user and owner deposit/withdraw window durations
/// (thirty days of seconds).
pub const MAX_PHASE_DURATION: u64 = 60 * 60 * 24 * 30;

/// Upper bound on the owner redeem window duration, which may be much longer
/// than the deposit windows (ninety days of seconds).
pub const MAX_LONG_PHASE_DURATION: u64 = 60 * 60 * 24 * 90;

/// The five phases of a sale, in the order they occur. The phase is never
/// stored: it is recomputed from the clock and the configured windows on
/// every call.
#[derive(Clone, Copy, Debug, PartialEq, Eq, Structural)]
pub enum Phase {
    Idle,
    UserDepositWithdraw,
    OwnerDepositWithdraw,
    OwnerRedeem,
    UserRedeem,
}

/// Position of a phase in the window sequence, for ordering comparisons.
pub open spec fn phase_idx(p: Phase) -> int {
    match p {
        Phase::Idle => 0,
        Phase::UserDepositWithdraw => 1,
        Phase::OwnerDepositWithdraw => 2,
        Phase::OwnerRedeem => 3,
        Phase::UserRedeem => 4,
    }
}

/// The sale's start time together with the three configured window
/// durations. Phase boundaries are cumulative sums of the durations,
/// starting at `start_time`.
#[derive(Clone, Copy, Debug, PartialEq, Eq, Structural)]
pub struct Timeline {
    pub start_time: u64,
    pub user_deposit_withdraw_time: u64,
    pub owner_deposit_withdraw_time: u64,
    pub owner_redeem_time: u64,
}

impl Timeline {
    /// End of the user deposit/withdraw window.
    pub open spec fn user_phase_end(self) -> int {
        self.start_time + self.user_deposit_withdraw_time
    }

    /// End of the owner deposit/withdraw window.
    pub open spec fn owner_phase_end(self) -> int {
        self.user_phase_end() + self.owner_deposit_withdraw_time
    }

    /// End of the owner redeem window.
    pub open spec fn owner_redeem_end(self) -> int {
        self.owner_phase_end() + self.owner_redeem_time
    }

    /// Every duration is positive and within its ceiling, and the start time
    /// leaves room for the boundary sums within `u64`.
    pub open spec fn wf(self) -> bool {
        &&& 0 < self.user_deposit_withdraw_time <= MAX_PHASE_DURATION
        &&& 0 < self.owner_deposit_withdraw_time <= MAX_PHASE_DURATION
        &&& 0 < self.owner_redeem_time <= MAX_LONG_PHASE_DURATION
        &&& self.start_time + 2 * MAX_PHASE_DURATION + MAX_LONG_PHASE_DURATION <= u64::MAX
    }
}

/// The phase at clock value `now`: a total, deterministic function of the
/// clock and the configured windows alone.
pub open spec fn phase_at(t: Timeline, now: u64) -> Phase {
    if now < t.start_time {
        Phase::Idle
    } else if now < t.user_phase_end() {
        Phase::UserDepositWithdraw
    } else if now < t.owner_phase_end() {
        Phase::OwnerDepositWithdraw
    } else if now < t.owner_redeem_end() {
        Phase::OwnerRedeem
    } else {
        Phase::UserRedeem
    }
}

/// Computes the phase at `now` for a given timeline.
pub fn current_phase_of(t: &Timeline, now: u64) -> (p: Phase)
    requires
        t.wf(),
    ensures
        p == phase_at(*t, now),
{
    if now < t.start_time {
        return Phase::Idle;
    }
    let user_phase_end = t.start_time + t.user_deposit_withdraw_time;
    if now < user_phase_end {
        return Phase::UserDepositWithdraw;
    }
    let owner_phase_end = user_phase_end + t.owner_deposit_withdraw_time;
    if now < owner_phase_end {
        return Phase::OwnerDepositWithdraw;
    }
    let owner_redeem_end = owner_phase_end + t.owner_redeem_time;
    if now < owner_redeem_end {
        return Phase::OwnerRedeem;
    }
    Phase::UserRedeem
}

/// With a fixed timeline the phase never moves backwards as the clock
/// advances.
pub proof fn lemma_phase_monotone(t: Timeline, a: u64, b: u64)
    requires
        a <= b,
    ensures
        phase_idx(phase_at(t, a)) <= phase_idx(phase_at(t, b)),
{
}

/// Phase lookup and phase-guard predicates, implemented by the sale engine.
pub trait PhaseModule {
    /// The configured timeline the phase is derived from.
    spec fn phase_timeline(&self) -> Timeline;

    /// Computes the current phase from the supplied clock value.
    fn get_current_phase(&self, now: u64) -> (p: Phase)
        requires
            self.phase_timeline().wf(),
        ensures
            p == phase_at(self.phase_timeline(), now),
    ;

    /// Accepts exactly the user deposit/withdraw phase.
    fn require_user_deposit_withdraw_allowed(&self, phase: &Phase) -> (r: Result<(), SaleError>)
        ensures
            r == (if *phase == Phase::UserDepositWithdraw {
                Ok::<(), SaleError>(())
            } else {
                Err::<(), SaleError>(SaleError::WrongPhase)
            }),
    {
        if *phase == Phase::UserDepositWithdraw {
            Ok(())
        } else {
            Err(SaleError::WrongPhase)
        }
    }

    /// Accepts exactly the owner deposit/withdraw phase.
    fn require_owner_deposit_withdraw_allowed(&self, phase: &Phase) -> (r: Result<(), SaleError>)
        ensures
            r == (if *phase == Phase::OwnerDepositWithdraw {
                Ok::<(), SaleError>(())
            } else {
                Err::<(), SaleError>(SaleError::WrongPhase)
            }),
    {
        if *phase == Phase::OwnerDepositWithdraw {
            Ok(())
        } else {
            Err(SaleError::WrongPhase)
        }
    }

    /// Accepts exactly the owner redeem phase.
    fn require_owner_redeem_allowed(&self, phase: &Phase) -> (r: Result<(), SaleError>)
        ensures
            r == (if *phase == Phase::OwnerRedeem {
                Ok::<(), SaleError>(())
            } else {
                Err::<(), SaleError>(SaleError::WrongPhase)
            }),
    {
        if *phase == Phase::OwnerRedeem {
            Ok(())
        } else {
            Err(SaleError::WrongPhase)
        }
    }

    /// Accepts exactly the user redeem phase.
    fn require_user_redeem_allowed(&self, phase: &Phase) -> (r: Result<(), SaleError>)
        ensures
            r == (if *phase == Phase::UserRedeem {
                Ok::<(), SaleError>(())
            } else {
                Err::<(), SaleError>(SaleError::WrongPhase)
            }),
    {
        if *phase == Phase::UserRedeem {
            Ok(())
        } else {
            Err(SaleError::WrongPhase)
        }
    }

    /// Accepts exactly the phases strictly before the owner redeem phase.
    fn require_before_redeem(&self, phase: &Phase) -> (r: Result<(), SaleError>)
        ensures
            r == (if phase_idx(*phase) < phase_idx(Phase::OwnerRedeem) {
                Ok::<(), SaleError>(())
            } else {
                Err::<(), SaleError>(SaleError::WrongPhase)
            }),
    {
        match *phase {
            Phase::Idle => Ok(()),
            Phase::UserDepositWithdraw => Ok(()),
            Phase::OwnerDepositWithdraw => Ok(()),
            _ => Err(SaleError::WrongPhase),
        }
    }

    /// Configured duration of the user deposit/withdraw window.
    fn user_deposit_withdraw_time(&self) -> (r: u64)
        ensures
            r == self.phase_timeline().user_deposit_withdraw_time,
    ;

    /// Configured duration of the owner deposit/withdraw window.
    fn owner_deposit_withdraw_time(&self) -> (r: u64)
        ensures
            r == self.phase_timeline().owner_deposit_withdraw_time,
    ;

    /// Configured duration of the owner redeem window.
    fn owner_redeem_time(&self) -> (r: u64)
        ensures
            r == self.phase_timeline().owner_redeem_time,
    ;
}

} // verus!
