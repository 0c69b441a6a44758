use vstd::prelude::*;

use crate::errors::SaleError;
use crate::phase::{
    lemma_phase_monotone, phase_at, phase_idx, Phase, PhaseModule, Timeline,
    MAX_LONG_PHASE_DURATION, MAX_PHASE_DURATION,
};
use crate::state::{
    balances_whitelisted, distinct_ids, has_user, lemma_sum_push, lemma_sum_update, same_config,
    same_redemption, same_state, sum_deposits, user_index, user_of, OwnerState, Refund, Sale,
    UserRecord,
};

verus! {

/// Adding one entry to the whitelist: a fresh id is appended with its cap,
/// a known id is re-whitelisted and keeps its stored record.
pub open spec fn wl_add_one(s: Seq<UserRecord>, id: u64, limit: u64) -> Seq<UserRecord> {
    if has_user(s, id) {
        s.update(user_index(s, id), (UserRecord { whitelisted: true, ..user_of(s, id) }))
    } else {
        s.push(
            (UserRecord {
                id,
                whitelisted: true,
                deposit_balance: 0,
                deposit_limit: limit,
                redeemed: false,
            }),
        )
    }
}

/// Adding a batch of `(id, cap)` entries, left to right.
pub open spec fn wl_add_all(s: Seq<UserRecord>, entries: Seq<(u64, u64)>) -> Seq<UserRecord>
    decreases entries.len(),
{
    if entries.len() == 0 {
        s
    } else {
        wl_add_all(wl_add_one(s, entries[0].0, entries[0].1), entries.drop_first())
    }
}

proof fn lemma_wl_add_all_snoc(s: Seq<UserRecord>, entries: Seq<(u64, u64)>, e: (u64, u64))
    ensures
        wl_add_all(s, entries.push(e)) == wl_add_one(wl_add_all(s, entries), e.0, e.1),
    decreases entries.len(),
{
    reveal_with_fuel(wl_add_all, 2);
    if entries.len() == 0 {
        assert(entries.push(e).drop_first() =~= Seq::<(u64, u64)>::empty());
        assert(entries.push(e)[0] == e);
    } else {
        assert(entries.push(e).drop_first() =~= entries.drop_first().push(e));
        assert(entries.push(e)[0] == entries[0]);
        lemma_wl_add_all_snoc(wl_add_one(s, entries[0].0, entries[0].1), entries.drop_first(), e);
    }
}

/// Removing one participant from the whitelist with a refund: membership
/// ends, the balance and cap reset to zero, identity and history stay.
pub open spec fn refund_one(s: Seq<UserRecord>, id: u64) -> Seq<UserRecord> {
    s.update(
        user_index(s, id),
        (UserRecord { whitelisted: false, deposit_balance: 0, deposit_limit: 0, ..user_of(s, id) }),
    )
}

/// Refunding a batch of ids, left to right.
pub open spec fn refund_all(s: Seq<UserRecord>, ids: Seq<u64>) -> Seq<UserRecord>
    decreases ids.len(),
{
    if ids.len() == 0 {
        s
    } else {
        refund_all(refund_one(s, ids[0]), ids.drop_first())
    }
}

/// The accepted tokens a refund batch returns: the listed participants'
/// balances, measured in the starting state.
pub open spec fn refund_total(s: Seq<UserRecord>, ids: Seq<u64>) -> int
    decreases ids.len(),
{
    if ids.len() == 0 {
        0
    } else {
        user_of(s, ids[0]).deposit_balance + refund_total(s, ids.drop_first())
    }
}

/// The refund instructions a batch produces, one per listed participant.
pub open spec fn refund_payments(s: Seq<UserRecord>, ids: Seq<u64>) -> Seq<Refund> {
    Seq::new(
        ids.len(),
        |k: int| (Refund { user_id: ids[k], amount: user_of(s, ids[k]).deposit_balance }),
    )
}

/// A refund list the engine accepts: no listed id is the administrator,
/// each is currently whitelisted, and no id repeats.
pub open spec fn refund_ids_ok(s: Seq<UserRecord>, ids: Seq<u64>, admin: u64) -> bool {
    &&& forall|k: int| 0 <= k < ids.len() ==> ids[k] != admin
    &&& forall|k: int|
        0 <= k < ids.len() ==> has_user(s, #[trigger] ids[k]) && user_of(s, ids[k]).whitelisted
    &&& forall|j: int, k: int| 0 <= j < k < ids.len() ==> ids[j] != ids[k]
}

/// Why position `k` of a refund list is rejected, if it is: it names the
/// administrator, an unknown or unlisted participant, or an id already
/// seen earlier in the list.
pub open spec fn refund_entry_bad(s: Seq<UserRecord>, ids: Seq<u64>, admin: u64, k: int) -> bool {
    ||| ids[k] == admin
    ||| !(has_user(s, ids[k]) && user_of(s, ids[k]).whitelisted)
    ||| exists|j: int| 0 <= j < k && ids[j] == ids[k]
}

/// The error a bad refund entry draws.
pub open spec fn refund_entry_error(s: Seq<UserRecord>, ids: Seq<u64>, admin: u64, k: int) -> SaleError {
    if ids[k] == admin {
        SaleError::Unauthorized
    } else {
        SaleError::NotWhitelisted
    }
}

proof fn lemma_refund_all_snoc(s: Seq<UserRecord>, ids: Seq<u64>, x: u64)
    ensures
        refund_all(s, ids.push(x)) == refund_one(refund_all(s, ids), x),
    decreases ids.len(),
{
    reveal_with_fuel(refund_all, 2);
    if ids.len() == 0 {
        assert(ids.push(x).drop_first() =~= Seq::<u64>::empty());
        assert(ids.push(x)[0] == x);
    } else {
        assert(ids.push(x).drop_first() =~= ids.drop_first().push(x));
        assert(ids.push(x)[0] == ids[0]);
        lemma_refund_all_snoc(refund_one(s, ids[0]), ids.drop_first(), x);
    }
}

proof fn lemma_refund_total_snoc(s: Seq<UserRecord>, ids: Seq<u64>, x: u64)
    ensures
        refund_total(s, ids.push(x)) == refund_total(s, ids) + user_of(s, x).deposit_balance,
    decreases ids.len(),
{
    reveal_with_fuel(refund_total, 2);
    if ids.len() == 0 {
        assert(ids.push(x).drop_first() =~= Seq::<u64>::empty());
        assert(ids.push(x)[0] == x);
    } else {
        assert(ids.push(x).drop_first() =~= ids.drop_first().push(x));
        assert(ids.push(x)[0] == ids[0]);
        lemma_refund_total_snoc(s, ids.drop_first(), x);
    }
}

/// Accepts a short-window duration: positive and at most the short ceiling.
pub fn require_valid_timestamp(timestamp: u64) -> (r: Result<(), SaleError>)
    ensures
        r == (if 0 < timestamp <= MAX_PHASE_DURATION {
            Ok::<(), SaleError>(())
        } else {
            Err::<(), SaleError>(SaleError::InvalidDuration)
        }),
{
    if 0 < timestamp && timestamp <= MAX_PHASE_DURATION {
        Ok(())
    } else {
        Err(SaleError::InvalidDuration)
    }
}

/// Accepts an owner-redeem-window duration: positive and at most the long
/// ceiling.
pub fn require_valid_long_timestamp(timestamp: u64) -> (r: Result<(), SaleError>)
    ensures
        r == (if 0 < timestamp <= MAX_LONG_PHASE_DURATION {
            Ok::<(), SaleError>(())
        } else {
            Err::<(), SaleError>(SaleError::InvalidDuration)
        }),
{
    if 0 < timestamp && timestamp <= MAX_LONG_PHASE_DURATION {
        Ok(())
    } else {
        Err(SaleError::InvalidDuration)
    }
}

/// The administrator's control surface: window edits, caps, the
/// whitelist, and batch refunds, implemented by the sale engine.
pub trait AdminActionsModule {
    /// The engine state the contracts below speak about.
    spec fn sale_state(&self) -> Sale;

    /// Accepts only the configured administrator.
    fn require_caller_admin(&self, caller: u64) -> (r: Result<(), SaleError>)
        ensures
            r == (if caller == self.sale_state().admin {
                Ok::<(), SaleError>(())
            } else {
                Err::<(), SaleError>(SaleError::Unauthorized)
            }),
    ;

    /// Sets the duration of the user deposit/withdraw window. While that
    /// window is active it may only be extended, and the edit must not move
    /// the current phase.
    fn set_user_deposit_withdraw_time(
        &mut self,
        caller: u64,
        now: u64,
        user_deposit_withdraw_time: u64,
    ) -> (r: Result<(), SaleError>)
        requires
            old(self).sale_state().wf(),
            now >= old(self).sale_state().time_seen,
        ensures
            final(self).sale_state().wf(),
            final(self).sale_state().time_seen >= old(self).sale_state().time_seen,
            r is Err ==> same_state(final(self).sale_state(), old(self).sale_state()),
            ({
                let s = old(self).sale_state();
                let p = phase_at(s.timeline, now);
                let t = (Timeline { user_deposit_withdraw_time, ..s.timeline });
                if caller != s.admin {
                    r == Err::<(), SaleError>(SaleError::Unauthorized)
                } else if !(0 < user_deposit_withdraw_time <= MAX_PHASE_DURATION) {
                    r == Err::<(), SaleError>(SaleError::InvalidDuration)
                } else if p == Phase::UserDepositWithdraw && user_deposit_withdraw_time
                    < s.timeline.user_deposit_withdraw_time {
                    r == Err::<(), SaleError>(SaleError::InvalidDuration)
                } else if phase_idx(p) > phase_idx(Phase::UserDepositWithdraw) {
                    r == Err::<(), SaleError>(SaleError::WrongPhase)
                } else if phase_at(t, now) != p {
                    r == Err::<(), SaleError>(SaleError::InvalidTimestampChange)
                } else {
                    &&& r == Ok::<(), SaleError>(())
                    &&& final(self).sale_state().timeline == t
                    &&& final(self).sale_state().time_seen == now
                    &&& same_redemption(final(self).sale_state(), s)
                    &&& final(self).sale_state().admin == s.admin
                    &&& final(self).sale_state().min_launched_tokens == s.min_launched_tokens
                    &&& final(self).sale_state().user_min_deposit == s.user_min_deposit
                    &&& final(self).sale_state().launched_token_total == s.launched_token_total
                    &&& final(self).sale_state().accepted_token_total == s.accepted_token_total
                    &&& final(self).sale_state().users@ == s.users@
                }
            }),
    ;

    /// Sets the duration of the owner deposit/withdraw window, under the
    /// same extend-only and phase-stability rules.
    fn set_owner_deposit_withdraw_time(
        &mut self,
        caller: u64,
        now: u64,
        owner_deposit_withdraw_time: u64,
    ) -> (r: Result<(), SaleError>)
        requires
            old(self).sale_state().wf(),
            now >= old(self).sale_state().time_seen,
        ensures
            final(self).sale_state().wf(),
            final(self).sale_state().time_seen >= old(self).sale_state().time_seen,
            r is Err ==> same_state(final(self).sale_state(), old(self).sale_state()),
            ({
                let s = old(self).sale_state();
                let p = phase_at(s.timeline, now);
                let t = (Timeline { owner_deposit_withdraw_time, ..s.timeline });
                if caller != s.admin {
                    r == Err::<(), SaleError>(SaleError::Unauthorized)
                } else if !(0 < owner_deposit_withdraw_time <= MAX_PHASE_DURATION) {
                    r == Err::<(), SaleError>(SaleError::InvalidDuration)
                } else if p == Phase::OwnerDepositWithdraw && owner_deposit_withdraw_time
                    < s.timeline.owner_deposit_withdraw_time {
                    r == Err::<(), SaleError>(SaleError::InvalidDuration)
                } else if phase_idx(p) > phase_idx(Phase::OwnerDepositWithdraw) {
                    r == Err::<(), SaleError>(SaleError::WrongPhase)
                } else if phase_at(t, now) != p {
                    r == Err::<(), SaleError>(SaleError::InvalidTimestampChange)
                } else {
                    &&& r == Ok::<(), SaleError>(())
                    &&& final(self).sale_state().timeline == t
                    &&& final(self).sale_state().time_seen == now
                    &&& same_redemption(final(self).sale_state(), s)
                    &&& final(self).sale_state().admin == s.admin
                    &&& final(self).sale_state().min_launched_tokens == s.min_launched_tokens
                    &&& final(self).sale_state().user_min_deposit == s.user_min_deposit
                    &&& final(self).sale_state().launched_token_total == s.launched_token_total
                    &&& final(self).sale_state().accepted_token_total == s.accepted_token_total
                    &&& final(self).sale_state().users@ == s.users@
                }
            }),
    ;

    /// Sets the duration of the owner redeem window, under the same
    /// extend-only and phase-stability rules, with the longer ceiling.
    fn set_owner_redeem_time(&mut self, caller: u64, now: u64, owner_redeem_time: u64) -> (r:
        Result<(), SaleError>)
        requires
            old(self).sale_state().wf(),
            now >= old(self).sale_state().time_seen,
        ensures
            final(self).sale_state().wf(),
            final(self).sale_state().time_seen >= old(self).sale_state().time_seen,
            r is Err ==> same_state(final(self).sale_state(), old(self).sale_state()),
            ({
                let s = old(self).sale_state();
                let p = phase_at(s.timeline, now);
                let t = (Timeline { owner_redeem_time, ..s.timeline });
                if caller != s.admin {
                    r == Err::<(), SaleError>(SaleError::Unauthorized)
                } else if !(0 < owner_redeem_time <= MAX_LONG_PHASE_DURATION) {
                    r == Err::<(), SaleError>(SaleError::InvalidDuration)
                } else if p == Phase::OwnerRedeem && owner_redeem_time
                    < s.timeline.owner_redeem_time {
                    r == Err::<(), SaleError>(SaleError::InvalidDuration)
                } else if phase_idx(p) > phase_idx(Phase::OwnerRedeem) {
                    r == Err::<(), SaleError>(SaleError::WrongPhase)
                } else if phase_at(t, now) != p {
                    r == Err::<(), SaleError>(SaleError::InvalidTimestampChange)
                } else {
                    &&& r == Ok::<(), SaleError>(())
                    &&& final(self).sale_state().timeline == t
                    &&& final(self).sale_state().time_seen == now
                    &&& same_redemption(final(self).sale_state(), s)
                    &&& final(self).sale_state().admin == s.admin
                    &&& final(self).sale_state().min_launched_tokens == s.min_launched_tokens
                    &&& final(self).sale_state().user_min_deposit == s.user_min_deposit
                    &&& final(self).sale_state().launched_token_total == s.launched_token_total
                    &&& final(self).sale_state().accepted_token_total == s.accepted_token_total
                    &&& final(self).sale_state().users@ == s.users@
                }
            }),
    ;

    /// Sets the minimum launched supply the owner is expected to deposit;
    /// admin-only, positive, and only before the redeem phases begin.
    fn set_min_launched_tokens(&mut self, caller: u64, now: u64, min_launched_tokens: u64) -> (r:
        Result<(), SaleError>)
        requires
            old(self).sale_state().wf(),
            now >= old(self).sale_state().time_seen,
        ensures
            final(self).sale_state().wf(),
            final(self).sale_state().time_seen >= old(self).sale_state().time_seen,
            r is Err ==> same_state(final(self).sale_state(), old(self).sale_state()),
            ({
                let s = old(self).sale_state();
                let p = phase_at(s.timeline, now);
                if caller != s.admin {
                    r == Err::<(), SaleError>(SaleError::Unauthorized)
                } else if min_launched_tokens == 0 {
                    r == Err::<(), SaleError>(SaleError::InvalidAmount)
                } else if phase_idx(p) >= phase_idx(Phase::OwnerRedeem) {
                    r == Err::<(), SaleError>(SaleError::WrongPhase)
                } else {
                    &&& r == Ok::<(), SaleError>(())
                    &&& final(self).sale_state().min_launched_tokens == min_launched_tokens
                    &&& final(self).sale_state().time_seen == now
                    &&& same_redemption(final(self).sale_state(), s)
                    &&& final(self).sale_state().admin == s.admin
                    &&& final(self).sale_state().timeline == s.timeline
                    &&& final(self).sale_state().user_min_deposit == s.user_min_deposit
                    &&& final(self).sale_state().launched_token_total == s.launched_token_total
                    &&& final(self).sale_state().accepted_token_total == s.accepted_token_total
                    &&& final(self).sale_state().users@ == s.users@
                }
            }),
    ;

    /// Sets a participant's deposit cap. A cap of zero means unlimited; a
    /// nonzero cap must cover the participant's current deposit and respect
    /// the global floor.
    fn set_user_limit(&mut self, caller: u64, user_id: u64, limit: u64) -> (r: Result<
        (),
        SaleError,
    >)
        requires
            old(self).sale_state().wf(),
        ensures
            final(self).sale_state().wf(),
            final(self).sale_state().time_seen == old(self).sale_state().time_seen,
            r is Err ==> same_state(final(self).sale_state(), old(self).sale_state()),
            ({
                let s = old(self).sale_state();
                let u = user_of(s.users@, user_id);
                if caller != s.admin {
                    r == Err::<(), SaleError>(SaleError::Unauthorized)
                } else if !crate::state::has_user(s.users@, user_id) {
                    r == Err::<(), SaleError>(SaleError::NotWhitelisted)
                } else if u.deposit_balance != 0 && limit != 0 && u.deposit_balance > limit {
                    r == Err::<(), SaleError>(SaleError::LimitBelowCurrentDeposit)
                } else if limit != 0 && limit < s.user_min_deposit {
                    r == Err::<(), SaleError>(SaleError::BelowMinDeposit)
                } else {
                    &&& r == Ok::<(), SaleError>(())
                    &&& final(self).sale_state().users@ == s.users@.update(
                        user_index(s.users@, user_id),
                        (UserRecord { deposit_limit: limit, ..u }),
                    )
                    &&& same_config(final(self).sale_state(), s)
                    &&& same_redemption(final(self).sale_state(), s)
                    &&& final(self).sale_state().launched_token_total == s.launched_token_total
                    &&& final(self).sale_state().accepted_token_total == s.accepted_token_total
                }
            }),
    ;

    /// Whitelists a batch of `(id, cap)` pairs; admin-only, and only
    /// before the redeem phases begin. A cap of zero means unlimited.
    /// Re-listing a known id restores membership and keeps its record.
    fn add_users_to_whitelist(&mut self, caller: u64, now: u64, whitelist: Vec<(u64, u64)>) -> (r:
        Result<(), SaleError>)
        requires
            old(self).sale_state().wf(),
            now >= old(self).sale_state().time_seen,
        ensures
            final(self).sale_state().wf(),
            final(self).sale_state().time_seen >= old(self).sale_state().time_seen,
            r is Err ==> same_state(final(self).sale_state(), old(self).sale_state()),
            ({
                let s = old(self).sale_state();
                let p = phase_at(s.timeline, now);
                if caller != s.admin {
                    r == Err::<(), SaleError>(SaleError::Unauthorized)
                } else if phase_idx(p) >= phase_idx(Phase::OwnerRedeem) {
                    r == Err::<(), SaleError>(SaleError::WrongPhase)
                } else {
                    &&& r == Ok::<(), SaleError>(())
                    &&& final(self).sale_state().users@ == wl_add_all(s.users@, whitelist@)
                    &&& final(self).sale_state().time_seen == now
                    &&& same_config(final(self).sale_state(), s)
                    &&& same_redemption(final(self).sale_state(), s)
                    &&& final(self).sale_state().launched_token_total == s.launched_token_total
                    &&& final(self).sale_state().accepted_token_total == s.accepted_token_total
                }
            }),
    ;

    /// Removes a batch of participants from the whitelist and produces
    /// their refunds; admin-only, only before the redeem phases, and never
    /// for the administrator itself. The whole call fails before any state
    /// changes when a listed id is invalid.
    fn refund_users(&mut self, caller: u64, now: u64, users: Vec<u64>) -> (r: Result<
        Vec<Refund>,
        SaleError,
    >)
        requires
            old(self).sale_state().wf(),
            now >= old(self).sale_state().time_seen,
        ensures
            final(self).sale_state().wf(),
            final(self).sale_state().time_seen >= old(self).sale_state().time_seen,
            r is Err ==> same_state(final(self).sale_state(), old(self).sale_state()),
            ({
                let s = old(self).sale_state();
                let p = phase_at(s.timeline, now);
                if caller != s.admin {
                    r == Err::<Vec<Refund>, SaleError>(SaleError::Unauthorized)
                } else if phase_idx(p) >= phase_idx(Phase::OwnerRedeem) {
                    r == Err::<Vec<Refund>, SaleError>(SaleError::WrongPhase)
                } else if !refund_ids_ok(s.users@, users@, s.admin) {
                    exists|k: int|
                        {
                            &&& 0 <= k < users@.len()
                            &&& #[trigger] refund_entry_bad(s.users@, users@, s.admin, k)
                            &&& (forall|j: int|
                                0 <= j < k ==> !refund_entry_bad(s.users@, users@, s.admin, j))
                            &&& r == Err::<Vec<Refund>, SaleError>(
                                refund_entry_error(s.users@, users@, s.admin, k),
                            )
                        }
                } else {
                    &&& (r matches Ok(v) && v@ == refund_payments(s.users@, users@))
                    &&& final(self).sale_state().users@ == refund_all(s.users@, users@)
                    &&& final(self).sale_state().accepted_token_total == s.accepted_token_total - refund_total(
                        s.users@,
                        users@,
                    )
                    &&& final(self).sale_state().time_seen == now
                    &&& same_config(final(self).sale_state(), s)
                    &&& same_redemption(final(self).sale_state(), s)
                    &&& final(self).sale_state().launched_token_total == s.launched_token_total
                }
            }),
    ;
}

impl Sale {
    /// Installs a new timeline after the two transactional phase checks:
    /// the current phase must not lie past the window being edited, and the
    /// edit must leave the current phase exactly where it was.
    fn set_timestamp(&mut self, now: u64, new_timeline: Timeline, required_phase_limit: Phase) -> (r:
        Result<(), SaleError>)
        requires
            old(self).wf(),
            now >= old(self).time_seen,
            new_timeline.wf(),
            phase_idx(required_phase_limit) <= phase_idx(Phase::OwnerRedeem),
        ensures
            final(self).wf(),
            final(self).time_seen >= old(self).time_seen,
            r is Err ==> same_state(*final(self), *old(self)),
            ({
                let s = *old(self);
                let p = phase_at(s.timeline, now);
                if phase_idx(p) > phase_idx(required_phase_limit) {
                    r == Err::<(), SaleError>(SaleError::WrongPhase)
                } else if phase_at(new_timeline, now) != p {
                    r == Err::<(), SaleError>(SaleError::InvalidTimestampChange)
                } else {
                    &&& r == Ok::<(), SaleError>(())
                    &&& final(self).timeline == new_timeline
                    &&& final(self).time_seen == now
                    &&& same_redemption(*final(self), s)
                    &&& final(self).admin == s.admin
                    &&& final(self).min_launched_tokens == s.min_launched_tokens
                    &&& final(self).user_min_deposit == s.user_min_deposit
                    &&& final(self).launched_token_total == s.launched_token_total
                    &&& final(self).accepted_token_total == s.accepted_token_total
                    &&& final(self).users@ == s.users@
                }
            }),
    {
        let ghost s = *self;
        let phase_before = self.get_current_phase(now);
        let limit_ok = match (phase_before, required_phase_limit) {
            (Phase::Idle, _) => true,
            (Phase::UserDepositWithdraw, Phase::Idle) => false,
            (Phase::UserDepositWithdraw, _) => true,
            (Phase::OwnerDepositWithdraw, Phase::OwnerDepositWithdraw) => true,
            (Phase::OwnerDepositWithdraw, Phase::OwnerRedeem) => true,
            (Phase::OwnerDepositWithdraw, _) => false,
            (Phase::OwnerRedeem, Phase::OwnerRedeem) => true,
            (Phase::OwnerRedeem, _) => false,
            (Phase::UserRedeem, _) => false,
        };
        if !limit_ok {
            return Err(SaleError::WrongPhase);
        }
        let phase_after = crate::phase::current_phase_of(&new_timeline, now);
        if phase_after != phase_before {
            return Err(SaleError::InvalidTimestampChange);
        }
        self.timeline = new_timeline;
        self.time_seen = now;
        proof {
            lemma_phase_monotone(s.timeline, s.time_seen, now);
        }
        Ok(())
    }

    /// Applies a new per-participant cap after checking the global floor.
    fn set_user_deposit_limit(&mut self, i: usize, limit: u64) -> (r: Result<(), SaleError>)
        requires
            old(self).wf(),
            i < old(self).users@.len(),
        ensures
            final(self).wf(),
            final(self).time_seen == old(self).time_seen,
            r is Err ==> same_state(*final(self), *old(self)),
            ({
                let s = *old(self);
                if limit != 0 && limit < s.user_min_deposit {
                    r == Err::<(), SaleError>(SaleError::BelowMinDeposit)
                } else {
                    &&& r == Ok::<(), SaleError>(())
                    &&& final(self).users@ == s.users@.update(
                        i as int,
                        (UserRecord { deposit_limit: limit, ..s.users@[i as int] }),
                    )
                    &&& same_config(*final(self), s)
                    &&& same_redemption(*final(self), s)
                    &&& final(self).launched_token_total == s.launched_token_total
                    &&& final(self).accepted_token_total == s.accepted_token_total
                }
            }),
    {
        let ghost s = *self;
        if limit != 0 && limit < self.user_min_deposit {
            return Err(SaleError::BelowMinDeposit);
        }
        let u = self.users[i];
        proof {
            lemma_sum_update(s.users@, i as int, (UserRecord { deposit_limit: limit, ..u }));
        }
        self.users.set(i, UserRecord { deposit_limit: limit, ..u });
        Ok(())
    }

    /// Removes one whitelisted participant and produces their refund;
    /// shared step of the batch refund. The caller has already checked the
    /// administrator role and the phase.
    fn refund_single_user(&mut self, user_id: u64) -> (refund: Refund)
        requires
            old(self).wf(),
            has_user(old(self).users@, user_id),
            old(self).taken_for_payout == 0,
            old(self).taken_for_refund == 0,
            old(self).owner_state != OwnerState::Redeemed,
        ensures
            final(self).wf(),
            final(self).users@ == refund_one(old(self).users@, user_id),
            refund == (Refund {
                user_id,
                amount: user_of(old(self).users@, user_id).deposit_balance,
            }),
            final(self).accepted_token_total == old(self).accepted_token_total - refund.amount,
            same_config(*final(self), *old(self)),
            same_redemption(*final(self), *old(self)),
            final(self).launched_token_total == old(self).launched_token_total,
            final(self).time_seen == old(self).time_seen,
    {
        let ghost before = self.users@;
        let i: usize;
        match self.find_user(user_id) {
            Some(ii) => {
                i = ii;
            },
            None => {
                // the caller guarantees the id is present, so this arm
                // is provably unreachable
                proof {
                    assert(false);
                }
                i = 0;
            },
        }
        let u = self.users[i];
        let d = u.deposit_balance;
        let cleared = UserRecord {
            whitelisted: false,
            deposit_balance: 0,
            deposit_limit: 0,
            ..u
        };
        proof {
            crate::state::lemma_update_preserves_lookup(before, i as int, cleared);
            lemma_sum_update(before, i as int, cleared);
            crate::state::lemma_sum_element_bound(before, i as int);
            crate::state::lemma_sum_nonneg(before);
        }
        self.users.set(i, cleared);
        self.accepted_token_total = self.accepted_token_total - d;
        proof {
            let ghost paid0 = old(self).launched_tokens_paid as int;
            let ghost acc0 = old(self).accepted_token_total as int;
            let ghost l0 = old(self).launched_token_total as int;
            assert(paid0 == 0) by {
                if acc0 > 0 {
                    assert(paid0 * acc0 <= 0) by (nonlinear_arith)
                        requires
                            paid0 * acc0 <= l0 * 0,
                            0 <= l0,
                    ;
                    assert(paid0 == 0) by (nonlinear_arith)
                        requires
                            paid0 * acc0 <= 0,
                            acc0 > 0,
                            0 <= paid0,
                    ;
                }
            }
            assert(self.launched_tokens_paid * self.accepted_token_total <= self.launched_token_total
                * self.taken_for_payout) by (nonlinear_arith)
                requires
                    self.launched_tokens_paid == 0,
                    self.taken_for_payout == 0,
            ;
            assert(self.launched_token_total * self.taken_for_payout <= (self.launched_tokens_paid
                + self.payout_count) * self.accepted_token_total) by (nonlinear_arith)
                requires
                    self.taken_for_payout == 0,
                    self.payout_count <= self.taken_for_payout,
                    0 <= self.accepted_token_total,
                    0 <= self.launched_token_total,
            ;
        }
        Refund { user_id, amount: d }
    }
}

impl AdminActionsModule for Sale {
    open spec fn sale_state(&self) -> Sale {
        *self
    }

    fn require_caller_admin(&self, caller: u64) -> (r: Result<(), SaleError>)
    {
        if caller == self.admin {
            Ok(())
        } else {
            Err(SaleError::Unauthorized)
        }
    }

    fn set_user_deposit_withdraw_time(
        &mut self,
        caller: u64,
        now: u64,
        user_deposit_withdraw_time: u64,
    ) -> (r: Result<(), SaleError>)
    {
        match self.require_caller_admin(caller) {
            Ok(()) => (),
            Err(e) => {
                return Err(e);
            },
        }
        match require_valid_timestamp(user_deposit_withdraw_time) {
            Ok(()) => (),
            Err(e) => {
                return Err(e);
            },
        }
        let current_phase = self.get_current_phase(now);
        if current_phase == Phase::UserDepositWithdraw {
            let current_time = self.timeline.user_deposit_withdraw_time;
            if user_deposit_withdraw_time < current_time {
                return Err(SaleError::InvalidDuration);
            }
        }
        let new_timeline = Timeline { user_deposit_withdraw_time, ..self.timeline };
        self.set_timestamp(now, new_timeline, Phase::UserDepositWithdraw)
    }

    fn set_owner_deposit_withdraw_time(
        &mut self,
        caller: u64,
        now: u64,
        owner_deposit_withdraw_time: u64,
    ) -> (r: Result<(), SaleError>)
    {
        match self.require_caller_admin(caller) {
            Ok(()) => (),
            Err(e) => {
                return Err(e);
            },
        }
        match require_valid_timestamp(owner_deposit_withdraw_time) {
            Ok(()) => (),
            Err(e) => {
                return Err(e);
            },
        }
        let current_phase = self.get_current_phase(now);
        if current_phase == Phase::OwnerDepositWithdraw {
            let current_time = self.timeline.owner_deposit_withdraw_time;
            if owner_deposit_withdraw_time < current_time {
                return Err(SaleError::InvalidDuration);
            }
        }
        let new_timeline = Timeline { owner_deposit_withdraw_time, ..self.timeline };
        self.set_timestamp(now, new_timeline, Phase::OwnerDepositWithdraw)
    }

    fn set_owner_redeem_time(&mut self, caller: u64, now: u64, owner_redeem_time: u64) -> (r:
        Result<(), SaleError>)
    {
        match self.require_caller_admin(caller) {
            Ok(()) => (),
            Err(e) => {
                return Err(e);
            },
        }
        match require_valid_long_timestamp(owner_redeem_time) {
            Ok(()) => (),
            Err(e) => {
                return Err(e);
            },
        }
        let current_phase = self.get_current_phase(now);
        if current_phase == Phase::OwnerRedeem {
            let current_time = self.timeline.owner_redeem_time;
            if owner_redeem_time < current_time {
                return Err(SaleError::InvalidDuration);
            }
        }
        let new_timeline = Timeline { owner_redeem_time, ..self.timeline };
        self.set_timestamp(now, new_timeline, Phase::OwnerRedeem)
    }

    fn set_min_launched_tokens(&mut self, caller: u64, now: u64, min_launched_tokens: u64) -> (r:
        Result<(), SaleError>)
    {
        let ghost s = *self;
        match self.require_caller_admin(caller) {
            Ok(()) => (),
            Err(e) => {
                return Err(e);
            },
        }
        if min_launched_tokens == 0 {
            return Err(SaleError::InvalidAmount);
        }
        let phase = self.get_current_phase(now);
        match self.require_before_redeem(&phase) {
            Ok(()) => (),
            Err(e) => {
                return Err(e);
            },
        }
        proof {
            lemma_phase_monotone(s.timeline, s.time_seen, now);
        }
        self.min_launched_tokens = min_launched_tokens;
        self.time_seen = now;
        Ok(())
    }

    fn set_user_limit(&mut self, caller: u64, user_id: u64, limit: u64) -> (r: Result<
        (),
        SaleError,
    >)
    {
        match self.require_caller_admin(caller) {
            Ok(()) => (),
            Err(e) => {
                return Err(e);
            },
        }
        let i = match self.find_user(user_id) {
            Some(i) => i,
            None => {
                return Err(SaleError::NotWhitelisted);
            },
        };
        let u = self.users[i];
        if u.deposit_balance != 0 && limit != 0 && u.deposit_balance > limit {
            return Err(SaleError::LimitBelowCurrentDeposit);
        }
        self.set_user_deposit_limit(i, limit)
    }

    fn add_users_to_whitelist(&mut self, caller: u64, now: u64, whitelist: Vec<(u64, u64)>) -> (r:
        Result<(), SaleError>)
    {
        let ghost s = *self;
        match self.require_caller_admin(caller) {
            Ok(()) => (),
            Err(e) => {
                return Err(e);
            },
        }
        let phase = self.get_current_phase(now);
        match self.require_before_redeem(&phase) {
            Ok(()) => (),
            Err(e) => {
                return Err(e);
            },
        }
        let n = whitelist.len();
        let mut k: usize = 0;
        while k < n
            invariant
                n == whitelist@.len(),
                0 <= k <= n,
                s.wf(),
                self.users@ == wl_add_all(s.users@, whitelist@.take(k as int)),
                distinct_ids(self.users@),
                balances_whitelisted(self.users@),
                sum_deposits(self.users@) == sum_deposits(s.users@),
                same_config(*self, s),
                same_redemption(*self, s),
                self.launched_token_total == s.launched_token_total,
                self.accepted_token_total == s.accepted_token_total,
                self.time_seen == s.time_seen,
            decreases n - k,
        {
            let (id, limit) = whitelist[k];
            let ghost before = self.users@;
            match self.find_user(id) {
                Some(i) => {
                    let u = self.users[i];
                    proof {
                        crate::state::lemma_update_preserves_lookup(
                            before,
                            i as int,
                            (UserRecord { whitelisted: true, ..u }),
                        );
                        lemma_sum_update(before, i as int, (UserRecord { whitelisted: true, ..u }));
                    }
                    self.users.set(i, UserRecord { whitelisted: true, ..u });
                },
                None => {
                    let fresh = UserRecord {
                        id,
                        whitelisted: true,
                        deposit_balance: 0,
                        deposit_limit: limit,
                        redeemed: false,
                    };
                    proof {
                        crate::state::lemma_push_preserves_lookup(before, fresh);
                        lemma_sum_push(before, fresh);
                    }
                    self.users.push(fresh);
                },
            }
            proof {
                assert(self.users@ == wl_add_one(before, id, limit));
                lemma_wl_add_all_snoc(s.users@, whitelist@.take(k as int), (id, limit));
                assert(whitelist@.take(k as int).push((id, limit)) =~= whitelist@.take(
                    k as int + 1,
                ));
            }
            k = k + 1;
        }
        proof {
            assert(whitelist@.take(n as int) =~= whitelist@);
            lemma_phase_monotone(s.timeline, s.time_seen, now);
        }
        self.time_seen = now;
        proof {
            assert(self.launched_tokens_paid * self.accepted_token_total <= self.launched_token_total
                * self.taken_for_payout);
        }
        Ok(())
    }

    fn refund_users(&mut self, caller: u64, now: u64, users: Vec<u64>) -> (r: Result<
        Vec<Refund>,
        SaleError,
    >)
    {
        let ghost s = *self;
        match self.require_caller_admin(caller) {
            Ok(()) => (),
            Err(e) => {
                return Err(e);
            },
        }
        let phase = self.get_current_phase(now);
        match self.require_before_redeem(&phase) {
            Ok(()) => (),
            Err(e) => {
                return Err(e);
            },
        }
        let n = users.len();
        let mut k: usize = 0;
        while k < n
            invariant
                n == users@.len(),
                0 <= k <= n,
                *self == s,
                s == *old(self),
                s.wf(),
                caller == s.admin,
                now >= s.time_seen,
                phase_idx(phase_at(s.timeline, now)) < phase_idx(Phase::OwnerRedeem),
                forall|m: int| 0 <= m < k ==> users@[m] != s.admin,
                forall|m: int|
                    0 <= m < k ==> has_user(s.users@, #[trigger] users@[m]) && user_of(
                        s.users@,
                        users@[m],
                    ).whitelisted,
                forall|j: int, m: int| 0 <= j < m < k ==> users@[j] != users@[m],
            decreases n - k,
        {
            let id = users[k];
            if id == self.admin {
                proof {
                    assert(refund_entry_bad(s.users@, users@, s.admin, k as int));
                    assert(forall|j: int|
                        0 <= j < k ==> !refund_entry_bad(s.users@, users@, s.admin, j));
                }
                return Err(SaleError::Unauthorized);
            }
            match self.require_user_whitelisted(id) {
                Ok(_) => (),
                Err(e) => {
                    proof {
                        assert(refund_entry_bad(s.users@, users@, s.admin, k as int));
                        assert(forall|j: int|
                            0 <= j < k ==> !refund_entry_bad(s.users@, users@, s.admin, j));
                    }
                    return Err(e);
                },
            }
            let mut j: usize = 0;
            while j < k
                invariant
                    0 <= j <= k < n,
                    n == users@.len(),
                    *self == s,
                    s == *old(self),
                    s.wf(),
                    caller == s.admin,
                    now >= s.time_seen,
                    phase_idx(phase_at(s.timeline, now)) < phase_idx(Phase::OwnerRedeem),
                    id == users@[k as int],
                    forall|m: int| 0 <= m < j ==> users@[m] != users@[k as int],
                    forall|m: int| 0 <= m < k ==> users@[m] != s.admin,
                    forall|m: int|
                        0 <= m < k ==> has_user(s.users@, #[trigger] users@[m]) && user_of(
                            s.users@,
                            users@[m],
                        ).whitelisted,
                    forall|j2: int, m: int| 0 <= j2 < m < k ==> users@[j2] != users@[m],
                decreases k - j,
            {
                if users[j] == id {
                    proof {
                        assert(refund_entry_bad(s.users@, users@, s.admin, k as int));
                        assert(forall|m: int|
                            0 <= m < k ==> !refund_entry_bad(s.users@, users@, s.admin, m));
                    }
                    return Err(SaleError::NotWhitelisted);
                }
                j = j + 1;
            }
            k = k + 1;
        }
        proof {
            lemma_phase_monotone(s.timeline, s.time_seen, now);
            assert(s.owner_state == OwnerState::NotRedeemed);
            assert(users@.take(0) =~= Seq::<u64>::empty());
        }
        let mut refunds: Vec<Refund> = Vec::new();
        let mut k2: usize = 0;
        while k2 < n
            invariant
                n == users@.len(),
                0 <= k2 <= n,
                s.wf(),
                s.taken_for_payout == 0,
                s.taken_for_refund == 0,
                s.owner_state == OwnerState::NotRedeemed,
                refund_ids_ok(s.users@, users@, s.admin),
                self.wf(),
                self.taken_for_payout == 0,
                self.taken_for_refund == 0,
                self.users@ == refund_all(s.users@, users@.take(k2 as int)),
                forall|m: int|
                    k2 <= m < n ==> has_user(self.users@, #[trigger] users@[m]) && user_of(
                        self.users@,
                        users@[m],
                    ) == user_of(s.users@, users@[m]),
                self.accepted_token_total == s.accepted_token_total - refund_total(
                    s.users@,
                    users@.take(k2 as int),
                ),
                same_config(*self, s),
                same_redemption(*self, s),
                self.launched_token_total == s.launched_token_total,
                self.time_seen == s.time_seen,
                refunds@.len() == k2,
                forall|m: int|
                    0 <= m < k2 ==> refunds@[m] == (Refund {
                        user_id: users@[m],
                        amount: user_of(s.users@, users@[m]).deposit_balance,
                    }),
            decreases n - k2,
        {
            let id = users[k2];
            let ghost current = self.users@;
            let refund = self.refund_single_user(id);
            refunds.push(refund);
            proof {
                lemma_refund_all_snoc(s.users@, users@.take(k2 as int), id);
                lemma_refund_total_snoc(s.users@, users@.take(k2 as int), id);
                assert(users@.take(k2 as int).push(id) =~= users@.take(k2 as int + 1));
                assert(refund_one(current, id) == refund_one(
                    refund_all(s.users@, users@.take(k2 as int)),
                    id,
                ));
                let ghost iu = user_index(current, id);
                crate::state::lemma_update_preserves_lookup(
                    current,
                    iu,
                    (UserRecord {
                        whitelisted: false,
                        deposit_balance: 0,
                        deposit_limit: 0,
                        ..user_of(current, id)
                    }),
                );
                assert forall|m: int|
                    k2 + 1 <= m < n implies has_user(self.users@, #[trigger] users@[m]) && user_of(
                        self.users@,
                        users@[m],
                    ) == user_of(s.users@, users@[m]) by {
                    assert(users@[m] != id);
                    assert(has_user(current, users@[m]));
                }
            }
            k2 = k2 + 1;
        }
        proof {
            assert(users@.take(n as int) =~= users@);
            assert(refunds@ =~= refund_payments(s.users@, users@));
        }
        self.time_seen = now;
        Ok(refunds)
    }
}

} // verus!
