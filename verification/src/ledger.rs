use vstd::prelude::*;

use crate::errors::SaleError;
use crate::phase::{phase_at, Phase, PhaseModule};
use crate::state::{
    has_user, lemma_quiet_state, lemma_sum_element_bound, lemma_sum_update, same_config,
    same_redemption, same_state, user_index, user_of, Sale, UserRecord,
};

verus! {

impl Sale {
    /// A whitelisted participant deposits `amount` of the accepted asset
    /// during the user deposit/withdraw window. The resulting balance must
    /// respect the participant's cap (when nonzero) and the global
    /// minimum-deposit floor.
    pub fn user_deposit(&mut self, user_id: u64, now: u64, amount: u64) -> (r: Result<
        (),
        SaleError,
    >)
        requires
            old(self).wf(),
            now >= old(self).time_seen,
        ensures
            final(self).wf(),
            final(self).time_seen >= old(self).time_seen,
            r is Err ==> same_state(*final(self), *old(self)),
            ({
                let s = *old(self);
                let u = user_of(s.users@, user_id);
                if phase_at(s.timeline, now) != Phase::UserDepositWithdraw {
                    r == Err::<(), SaleError>(SaleError::WrongPhase)
                } else if !s.spec_whitelisted(user_id) {
                    r == Err::<(), SaleError>(SaleError::NotWhitelisted)
                } else if u.deposit_limit != 0 && u.deposit_balance + amount > u.deposit_limit {
                    r == Err::<(), SaleError>(SaleError::LimitExceeded)
                } else if u.deposit_balance + amount < s.user_min_deposit {
                    r == Err::<(), SaleError>(SaleError::BelowMinDeposit)
                } else if u.deposit_balance + amount > u64::MAX || s.accepted_token_total + amount
                    > u64::MAX {
                    r == Err::<(), SaleError>(SaleError::Overflow)
                } else {
                    &&& r == Ok::<(), SaleError>(())
                    &&& final(self).users@ == s.users@.update(
                        user_index(s.users@, user_id),
                        (UserRecord {
                            deposit_balance: (u.deposit_balance + amount) as u64,
                            ..u
                        }),
                    )
                    &&& final(self).accepted_token_total == s.accepted_token_total + amount
                    &&& final(self).time_seen == now
                    &&& same_config(*final(self), s)
                    &&& same_redemption(*final(self), s)
                    &&& final(self).launched_token_total == s.launched_token_total
                }
            }),
    {
        let ghost s = *self;
        if self.get_current_phase(now) != Phase::UserDepositWithdraw {
            return Err(SaleError::WrongPhase);
        }
        let i = match self.require_user_whitelisted(user_id) {
            Ok(i) => i,
            Err(e) => {
                return Err(e);
            },
        };
        let u = self.users[i];
        let new_balance = u.deposit_balance as u128 + amount as u128;
        if u.deposit_limit != 0 && new_balance > u.deposit_limit as u128 {
            return Err(SaleError::LimitExceeded);
        }
        if new_balance < self.user_min_deposit as u128 {
            return Err(SaleError::BelowMinDeposit);
        }
        if new_balance > u64::MAX as u128
            || self.accepted_token_total as u128 + amount as u128 > u64::MAX as u128 {
            return Err(SaleError::Overflow);
        }
        proof {
            lemma_quiet_state(s, now);
            lemma_sum_update(
                s.users@,
                i as int,
                (UserRecord { deposit_balance: (u.deposit_balance + amount) as u64, ..u }),
            );
        }
        let updated = UserRecord { deposit_balance: u.deposit_balance + amount, ..u };
        self.users.set(i, updated);
        self.accepted_token_total = self.accepted_token_total + amount;
        self.time_seen = now;
        proof {
            assert(self.launched_tokens_paid * self.accepted_token_total <= 0) by (
            nonlinear_arith)
                requires
                    self.launched_tokens_paid == 0,
            ;
            assert(self.launched_token_total * self.taken_for_payout == 0) by (nonlinear_arith)
                requires
                    self.taken_for_payout == 0,
            ;
        }
        Ok(())
    }

    /// A participant withdraws part of their deposit during the user
    /// deposit/withdraw window.
    pub fn user_withdraw(&mut self, user_id: u64, now: u64, amount: u64) -> (r: Result<
        (),
        SaleError,
    >)
        requires
            old(self).wf(),
            now >= old(self).time_seen,
        ensures
            final(self).wf(),
            final(self).time_seen >= old(self).time_seen,
            r is Err ==> same_state(*final(self), *old(self)),
            ({
                let s = *old(self);
                let u = user_of(s.users@, user_id);
                if phase_at(s.timeline, now) != Phase::UserDepositWithdraw {
                    r == Err::<(), SaleError>(SaleError::WrongPhase)
                } else if !has_user(s.users@, user_id) {
                    r == Err::<(), SaleError>(SaleError::NotWhitelisted)
                } else if amount > u.deposit_balance {
                    r == Err::<(), SaleError>(SaleError::InsufficientBalance)
                } else {
                    &&& r == Ok::<(), SaleError>(())
                    &&& final(self).users@ == s.users@.update(
                        user_index(s.users@, user_id),
                        (UserRecord {
                            deposit_balance: (u.deposit_balance - amount) as u64,
                            ..u
                        }),
                    )
                    &&& final(self).accepted_token_total == s.accepted_token_total - amount
                    &&& final(self).time_seen == now
                    &&& same_config(*final(self), s)
                    &&& same_redemption(*final(self), s)
                    &&& final(self).launched_token_total == s.launched_token_total
                }
            }),
    {
        let ghost s = *self;
        if self.get_current_phase(now) != Phase::UserDepositWithdraw {
            return Err(SaleError::WrongPhase);
        }
        let i = match self.find_user(user_id) {
            Some(i) => i,
            None => {
                return Err(SaleError::NotWhitelisted);
            },
        };
        let u = self.users[i];
        if amount > u.deposit_balance {
            return Err(SaleError::InsufficientBalance);
        }
        proof {
            lemma_quiet_state(s, now);
            lemma_sum_element_bound(s.users@, i as int);
            lemma_sum_update(
                s.users@,
                i as int,
                (UserRecord { deposit_balance: (u.deposit_balance - amount) as u64, ..u }),
            );
        }
        let updated = UserRecord { deposit_balance: u.deposit_balance - amount, ..u };
        self.users.set(i, updated);
        self.accepted_token_total = self.accepted_token_total - amount;
        self.time_seen = now;
        proof {
            assert(self.launched_tokens_paid * self.accepted_token_total <= 0) by (
            nonlinear_arith)
                requires
                    self.launched_tokens_paid == 0,
            ;
            assert(self.launched_token_total * self.taken_for_payout == 0) by (nonlinear_arith)
                requires
                    self.taken_for_payout == 0,
            ;
        }
        Ok(())
    }

    /// The administrator deposits launched tokens during the owner
    /// deposit/withdraw window.
    pub fn owner_deposit(&mut self, caller: u64, now: u64, amount: u64) -> (r: Result<
        (),
        SaleError,
    >)
        requires
            old(self).wf(),
            now >= old(self).time_seen,
        ensures
            final(self).wf(),
            final(self).time_seen >= old(self).time_seen,
            r is Err ==> same_state(*final(self), *old(self)),
            ({
                let s = *old(self);
                if caller != s.admin {
                    r == Err::<(), SaleError>(SaleError::Unauthorized)
                } else if phase_at(s.timeline, now) != Phase::OwnerDepositWithdraw {
                    r == Err::<(), SaleError>(SaleError::WrongPhase)
                } else if s.launched_token_total + amount > u64::MAX {
                    r == Err::<(), SaleError>(SaleError::Overflow)
                } else {
                    &&& r == Ok::<(), SaleError>(())
                    &&& final(self).launched_token_total == s.launched_token_total + amount
                    &&& final(self).time_seen == now
                    &&& same_config(*final(self), s)
                    &&& same_redemption(*final(self), s)
                    &&& final(self).accepted_token_total == s.accepted_token_total
                    &&& final(self).users@ == s.users@
                }
            }),
    {
        let ghost s = *self;
        if caller != self.admin {
            return Err(SaleError::Unauthorized);
        }
        if self.get_current_phase(now) != Phase::OwnerDepositWithdraw {
            return Err(SaleError::WrongPhase);
        }
        if amount > u64::MAX - self.launched_token_total {
            return Err(SaleError::Overflow);
        }
        proof {
            lemma_quiet_state(s, now);
        }
        self.launched_token_total = self.launched_token_total + amount;
        self.time_seen = now;
        proof {
            assert(self.launched_token_total * self.taken_for_payout == 0) by (nonlinear_arith)
                requires
                    self.taken_for_payout == 0,
            ;
        }
        Ok(())
    }

    /// The administrator withdraws launched tokens during the owner
    /// deposit/withdraw window.
    pub fn owner_withdraw(&mut self, caller: u64, now: u64, amount: u64) -> (r: Result<
        (),
        SaleError,
    >)
        requires
            old(self).wf(),
            now >= old(self).time_seen,
        ensures
            final(self).wf(),
            final(self).time_seen >= old(self).time_seen,
            r is Err ==> same_state(*final(self), *old(self)),
            ({
                let s = *old(self);
                if caller != s.admin {
                    r == Err::<(), SaleError>(SaleError::Unauthorized)
                } else if phase_at(s.timeline, now) != Phase::OwnerDepositWithdraw {
                    r == Err::<(), SaleError>(SaleError::WrongPhase)
                } else if amount > s.launched_token_total {
                    r == Err::<(), SaleError>(SaleError::InsufficientBalance)
                } else {
                    &&& r == Ok::<(), SaleError>(())
                    &&& final(self).launched_token_total == s.launched_token_total - amount
                    &&& final(self).time_seen == now
                    &&& same_config(*final(self), s)
                    &&& same_redemption(*final(self), s)
                    &&& final(self).accepted_token_total == s.accepted_token_total
                    &&& final(self).users@ == s.users@
                }
            }),
    {
        let ghost s = *self;
        if caller != self.admin {
            return Err(SaleError::Unauthorized);
        }
        if self.get_current_phase(now) != Phase::OwnerDepositWithdraw {
            return Err(SaleError::WrongPhase);
        }
        if amount > self.launched_token_total {
            return Err(SaleError::InsufficientBalance);
        }
        proof {
            lemma_quiet_state(s, now);
        }
        self.launched_token_total = self.launched_token_total - amount;
        self.time_seen = now;
        proof {
            assert(self.launched_token_total * self.taken_for_payout == 0) by (nonlinear_arith)
                requires
                    self.taken_for_payout == 0,
            ;
        }
        Ok(())
    }

}

} // verus!
