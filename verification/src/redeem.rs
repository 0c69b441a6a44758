use vstd::prelude::*;

use vstd::arithmetic::div_mod::lemma_fundamental_div_mod;

use crate::errors::SaleError;
use crate::phase::{lemma_phase_monotone, phase_at, Phase, PhaseModule};
use crate::state::{
    lemma_sum_element_bound, lemma_sum_update, same_config, same_state, user_index, user_of,
    OwnerState, Payment, Sale, TokenKind, UserRecord,
};

verus! {

/// The launched tokens a deposit of `d` buys when `l` launched tokens are
/// split pro rata over a total of `t` accepted tokens: integer division,
/// truncating. A zero total means nothing was deposited and nothing is owed.
pub open spec fn payout_amount(l: u64, d: u64, t: u64) -> int {
    if t == 0 {
        0
    } else {
        (l * d) / (t as int)
    }
}

/// Arithmetic of one pro-rata redemption step: paying out `q = l*d/t` for a
/// deposit `d` keeps every running total inside the pro-rata bounds.
proof fn lemma_payout_step(l: int, t: int, tv: int, paid: int, cnt: int, d: int, q: int)
    requires
        t > 0,
        0 <= d,
        0 <= tv,
        0 <= paid,
        0 <= cnt,
        0 <= l,
        tv + d <= t,
        paid * t <= l * tv,
        l * tv <= (paid + cnt) * t,
        q == (l * d) / t,
    ensures
        0 <= q <= l,
        paid + q <= l,
        (paid + q) * t <= l * (tv + d),
        l * (tv + d) <= (paid + q + cnt + (if d > 0 { 1int } else { 0int })) * t,
{
    lemma_fundamental_div_mod(l * d, t);
    let rem = (l * d) % t;
    assert(l * d == t * q + rem);
    assert(0 <= rem < t);
    assert(q * t <= l * d && l * d < (q + 1) * t) by (nonlinear_arith)
        requires
            l * d == t * q + rem,
            0 <= rem < t,
    ;
    assert(0 <= q) by (nonlinear_arith)
        requires
            q * t <= l * d,
            l * d == t * q + rem,
            0 <= rem < t,
            0 <= l,
            0 <= d,
            t > 0,
    ;
    assert(l * d <= l * t) by (nonlinear_arith)
        requires
            0 <= l,
            d <= t,
    ;
    assert((paid + q) * t == paid * t + q * t) by (nonlinear_arith);
    assert(l * (tv + d) == l * tv + l * d) by (nonlinear_arith);
    assert((paid + q) * t <= l * (tv + d));
    assert(l * (tv + d) <= l * t) by (nonlinear_arith)
        requires
            0 <= l,
            tv + d <= t,
    ;
    assert(paid + q <= l) by (nonlinear_arith)
        requires
            (paid + q) * t <= l * t,
            t > 0,
    ;
    assert(q <= l) by (nonlinear_arith)
        requires
            q * t <= l * t,
            t > 0,
    ;
    if d > 0 {
        assert(l * (tv + d) <= (paid + cnt) * t + (q + 1) * t);
        assert((paid + cnt) * t + (q + 1) * t == (paid + q + cnt + 1) * t) by (nonlinear_arith);
    } else {
        assert(l * d == 0) by (nonlinear_arith)
            requires
                d == 0,
        ;
        assert(q * t <= 0 && 0 <= q * t) by (nonlinear_arith)
            requires
                q * t <= l * d,
                l * d == 0,
                0 <= q,
                t > 0,
        ;
        assert(q == 0) by (nonlinear_arith)
            requires
                q * t == 0,
                t > 0,
        ;
        assert((paid + q + cnt) * t == (paid + cnt) * t) by (nonlinear_arith)
            requires
                q == 0,
        ;
    }
}

/// Value conservation, in every reachable state: the launched tokens paid
/// out never exceed the launched supply, the accepted tokens paid out
/// (owner redemption plus refunds) never exceed the frozen aggregate, and
/// the truncation loss of the pro-rata split stays under one token per
/// paying redeemer: `l*tv - paid*t <= count*t` for total supply `l`,
/// consumed deposits `tv`, aggregate `t` and `count` paying redeemers.
pub proof fn lemma_value_conservation(s: Sale)
    requires
        s.wf(),
    ensures
        s.launched_tokens_paid <= s.launched_token_total,
        s.accepted_tokens_paid <= s.accepted_token_total,
        s.launched_token_total * s.taken_for_payout - s.launched_tokens_paid
            * s.accepted_token_total <= s.payout_count * s.accepted_token_total,
{
    crate::state::lemma_sum_nonneg(s.users@);
    assert((s.launched_tokens_paid + s.payout_count) * s.accepted_token_total
        == s.launched_tokens_paid * s.accepted_token_total + s.payout_count
        * s.accepted_token_total) by (nonlinear_arith);
}

/// The redemption calculator: the one-shot owner and participant
/// redemptions and the pro-rata payout, implemented by the sale engine.
pub trait RedeemModule {
    /// The engine state the contracts below speak about.
    spec fn sale_state(&self) -> Sale;

    /// Rejects callers once the owner's one-shot redemption has been spent.
    fn require_owner_didnt_redeem(&self) -> (r: Result<(), SaleError>)
        ensures
            r == (if self.sale_state().owner_state == OwnerState::NotRedeemed {
                Ok::<(), SaleError>(())
            } else {
                Err::<(), SaleError>(SaleError::AlreadyRedeemed)
            }),
    ;

    /// The launched tokens a given deposit buys at the final ratio.
    fn compute_user_bought_tokens(&self, redeem_amount: u64) -> (p: Payment)
        requires
            redeem_amount <= self.sale_state().accepted_token_total,
        ensures
            p.token == TokenKind::Launched,
            p.amount == payout_amount(
                self.sale_state().launched_token_total,
                redeem_amount,
                self.sale_state().accepted_token_total,
            ),
    ;

    /// The owner's one-shot redemption during the owner redeem window: the
    /// entire accepted-token aggregate is paid out, fixing the price.
    fn owner_redeem(&mut self, caller: u64, now: u64) -> (r: Result<Payment, SaleError>)
        requires
            old(self).sale_state().wf(),
            now >= old(self).sale_state().time_seen,
        ensures
            final(self).sale_state().wf(),
            final(self).sale_state().time_seen >= old(self).sale_state().time_seen,
            r is Err ==> same_state(final(self).sale_state(), old(self).sale_state()),
            ({
                let s = old(self).sale_state();
                if caller != s.admin {
                    r == Err::<Payment, SaleError>(SaleError::Unauthorized)
                } else if phase_at(s.timeline, now) != Phase::OwnerRedeem {
                    r == Err::<Payment, SaleError>(SaleError::WrongPhase)
                } else if s.owner_state != OwnerState::NotRedeemed {
                    r == Err::<Payment, SaleError>(SaleError::AlreadyRedeemed)
                } else if s.launched_token_total == 0 {
                    r == Err::<Payment, SaleError>(SaleError::NothingToRedeem)
                } else {
                    &&& r == Ok::<Payment, SaleError>(
                        (Payment { token: TokenKind::Accepted, amount: s.accepted_token_total }),
                    )
                    &&& final(self).sale_state().owner_state == OwnerState::Redeemed
                    &&& final(self).sale_state().accepted_tokens_paid == s.accepted_tokens_paid
                        + s.accepted_token_total
                    &&& final(self).sale_state().accepted_token_total == s.accepted_token_total
                    &&& final(self).sale_state().launched_token_total == s.launched_token_total
                    &&& final(self).sale_state().users@ == s.users@
                    &&& final(self).sale_state().time_seen == now
                    &&& same_config(final(self).sale_state(), s)
                    &&& final(self).sale_state().launched_tokens_paid == s.launched_tokens_paid
                }
            }),
    ;

    /// The owner's emergency exit during the user redeem window, for an
    /// owner who missed the owner redeem window: the launched tokens come
    /// back unsold and the sale settles by refunds.
    fn withdraw_launchpad_tokens(&mut self, caller: u64, now: u64) -> (r: Result<
        Payment,
        SaleError,
    >)
        requires
            old(self).sale_state().wf(),
            now >= old(self).sale_state().time_seen,
        ensures
            final(self).sale_state().wf(),
            final(self).sale_state().time_seen >= old(self).sale_state().time_seen,
            r is Err ==> same_state(final(self).sale_state(), old(self).sale_state()),
            ({
                let s = old(self).sale_state();
                if caller != s.admin {
                    r == Err::<Payment, SaleError>(SaleError::Unauthorized)
                } else if phase_at(s.timeline, now) != Phase::UserRedeem {
                    r == Err::<Payment, SaleError>(SaleError::WrongPhase)
                } else if s.owner_state != OwnerState::NotRedeemed {
                    r == Err::<Payment, SaleError>(SaleError::AlreadyRedeemed)
                } else {
                    &&& r == Ok::<Payment, SaleError>(
                        (Payment { token: TokenKind::Launched, amount: s.launched_token_total }),
                    )
                    &&& final(self).sale_state().owner_state == OwnerState::EmergencyWithdrawn
                    &&& final(self).sale_state().launched_token_total == 0
                    &&& final(self).sale_state().accepted_token_total == s.accepted_token_total
                    &&& final(self).sale_state().users@ == s.users@
                    &&& final(self).sale_state().time_seen == now
                    &&& same_config(final(self).sale_state(), s)
                    &&& final(self).sale_state().accepted_tokens_paid == s.accepted_tokens_paid
                    &&& final(self).sale_state().launched_tokens_paid == s.launched_tokens_paid
                }
            }),
    ;

    /// One participant's one-shot redemption during the user redeem window.
    /// When the owner completed the sale the participant receives launched
    /// tokens pro rata; otherwise the original deposit comes back in full.
    fn user_redeem(&mut self, user_id: u64, now: u64) -> (r: Result<Payment, SaleError>)
        requires
            old(self).sale_state().wf(),
            now >= old(self).sale_state().time_seen,
        ensures
            final(self).sale_state().wf(),
            final(self).sale_state().time_seen >= old(self).sale_state().time_seen,
            r is Err ==> same_state(final(self).sale_state(), old(self).sale_state()),
            ({
                let s = old(self).sale_state();
                let u = user_of(s.users@, user_id);
                if phase_at(s.timeline, now) != Phase::UserRedeem {
                    r == Err::<Payment, SaleError>(SaleError::WrongPhase)
                } else if !s.spec_whitelisted(user_id) {
                    r == Err::<Payment, SaleError>(SaleError::NotWhitelisted)
                } else if u.redeemed {
                    r == Err::<Payment, SaleError>(SaleError::AlreadyRedeemed)
                } else {
                    &&& final(self).sale_state().users@ == s.users@.update(
                        user_index(s.users@, user_id),
                        (UserRecord { deposit_balance: 0, redeemed: true, ..u }),
                    )
                    &&& final(self).sale_state().time_seen == now
                    &&& same_config(final(self).sale_state(), s)
                    &&& final(self).sale_state().launched_token_total == s.launched_token_total
                    &&& final(self).sale_state().accepted_token_total == s.accepted_token_total
                    &&& final(self).sale_state().owner_state == s.owner_state
                    &&& (if s.launched_token_total != 0 && s.owner_state == OwnerState::Redeemed {
                        &&& r == Ok::<Payment, SaleError>(
                            (Payment {
                                token: TokenKind::Launched,
                                amount: payout_amount(
                                    s.launched_token_total,
                                    u.deposit_balance,
                                    s.accepted_token_total,
                                ) as u64,
                            }),
                        )
                        &&& final(self).sale_state().launched_tokens_paid == s.launched_tokens_paid
                            + payout_amount(
                            s.launched_token_total,
                            u.deposit_balance,
                            s.accepted_token_total,
                        )
                        &&& final(self).sale_state().accepted_tokens_paid == s.accepted_tokens_paid
                        &&& final(self).sale_state().taken_for_payout == s.taken_for_payout
                            + u.deposit_balance
                        &&& final(self).sale_state().taken_for_refund == s.taken_for_refund
                    } else {
                        &&& r == Ok::<Payment, SaleError>(
                            (Payment { token: TokenKind::Accepted, amount: u.deposit_balance }),
                        )
                        &&& final(self).sale_state().accepted_tokens_paid == s.accepted_tokens_paid
                            + u.deposit_balance
                        &&& final(self).sale_state().launched_tokens_paid == s.launched_tokens_paid
                        &&& final(self).sale_state().taken_for_refund == s.taken_for_refund
                            + u.deposit_balance
                        &&& final(self).sale_state().taken_for_payout == s.taken_for_payout
                    })
                }
            }),
    ;
}

impl RedeemModule for Sale {
    open spec fn sale_state(&self) -> Sale {
        *self
    }

    fn require_owner_didnt_redeem(&self) -> (r: Result<(), SaleError>)
    {
        if self.owner_state == OwnerState::NotRedeemed {
            Ok(())
        } else {
            Err(SaleError::AlreadyRedeemed)
        }
    }

    fn compute_user_bought_tokens(&self, redeem_amount: u64) -> (p: Payment)
    {
        if self.accepted_token_total == 0 {
            return Payment { token: TokenKind::Launched, amount: 0 };
        }
        let l = self.launched_token_total as u128;
        let d = redeem_amount as u128;
        let t = self.accepted_token_total as u128;
        proof {
            assert(l * d <= u128::MAX) by (nonlinear_arith)
                requires
                    l <= u64::MAX,
                    d <= u64::MAX,
                    u64::MAX * u64::MAX <= u128::MAX,
                    0 <= l,
                    0 <= d,
            ;
        }
        let q = (l * d) / t;
        proof {
            lemma_fundamental_div_mod((l * d) as int, t as int);
            assert(q <= l) by (nonlinear_arith)
                requires
                    (l * d) == t * q + ((l * d) as int % (t as int)),
                    0 <= (l * d) as int % (t as int),
                    d <= t,
                    0 < t,
                    0 <= l,
                    0 <= q,
            ;
        }
        Payment { token: TokenKind::Launched, amount: q as u64 }
    }

    fn owner_redeem(&mut self, caller: u64, now: u64) -> (r: Result<Payment, SaleError>)
    {
        let ghost s = *self;
        if caller != self.admin {
            return Err(SaleError::Unauthorized);
        }
        let phase = self.get_current_phase(now);
        match self.require_owner_redeem_allowed(&phase) {
            Ok(()) => (),
            Err(e) => {
                return Err(e);
            },
        }
        match self.require_owner_didnt_redeem() {
            Ok(()) => (),
            Err(e) => {
                return Err(e);
            },
        }
        if self.launched_token_total == 0 {
            return Err(SaleError::NothingToRedeem);
        }
        proof {
            lemma_phase_monotone(s.timeline, s.time_seen, now);
        }
        let amount = self.accepted_token_total;
        self.owner_state = OwnerState::Redeemed;
        self.accepted_tokens_paid = self.accepted_tokens_paid + amount;
        self.time_seen = now;
        Ok(Payment { token: TokenKind::Accepted, amount })
    }

    fn withdraw_launchpad_tokens(&mut self, caller: u64, now: u64) -> (r: Result<
        Payment,
        SaleError,
    >)
    {
        let ghost s = *self;
        if caller != self.admin {
            return Err(SaleError::Unauthorized);
        }
        let phase = self.get_current_phase(now);
        match self.require_user_redeem_allowed(&phase) {
            Ok(()) => (),
            Err(e) => {
                return Err(e);
            },
        }
        match self.require_owner_didnt_redeem() {
            Ok(()) => (),
            Err(e) => {
                return Err(e);
            },
        }
        proof {
            lemma_phase_monotone(s.timeline, s.time_seen, now);
            assert(s.taken_for_payout == 0);
            assert(s.launched_tokens_paid * s.accepted_token_total <= 0) by (nonlinear_arith)
                requires
                    s.launched_tokens_paid * s.accepted_token_total <= s.launched_token_total
                        * s.taken_for_payout,
                    s.taken_for_payout == 0,
                    0 <= s.launched_token_total,
            ;
            if s.accepted_token_total > 0 {
                assert(s.launched_tokens_paid == 0) by (nonlinear_arith)
                    requires
                        s.launched_tokens_paid * s.accepted_token_total <= 0,
                        s.accepted_token_total > 0,
                        0 <= s.launched_tokens_paid,
                ;
            }
        }
        let supply = self.launched_token_total;
        self.launched_token_total = 0;
        self.owner_state = OwnerState::EmergencyWithdrawn;
        self.time_seen = now;
        proof {
            assert(self.launched_token_total * self.taken_for_payout == 0) by (nonlinear_arith)
                requires
                    self.taken_for_payout == 0,
            ;
        }
        Ok(Payment { token: TokenKind::Launched, amount: supply })
    }

    fn user_redeem(&mut self, user_id: u64, now: u64) -> (r: Result<Payment, SaleError>)
    {
        let ghost s = *self;
        let phase = self.get_current_phase(now);
        match self.require_user_redeem_allowed(&phase) {
            Ok(()) => (),
            Err(e) => {
                return Err(e);
            },
        }
        let i = match self.require_user_whitelisted(user_id) {
            Ok(i) => i,
            Err(e) => {
                return Err(e);
            },
        };
        let u = self.users[i];
        if u.redeemed {
            return Err(SaleError::AlreadyRedeemed);
        }
        proof {
            lemma_phase_monotone(s.timeline, s.time_seen, now);
            lemma_sum_element_bound(s.users@, i as int);
            lemma_sum_update(
                s.users@,
                i as int,
                (UserRecord { deposit_balance: 0, redeemed: true, ..u }),
            );
        }
        let d = u.deposit_balance;
        let updated = UserRecord { deposit_balance: 0, redeemed: true, ..u };
        self.users.set(i, updated);
        let result: Payment;
        if self.launched_token_total != 0 && matches!(self.owner_state, OwnerState::Redeemed) {
            let pay = self.compute_user_bought_tokens(d);
            proof {
                if s.accepted_token_total > 0 {
                    lemma_payout_step(
                        s.launched_token_total as int,
                        s.accepted_token_total as int,
                        s.taken_for_payout as int,
                        s.launched_tokens_paid as int,
                        s.payout_count as int,
                        d as int,
                        pay.amount as int,
                    );
                } else {
                    assert(d == 0);
                    assert(pay.amount == 0);
                }
            }
            self.launched_tokens_paid = self.launched_tokens_paid + pay.amount;
            self.taken_for_payout = self.taken_for_payout + d;
            if d > 0 {
                self.payout_count = self.payout_count + 1;
            }
            result = pay;
        } else {
            self.accepted_tokens_paid = self.accepted_tokens_paid + d;
            self.taken_for_refund = self.taken_for_refund + d;
            result = Payment { token: TokenKind::Accepted, amount: d };
        }
        self.time_seen = now;
        Ok(result)
    }
}

} // verus!
