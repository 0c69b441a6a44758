use vstd::prelude::*;

use crate::errors::SaleError;
use crate::phase::{
    phase_at, phase_idx, Phase, PhaseModule, Timeline, MAX_LONG_PHASE_DURATION,
    MAX_PHASE_DURATION,
};

verus! {

/// One participant of the sale, identified by an opaque numeric id that the
/// host's identity registry assigned to an external address.
#[derive(Clone, Copy, Debug, PartialEq, Eq, Structural)]
pub struct UserRecord {
    pub id: u64,
    pub whitelisted: bool,
    pub deposit_balance: u64,
    pub deposit_limit: u64,
    pub redeemed: bool,
}

/// The owner's one-shot redemption lifecycle. `EmergencyWithdrawn` is the
/// alternate terminal edge taken when the owner missed the redeem window and
/// pulled the launched tokens back unsold.
#[derive(Clone, Copy, Debug, PartialEq, Eq, Structural)]
pub enum OwnerState {
    NotRedeemed,
    Redeemed,
    EmergencyWithdrawn,
}

/// Which of the two assets a payment moves.
#[derive(Clone, Copy, Debug, PartialEq, Eq, Structural)]
pub enum TokenKind {
    /// The asset participants pay with.
    Accepted,
    /// The asset being sold by the owner.
    Launched,
}

/// A transfer instruction handed back to the host; the engine itself never
/// moves tokens.
#[derive(Clone, Copy, Debug, PartialEq, Eq, Structural)]
pub struct Payment {
    pub token: TokenKind,
    pub amount: u64,
}

/// A refund owed to one participant after an administrator removed them
/// from the whitelist.
#[derive(Clone, Copy, Debug, PartialEq, Eq, Structural)]
pub struct Refund {
    pub user_id: u64,
    pub amount: u64,
}

/// Sum of all deposit balances in a participant ledger.
pub open spec fn sum_deposits(s: Seq<UserRecord>) -> int
    decreases s.len(),
{
    if s.len() == 0 {
        0
    } else {
        s[0].deposit_balance + sum_deposits(s.drop_first())
    }
}

/// Whether some participant in the ledger carries the given id.
pub open spec fn has_user(s: Seq<UserRecord>, id: u64) -> bool {
    exists|i: int| 0 <= i < s.len() && s[i].id == id
}

/// Index of the participant with the given id (unique when ids are
/// pairwise distinct).
pub open spec fn user_index(s: Seq<UserRecord>, id: u64) -> int {
    choose|i: int| 0 <= i < s.len() && s[i].id == id
}

/// The record of the participant with the given id.
pub open spec fn user_of(s: Seq<UserRecord>, id: u64) -> UserRecord {
    s[user_index(s, id)]
}

/// No two participants share an id.
pub open spec fn distinct_ids(s: Seq<UserRecord>) -> bool {
    forall|i: int, j: int| 0 <= i < j < s.len() ==> s[i].id != s[j].id
}

/// Only whitelisted participants may hold a balance.
pub open spec fn balances_whitelisted(s: Seq<UserRecord>) -> bool {
    forall|i: int| 0 <= i < s.len() && !s[i].whitelisted ==> s[i].deposit_balance == 0
}

pub proof fn lemma_sum_nonneg(s: Seq<UserRecord>)
    ensures
        sum_deposits(s) >= 0,
    decreases s.len(),
{
    if s.len() > 0 {
        lemma_sum_nonneg(s.drop_first());
    }
}

pub proof fn lemma_sum_update(s: Seq<UserRecord>, i: int, r: UserRecord)
    requires
        0 <= i < s.len(),
    ensures
        sum_deposits(s.update(i, r)) == sum_deposits(s) - s[i].deposit_balance
            + r.deposit_balance,
    decreases s.len(),
{
    if i == 0 {
        assert(s.update(0, r).drop_first() =~= s.drop_first());
    } else {
        assert(s.update(i, r).drop_first() =~= s.drop_first().update(i - 1, r));
        lemma_sum_update(s.drop_first(), i - 1, r);
    }
}

pub proof fn lemma_sum_push(s: Seq<UserRecord>, r: UserRecord)
    ensures
        sum_deposits(s.push(r)) == sum_deposits(s) + r.deposit_balance,
    decreases s.len(),
{
    assert(s.push(r).len() == s.len() + 1);
    assert(s.push(r)[0] == if s.len() == 0 { r } else { s[0] });
    if s.len() == 0 {
        assert(s.push(r).drop_first() =~= Seq::<UserRecord>::empty());
        assert(sum_deposits(Seq::<UserRecord>::empty()) == 0);
    } else {
        assert(s.push(r).drop_first() =~= s.drop_first().push(r));
        lemma_sum_push(s.drop_first(), r);
    }
}

/// Each single balance is bounded by the whole sum.
pub proof fn lemma_sum_element_bound(s: Seq<UserRecord>, i: int)
    requires
        0 <= i < s.len(),
    ensures
        s[i].deposit_balance <= sum_deposits(s),
    decreases s.len(),
{
    if i == 0 {
        lemma_sum_nonneg(s.drop_first());
    } else {
        lemma_sum_element_bound(s.drop_first(), i - 1);
    }
}

/// When ids are distinct, any index whose record carries the id is the
/// index the specification functions pick.
pub proof fn lemma_user_index_unique(s: Seq<UserRecord>, i: int)
    requires
        distinct_ids(s),
        0 <= i < s.len(),
    ensures
        user_index(s, s[i].id) == i,
        has_user(s, s[i].id),
{
    let id = s[i].id;
    assert(has_user(s, id));
    let j = user_index(s, id);
    if i != j {
        assert(s[i].id != s[j].id);
    }
}

/// Updating one record without changing its id leaves every other
/// participant's lookup untouched.
pub proof fn lemma_update_preserves_lookup(s: Seq<UserRecord>, i: int, r: UserRecord)
    requires
        distinct_ids(s),
        0 <= i < s.len(),
        r.id == s[i].id,
    ensures
        distinct_ids(s.update(i, r)),
        forall|id2: u64| id2 != r.id ==> (has_user(s.update(i, r), id2) <==> has_user(s, id2)),
        forall|id2: u64|
            id2 != r.id && has_user(s, id2) ==> user_of(s.update(i, r), id2) == user_of(s, id2)
                && user_index(s.update(i, r), id2) == user_index(s, id2),
        has_user(s.update(i, r), r.id),
        user_index(s.update(i, r), r.id) == i,
        user_of(s.update(i, r), r.id) == r,
{
    let t = s.update(i, r);
    assert(forall|j: int| 0 <= j < s.len() ==> t[j].id == s[j].id);
    assert(distinct_ids(t));
    lemma_user_index_unique(t, i);
    assert forall|id2: u64| id2 != r.id implies (has_user(t, id2) <==> has_user(s, id2)) by {
        if has_user(t, id2) {
            let j = user_index(t, id2);
            assert(s[j].id == id2);
        }
        if has_user(s, id2) {
            let j = user_index(s, id2);
            assert(t[j].id == id2);
        }
    }
    assert forall|id2: u64| id2 != r.id && has_user(s, id2) implies user_of(t, id2) == user_of(
        s,
        id2,
    ) && user_index(t, id2) == user_index(s, id2) by {
        let j = user_index(s, id2);
        assert(s[j].id == id2);
        assert(t[j].id == id2);
        lemma_user_index_unique(s, j);
        lemma_user_index_unique(t, j);
        assert(j != i);
    }
}

/// Appending a fresh id leaves every existing participant's lookup
/// untouched.
pub proof fn lemma_push_preserves_lookup(s: Seq<UserRecord>, r: UserRecord)
    requires
        distinct_ids(s),
        !has_user(s, r.id),
    ensures
        distinct_ids(s.push(r)),
        forall|id2: u64| id2 != r.id ==> (has_user(s.push(r), id2) <==> has_user(s, id2)),
        forall|id2: u64|
            id2 != r.id && has_user(s, id2) ==> user_of(s.push(r), id2) == user_of(s, id2)
                && user_index(s.push(r), id2) == user_index(s, id2),
        has_user(s.push(r), r.id),
        user_index(s.push(r), r.id) == s.len(),
        user_of(s.push(r), r.id) == r,
{
    let t = s.push(r);
    assert(forall|j: int| 0 <= j < s.len() ==> t[j] == s[j]);
    assert(t[s.len() as int] == r);
    assert forall|i: int, j: int| 0 <= i < j < t.len() implies t[i].id != t[j].id by {
        if j < s.len() {
        } else {
            assert(t[j] == r);
            if t[i].id == r.id {
                assert(has_user(s, r.id));
            }
        }
    }
    lemma_user_index_unique(t, s.len() as int);
    assert forall|id2: u64| id2 != r.id implies (has_user(t, id2) <==> has_user(s, id2)) by {
        if has_user(t, id2) {
            let j = user_index(t, id2);
            assert(t[j].id == id2);
            assert(j < s.len());
            assert(s[j].id == id2);
        }
        if has_user(s, id2) {
            let j = user_index(s, id2);
            assert(t[j].id == id2);
        }
    }
    assert forall|id2: u64| id2 != r.id && has_user(s, id2) implies user_of(t, id2) == user_of(
        s,
        id2,
    ) && user_index(t, id2) == user_index(s, id2) by {
        let j = user_index(s, id2);
        assert(s[j].id == id2);
        assert(t[j].id == id2);
        lemma_user_index_unique(s, j);
        lemma_user_index_unique(t, j);
    }
}

/// The whole state of one sale: configuration, the participant ledger, the
/// pool aggregates, and the running redemption accounting.
#[derive(Debug)]
pub struct Sale {
    /// Opaque id of the administrator (the sale owner's actor id).
    pub admin: u64,
    /// Start time and window durations the phase is derived from.
    pub timeline: Timeline,
    /// Supply the owner must deposit for the sale to be meaningful.
    pub min_launched_tokens: u64,
    /// Global floor every nonzero deposit balance and cap must respect.
    pub user_min_deposit: u64,
    /// The owner's deposited supply of the launched token.
    pub launched_token_total: u64,
    /// Aggregate accepted-asset deposits. Frozen once redemption begins:
    /// it is the denominator of the final price.
    pub accepted_token_total: u64,
    /// The owner's one-shot redemption state.
    pub owner_state: OwnerState,
    /// The participant ledger.
    pub users: Vec<UserRecord>,
    /// Launched tokens paid out to redeeming participants so far.
    pub launched_tokens_paid: u64,
    /// Accepted tokens paid out (owner redemption plus refunds) so far.
    pub accepted_tokens_paid: u64,
    /// Deposits consumed by pro-rata redemptions so far.
    pub taken_for_payout: u64,
    /// Deposits returned by fallback refunds at redemption so far.
    pub taken_for_refund: u64,
    /// Number of pro-rata redemptions that moved a nonzero deposit.
    pub payout_count: u64,
    /// Latest clock value a successful state change acted on. The host
    /// clock is monotone, so later calls see later values.
    pub time_seen: u64,
}

impl Sale {
    /// Ledger half of the invariant: unique ids, and no balance without
    /// whitelist membership.
    pub open spec fn users_ok(self) -> bool {
        &&& distinct_ids(self.users@)
        &&& balances_whitelisted(self.users@)
    }

    /// Accounting half of the invariant: the aggregate splits into live
    /// balances and consumed deposits, and the paid-out totals never
    /// outgrow what the pro-rata ratio allows.
    pub open spec fn accounting_ok(self) -> bool {
        &&& self.accepted_token_total == sum_deposits(self.users@) + self.taken_for_payout
            + self.taken_for_refund
        &&& self.launched_tokens_paid * self.accepted_token_total <= self.launched_token_total
            * self.taken_for_payout
        &&& self.launched_token_total * self.taken_for_payout <= (self.launched_tokens_paid
            + self.payout_count) * self.accepted_token_total
        &&& self.accepted_token_total == 0 ==> self.launched_tokens_paid == 0
        &&& self.launched_tokens_paid <= self.launched_token_total
        &&& self.payout_count <= self.taken_for_payout
        &&& self.accepted_tokens_paid == (if self.owner_state == OwnerState::Redeemed {
            self.accepted_token_total as int
        } else {
            0
        }) + self.taken_for_refund
    }

    /// Lifecycle half of the invariant: what the owner's state and the
    /// consumed deposits say about the phases already reached.
    pub open spec fn lifecycle_ok(self) -> bool {
        &&& self.owner_state == OwnerState::Redeemed ==> self.launched_token_total > 0
        &&& self.owner_state == OwnerState::EmergencyWithdrawn ==> self.launched_token_total
            == 0
        &&& self.taken_for_payout > 0 ==> self.owner_state == OwnerState::Redeemed
        &&& self.taken_for_payout > 0 || self.taken_for_refund > 0 ==> phase_at(
            self.timeline,
            self.time_seen,
        ) == Phase::UserRedeem
        &&& self.owner_state == OwnerState::Redeemed ==> phase_idx(
            phase_at(self.timeline, self.time_seen),
        ) >= phase_idx(Phase::OwnerRedeem)
        &&& self.owner_state == OwnerState::EmergencyWithdrawn ==> phase_at(
            self.timeline,
            self.time_seen,
        ) == Phase::UserRedeem
        &&& self.owner_state == OwnerState::Redeemed ==> self.taken_for_refund == 0
    }

    /// The engine invariant: established by the constructor, preserved by
    /// every operation.
    pub open spec fn wf(self) -> bool {
        &&& self.timeline.wf()
        &&& self.users_ok()
        &&& self.accounting_ok()
        &&& self.lifecycle_ok()
    }

    /// Creates a sale. Fails with `InvalidDuration` when a window duration
    /// is out of bounds or the start time sits too close to the integer
    /// ceiling for the boundary sums to fit.
    pub fn new(
        admin: u64,
        start_time: u64,
        user_deposit_withdraw_time: u64,
        owner_deposit_withdraw_time: u64,
        owner_redeem_time: u64,
        min_launched_tokens: u64,
        user_min_deposit: u64,
    ) -> (r: Result<Sale, SaleError>)
        ensures
            ({
                let t = (Timeline {
                    start_time,
                    user_deposit_withdraw_time,
                    owner_deposit_withdraw_time,
                    owner_redeem_time,
                });
                if !t.wf() {
                    r == Err::<Sale, SaleError>(SaleError::InvalidDuration)
                } else {
                    &&& r is Ok
                    &&& (r matches Ok(s) ==> {
                        &&& s.wf()
                        &&& s.admin == admin
                        &&& s.timeline == t
                        &&& s.min_launched_tokens == min_launched_tokens
                        &&& s.user_min_deposit == user_min_deposit
                        &&& s.launched_token_total == 0
                        &&& s.accepted_token_total == 0
                        &&& s.owner_state == OwnerState::NotRedeemed
                        &&& s.users@ == Seq::<UserRecord>::empty()
                        &&& s.launched_tokens_paid == 0
                        &&& s.accepted_tokens_paid == 0
                        &&& s.time_seen == 0
                    })
                }
            }),
    {
        if user_deposit_withdraw_time == 0 || user_deposit_withdraw_time > MAX_PHASE_DURATION {
            return Err(SaleError::InvalidDuration);
        }
        if owner_deposit_withdraw_time == 0 || owner_deposit_withdraw_time > MAX_PHASE_DURATION {
            return Err(SaleError::InvalidDuration);
        }
        if owner_redeem_time == 0 || owner_redeem_time > MAX_LONG_PHASE_DURATION {
            return Err(SaleError::InvalidDuration);
        }
        if start_time > u64::MAX - 2 * MAX_PHASE_DURATION - MAX_LONG_PHASE_DURATION {
            return Err(SaleError::InvalidDuration);
        }
        let timeline = Timeline {
            start_time,
            user_deposit_withdraw_time,
            owner_deposit_withdraw_time,
            owner_redeem_time,
        };
        Ok(Sale {
            admin,
            timeline,
            min_launched_tokens,
            user_min_deposit,
            launched_token_total: 0,
            accepted_token_total: 0,
            owner_state: OwnerState::NotRedeemed,
            users: Vec::new(),
            launched_tokens_paid: 0,
            accepted_tokens_paid: 0,
            taken_for_payout: 0,
            taken_for_refund: 0,
            payout_count: 0,
            time_seen: 0,
        })
    }

    /// Index of the participant with the given id, if any.
    pub fn find_user(&self, id: u64) -> (r: Option<usize>)
        requires
            distinct_ids(self.users@),
        ensures
            (r matches Some(i) ==> {
                &&& 0 <= i < self.users@.len()
                &&& self.users@[i as int].id == id
                &&& user_index(self.users@, id) == i as int
                &&& has_user(self.users@, id)
            }),
            r is None ==> !has_user(self.users@, id),
    {
        let n = self.users.len();
        let mut i: usize = 0;
        while i < n
            invariant
                n == self.users@.len(),
                0 <= i <= n,
                forall|j: int| 0 <= j < i ==> self.users@[j].id != id,
                distinct_ids(self.users@),
            decreases n - i,
        {
            if self.users[i].id == id {
                proof {
                    lemma_user_index_unique(self.users@, i as int);
                }
                return Some(i);
            }
            i = i + 1;
        }
        None
    }

    /// Whether the participant exists and is currently whitelisted.
    pub open spec fn spec_whitelisted(self, id: u64) -> bool {
        has_user(self.users@, id) && user_of(self.users@, id).whitelisted
    }

    /// Resolves a participant and checks whitelist membership.
    pub fn require_user_whitelisted(&self, id: u64) -> (r: Result<usize, SaleError>)
        requires
            distinct_ids(self.users@),
        ensures
            (r matches Ok(i) ==> {
                &&& self.spec_whitelisted(id)
                &&& i as int == user_index(self.users@, id)
                &&& 0 <= i < self.users@.len()
            }),
            r is Ok <==> self.spec_whitelisted(id),
            r is Err ==> r == Err::<usize, SaleError>(SaleError::NotWhitelisted),
    {
        match self.find_user(id) {
            Some(i) => {
                if self.users[i].whitelisted {
                    Ok(i)
                } else {
                    Err(SaleError::NotWhitelisted)
                }
            },
            None => Err(SaleError::NotWhitelisted),
        }
    }
}

impl Sale {
    /// A participant's current deposit balance; zero for an unknown id.
    pub fn total_deposit_by_user(&self, id: u64) -> (r: u64)
        requires
            distinct_ids(self.users@),
        ensures
            r == (if has_user(self.users@, id) {
                user_of(self.users@, id).deposit_balance
            } else {
                0
            }),
    {
        match self.find_user(id) {
            Some(i) => self.users[i].deposit_balance,
            None => 0,
        }
    }

    /// A participant's configured cap; zero (unlimited) for an unknown id.
    pub fn user_deposit_limit(&self, id: u64) -> (r: u64)
        requires
            distinct_ids(self.users@),
        ensures
            r == (if has_user(self.users@, id) {
                user_of(self.users@, id).deposit_limit
            } else {
                0
            }),
    {
        match self.find_user(id) {
            Some(i) => self.users[i].deposit_limit,
            None => 0,
        }
    }

    /// Whether the participant is currently whitelisted.
    pub fn is_user_whitelisted(&self, id: u64) -> (r: bool)
        requires
            distinct_ids(self.users@),
        ensures
            r == self.spec_whitelisted(id),
    {
        match self.find_user(id) {
            Some(i) => self.users[i].whitelisted,
            None => false,
        }
    }

    /// Whether the participant has already redeemed.
    pub fn user_redeemed(&self, id: u64) -> (r: bool)
        requires
            distinct_ids(self.users@),
        ensures
            r == (has_user(self.users@, id) && user_of(self.users@, id).redeemed),
    {
        match self.find_user(id) {
            Some(i) => self.users[i].redeemed,
            None => false,
        }
    }

    /// Whether the owner's one-shot redemption has been spent, by either
    /// terminal edge.
    pub fn owner_redeemed(&self) -> (r: bool)
        ensures
            r == (self.owner_state != OwnerState::NotRedeemed),
    {
        !matches!(self.owner_state, OwnerState::NotRedeemed)
    }
}

/// Whenever no redemption has consumed a deposit yet — in particular
/// throughout the deposit/withdraw windows — the aggregate accepted-token
/// total equals the sum of all participants' balances, after any sequence
/// of deposits, withdrawals, whitelist changes and refunds.
pub proof fn lemma_aggregate_is_deposit_sum(s: Sale)
    requires
        s.wf(),
        phase_at(s.timeline, s.time_seen) != Phase::UserRedeem,
    ensures
        s.accepted_token_total == sum_deposits(s.users@),
{
}

/// A participant who is not whitelisted can never hold a balance, in any
/// reachable state.
pub proof fn lemma_no_balance_without_whitelist(s: Sale, i: int)
    requires
        s.wf(),
        0 <= i < s.users@.len(),
        !s.users@[i].whitelisted,
    ensures
        s.users@[i].deposit_balance == 0,
{
}

/// Configuration fields two states share.
pub open spec fn same_config(a: Sale, b: Sale) -> bool {
    &&& a.admin == b.admin
    &&& a.timeline == b.timeline
    &&& a.min_launched_tokens == b.min_launched_tokens
    &&& a.user_min_deposit == b.user_min_deposit
}

/// Redemption-accounting fields two states share.
pub open spec fn same_redemption(a: Sale, b: Sale) -> bool {
    &&& a.owner_state == b.owner_state
    &&& a.launched_tokens_paid == b.launched_tokens_paid
    &&& a.accepted_tokens_paid == b.accepted_tokens_paid
    &&& a.taken_for_payout == b.taken_for_payout
    &&& a.taken_for_refund == b.taken_for_refund
    &&& a.payout_count == b.payout_count
}

/// Two states that are observably identical: a failed call leaves the
/// engine in the same state it started in.
pub open spec fn same_state(a: Sale, b: Sale) -> bool {
    &&& same_config(a, b)
    &&& same_redemption(a, b)
    &&& a.launched_token_total == b.launched_token_total
    &&& a.accepted_token_total == b.accepted_token_total
    &&& a.users@ == b.users@
    &&& a.time_seen == b.time_seen
}

/// In every phase before user redemption nothing has been consumed or paid
/// out yet, so the aggregate equals the sum of live balances.
pub proof fn lemma_quiet_state(s: Sale, now: u64)
    requires
        s.wf(),
        s.time_seen <= now,
        phase_idx(phase_at(s.timeline, now)) < phase_idx(Phase::UserRedeem),
    ensures
        s.taken_for_payout == 0,
        s.taken_for_refund == 0,
        s.launched_tokens_paid == 0,
        s.payout_count == 0,
        s.accepted_token_total == sum_deposits(s.users@),
        phase_idx(phase_at(s.timeline, now)) < phase_idx(Phase::OwnerRedeem) ==> {
            &&& s.owner_state == OwnerState::NotRedeemed
            &&& s.accepted_tokens_paid == 0
        },
{
    crate::phase::lemma_phase_monotone(s.timeline, s.time_seen, now);
    assert(s.taken_for_payout == 0 && s.taken_for_refund == 0);
    assert(s.launched_tokens_paid * s.accepted_token_total <= 0) by {
        assert(s.launched_token_total * s.taken_for_payout == 0) by (nonlinear_arith)
            requires
                s.taken_for_payout == 0,
        ;
    }
    if s.accepted_token_total > 0 {
        assert(s.launched_tokens_paid == 0) by (nonlinear_arith)
            requires
                s.launched_tokens_paid * s.accepted_token_total <= 0,
                s.accepted_token_total > 0,
                s.launched_tokens_paid >= 0,
        ;
    }
}

impl PhaseModule for Sale {
    open spec fn phase_timeline(&self) -> Timeline {
        self.timeline
    }

    fn get_current_phase(&self, now: u64) -> (p: Phase) {
        crate::phase::current_phase_of(&self.timeline, now)
    }

    fn user_deposit_withdraw_time(&self) -> (r: u64) {
        self.timeline.user_deposit_withdraw_time
    }

    fn owner_deposit_withdraw_time(&self) -> (r: u64) {
        self.timeline.owner_deposit_withdraw_time
    }

    fn owner_redeem_time(&self) -> (r: u64) {
        self.timeline.owner_redeem_time
    }
}

/// Read access to the pool aggregates and the sale's start time.
pub trait CommonStorageModule {
    /// The launched-token supply currently recorded.
    spec fn spec_launched_token_balance(&self) -> u64;

    /// The accepted-token aggregate currently recorded.
    spec fn spec_accepted_token_balance(&self) -> u64;

    /// The configured minimum launched supply.
    spec fn spec_min_launched_tokens(&self) -> u64;

    /// The configured start time.
    spec fn spec_start_time(&self) -> u64;

    fn launched_token_balance(&self) -> (r: u64)
        ensures
            r == self.spec_launched_token_balance(),
    ;

    fn accepted_token_balance(&self) -> (r: u64)
        ensures
            r == self.spec_accepted_token_balance(),
    ;

    fn min_launched_tokens(&self) -> (r: u64)
        ensures
            r == self.spec_min_launched_tokens(),
    ;

    fn start_time(&self) -> (r: u64)
        ensures
            r == self.spec_start_time(),
    ;
}

impl CommonStorageModule for Sale {
    open spec fn spec_launched_token_balance(&self) -> u64 {
        self.launched_token_total
    }

    open spec fn spec_accepted_token_balance(&self) -> u64 {
        self.accepted_token_total
    }

    open spec fn spec_min_launched_tokens(&self) -> u64 {
        self.min_launched_tokens
    }

    open spec fn spec_start_time(&self) -> u64 {
        self.timeline.start_time
    }

    fn launched_token_balance(&self) -> (r: u64) {
        self.launched_token_total
    }

    fn accepted_token_balance(&self) -> (r: u64) {
        self.accepted_token_total
    }

    fn min_launched_tokens(&self) -> (r: u64) {
        self.min_launched_tokens
    }

    fn start_time(&self) -> (r: u64) {
        self.timeline.start_time
    }
}

} // verus!
