//! The session: its phase, the money it has counted, the queue of bills
//! waiting to fall and the bills on screen.
use crate::bill::{physics_step, physics_steps, spawned, BillAnimation, UNIT_HEIGHT};
use crate::clock::{clamped_elapsed, elapsed_between, now_millis};
use crate::config::AppConfig;
use crate::psp::Payment;
use vstd::prelude::*;

verus! {

/// Smallest amount that becomes one bill, and the value of each bill.
pub const BILL_CENTS: i64 = 100;

/// Most bills that one payment becomes.
pub const MAX_BILLS_PER_PAYMENT: i64 = 10;

/// Rows kept free below the stack.
pub const FLOOR_MARGIN: u16 = 4;

/// Rows kept free when judging whether the stack fills the display.
pub const FULL_MARGIN: u16 = 6;

#[derive(Debug, Clone, Copy, PartialEq, Eq, Structural)]
pub enum AppPhase {
    Setup,
    Running,
    Celebration,
}

/// A bill waiting in the queue to be spawned.
#[derive(Debug, Clone)]
pub struct PendingBill {
    pub amount_cents: i64,
    pub provider: String,
}

#[derive(Debug, Clone, Copy, PartialEq, Eq, Structural)]
pub enum SetupStep {
    Currency,
    ProviderSelect,
    ProviderApiKey,
    ProviderMerchantAccount,
    Confirm,
}

/// The draft credentials of one provider while the wizard runs.
#[derive(Debug, Clone)]
pub struct ProviderSetupState {
    pub name: String,
    pub enabled: bool,
    pub api_key: String,
    pub merchant_account: String,
}

/// The whole session, owned by the control loop.
///
/// `start_time` is in milliseconds since the Unix epoch.
pub struct App {
    pub config: AppConfig,
    pub phase: AppPhase,
    pub bills: Vec<BillAnimation>,
    pub total_cents: i64,
    pub session_payments: Vec<Payment>,
    pub start_time: i64,
    pub seen_ids: Vec<String>,
    pub celebration_tick: u32,
    pub setup_cursor: usize,
    pub setup_currency_idx: usize,
    pub setup_input: String,
    pub setup_step: SetupStep,
    pub provider_configs: Vec<ProviderSetupState>,
    pub current_provider_idx: usize,
    pub error_message: Option<String>,
    pub pending_bills: Vec<PendingBill>,
}

/// Number of bills that a payment of `amount` cents becomes: one per whole
/// hundred cents, at most ten, none for an amount below a hundred.
pub open spec fn units_for(amount: int) -> int {
    if amount < BILL_CENTS {
        0
    } else if amount >= BILL_CENTS * MAX_BILLS_PER_PAYMENT {
        MAX_BILLS_PER_PAYMENT as int
    } else {
        amount / BILL_CENTS as int
    }
}

/// The bills that an accepted payment adds to the queue.
pub open spec fn bills_for(p: Payment) -> Seq<PendingBill> {
    Seq::new(
        units_for(p.amount_cents as int) as nat,
        |i: int| PendingBill { amount_cents: BILL_CENTS, provider: p.provider },
    )
}

/// Number of settled bills.
pub open spec fn settled_count(bills: Seq<BillAnimation>) -> nat
    decreases bills.len(),
{
    if bills.len() == 0 {
        0
    } else {
        settled_count(bills.drop_last()) + if bills.last().settled {
            1nat
        } else {
            0nat
        }
    }
}

/// `a - b`, or zero where that is negative.
pub open spec fn minus_or_zero(a: int, b: int) -> int {
    if a > b {
        a - b
    } else {
        0
    }
}

/// Row on which the next bill lands, for a display `height` rows high: the
/// floor of the display less one bill's height per settled bill.
pub open spec fn stack_target(bills: Seq<BillAnimation>, height: u16) -> int {
    minus_or_zero(
        minus_or_zero(height as int, FLOOR_MARGIN as int),
        settled_count(bills) * UNIT_HEIGHT,
    )
}

/// The settled bills reach the top of a display `height` rows high.
pub open spec fn screen_full(bills: Seq<BillAnimation>, height: u16) -> bool {
    settled_count(bills) * UNIT_HEIGHT >= minus_or_zero(height as int, FULL_MARGIN as int)
}

/// `post` is `pre` after `p` was delivered: a payment whose id was seen
/// before, or a malformed one with a negative amount, changes nothing; any
/// other is remembered, counted, recorded and queued as bills.
pub open spec fn payment_added(pre: App, post: App, p: Payment) -> bool {
    if pre.has_seen(p.id@) || p.amount_cents < 0 {
        post == pre
    } else {
        &&& post.seen_view() == pre.seen_view().push(p.id@)
        &&& post.total_cents == pre.total_cents + p.amount_cents
        &&& post.session_payments@ == pre.session_payments@.push(p)
        &&& post.pending_bills@ == pre.pending_bills@ + bills_for(p)
        &&& post == (App {
            seen_ids: post.seen_ids,
            total_cents: post.total_cents,
            session_payments: post.session_payments,
            pending_bills: post.pending_bills,
            ..pre
        })
    }
}

/// `post` is `pre` with the oldest queued bill spawned, if there was one.
pub open spec fn bill_spawned(pre: App, post: App, height: u16) -> bool {
    if pre.pending_bills@.len() == 0 {
        post == pre
    } else {
        let pb = pre.pending_bills@[0];
        &&& post.pending_bills@ == pre.pending_bills@.drop_first()
        &&& post.bills@ == pre.bills@.push(
            spawned(pb.amount_cents, stack_target(pre.bills@, height) as u16, pb.provider),
        )
        &&& post == (App { pending_bills: post.pending_bills, bills: post.bills, ..pre })
    }
}

/// `post` is `pre` with every bill moved on by one tick of the physics.
pub open spec fn bills_advanced(pre: App, post: App) -> bool {
    &&& post.bills@ == pre.bills@.map_values(|b: BillAnimation| physics_step(b))
    &&& post == (App { bills: post.bills, ..pre })
}

/// `post` is `pre` cleared for a new round: no bills, no queue, the timer at
/// zero and the phase back to running; the money counted stays.
pub open spec fn session_reset(pre: App, post: App) -> bool {
    &&& post.bills@.len() == 0
    &&& post.pending_bills@.len() == 0
    &&& post.celebration_tick == 0
    &&& post.phase == AppPhase::Running
    &&& post == (App {
        bills: post.bills,
        pending_bills: post.pending_bills,
        celebration_tick: 0,
        phase: AppPhase::Running,
        ..pre
    })
}

/// A payment delivered again under an id already delivered, with the same
/// payload or another, changes nothing: total, history and queue reflect
/// that id once, and no id stands twice in the history.
pub proof fn lemma_redelivery_ignored(a0: App, a1: App, a2: App, p: Payment, q: Payment)
    requires
        a0.ledger_wf(),
        payment_added(a0, a1, p),
        payment_added(a1, a2, q),
        p.id@ == q.id@,
    ensures
        a1.ledger_wf(),
        a0.has_seen(p.id@) || p.amount_cents >= 0 ==> a1.has_seen(p.id@) && a2 == a1,
        !a0.has_seen(p.id@) && p.amount_cents >= 0 ==> {
            &&& a2.total_cents == a0.total_cents + p.amount_cents
            &&& a2.session_payments@ == a0.session_payments@.push(p)
        },
        a2.session_payments@.map_values(|x: Payment| x.id@).no_duplicates(),
{
    lemma_ledger_kept(a0, a1, p);
    lemma_ledger_kept(a1, a2, q);
    if !a0.has_seen(p.id@) && p.amount_cents >= 0 {
        assert(a1.seen_view()[a1.seen_view().len() - 1] == p.id@);
    }
}

/// Delivering a payment keeps every seen id in the history once.
pub proof fn lemma_ledger_kept(pre: App, post: App, p: Payment)
    requires
        pre.ledger_wf(),
        payment_added(pre, post, p),
    ensures
        post.ledger_wf(),
{
    if !pre.has_seen(p.id@) && p.amount_cents >= 0 {
        assert(post.session_payments@.map_values(|x: Payment| x.id@) =~= pre.session_payments@.map_values(
            |x: Payment| x.id@,
        ).push(p.id@));
        let s = post.seen_view();
        assert forall|i: int, j: int| 0 <= i < s.len() && 0 <= j < s.len() && i != j implies s[i]
            != s[j] by {
            if i == s.len() - 1 {
                assert(pre.seen_view()[j] == s[j]);
            } else if j == s.len() - 1 {
                assert(pre.seen_view()[i] == s[i]);
            } else {
                assert(pre.seen_view()[i] == s[i]);
                assert(pre.seen_view()[j] == s[j]);
            }
        }
    }
}

/// A new payment of `a` cents queues `min(a / 100, 10)` bills, and none
/// where that is negative.
pub proof fn lemma_bounded_expansion(pre: App, post: App, p: Payment)
    requires
        payment_added(pre, post, p),
        !pre.has_seen(p.id@),
    ensures
        post.pending_bills@.len() == pre.pending_bills@.len() + if p.amount_cents < 0 {
            0
        } else if p.amount_cents / 100 < 10 {
            p.amount_cents / 100
        } else {
            10
        },
{
}

/// Delivering a payment never lowers the total.
pub proof fn lemma_total_grows_with_payments(pre: App, post: App, p: Payment)
    requires
        payment_added(pre, post, p),
    ensures
        post.total_cents >= pre.total_cents,
        post.phase == pre.phase,
{
}

/// Over a run of physics steps, each bill on screen goes through the
/// physics one tick per step: after `k` steps, bill `j` is its first state
/// moved on by `k` ticks.
pub proof fn lemma_bill_after_ticks(states: Seq<App>, k: int, j: int)
    requires
        forall|i: int| 0 <= i < states.len() - 1 ==> #[trigger] bills_advanced(states[i], states[i + 1]),
        0 <= k < states.len(),
        0 <= j < states[0].bills@.len(),
    ensures
        states[k].bills@.len() == states[0].bills@.len(),
        states[k].bills@[j] == physics_steps(states[0].bills@[j], k as nat),
    decreases k,
{
    if k > 0 {
        let i = k - 1;
        lemma_bill_after_ticks(states, i, j);
        assert(bills_advanced(states[i], states[i + 1]));
        assert(states[k].bills@[j] == physics_step(states[i].bills@[j]));
    }
}

impl App {
    /// The seen payment ids, as text.
    pub open spec fn seen_view(&self) -> Seq<Seq<char>> {
        self.seen_ids@.map_values(|s: String| s@)
    }

    pub open spec fn has_seen(&self, id: Seq<char>) -> bool {
        self.seen_view().contains(id)
    }

    /// The seen ids are those of the recorded payments, in order, each once.
    pub open spec fn ledger_wf(&self) -> bool {
        &&& self.seen_view() == self.session_payments@.map_values(|p: Payment| p.id@)
        &&& self.seen_view().no_duplicates()
    }

    /// Every bill on screen holds an exact position.
    pub open spec fn bills_wf(&self) -> bool {
        forall|i: int| 0 <= i < self.bills@.len() ==> #[trigger] self.bills@[i].wf()
    }

    /// Delivers one payment. Its id is looked up among those seen: a
    /// repeated id is ignored, and so is a malformed payment with a negative
    /// amount; a new one is remembered, its amount added to the total, the
    /// payment recorded, and its bills queued.
    pub fn add_payment(&mut self, payment: Payment)
        requires
            old(self).ledger_wf(),
            !old(self).has_seen(payment.id@) && payment.amount_cents >= 0 ==> old(
                self,
            ).total_cents + payment.amount_cents <= i64::MAX,
        ensures
            payment_added(*old(self), *final(self), payment),
            final(self).ledger_wf(),
    {
        if payment.amount_cents < 0 || self.seen(&payment.id) {
            return;
        }
        let ghost pre = *self;
        self.seen_ids.push(payment.id.clone());
        self.total_cents = self.total_cents + payment.amount_cents;
        let units: i64 = if payment.amount_cents < BILL_CENTS {
            0
        } else if payment.amount_cents >= BILL_CENTS * MAX_BILLS_PER_PAYMENT {
            MAX_BILLS_PER_PAYMENT
        } else {
            payment.amount_cents / BILL_CENTS
        };
        let mut i: i64 = 0;
        while i < units
            invariant
                0 <= i <= units,
                units == units_for(payment.amount_cents as int),
                self.pending_bills@ == pre.pending_bills@ + bills_for(payment).take(i as int),
                self.seen_ids@ == pre.seen_ids@.push(payment.id),
                self.total_cents == pre.total_cents + payment.amount_cents,
                *self == (App {
                    seen_ids: self.seen_ids,
                    total_cents: self.total_cents,
                    pending_bills: self.pending_bills,
                    ..pre
                }),
            decreases units - i,
        {
            self.pending_bills.push(PendingBill { amount_cents: BILL_CENTS, provider: payment.provider.clone() });
            i = i + 1;
            assert(bills_for(payment).take(i as int) =~= bills_for(payment).take(i - 1).push(
                bills_for(payment)[i - 1],
            ));
        }
        assert(bills_for(payment).take(units as int) =~= bills_for(payment));
        self.session_payments.push(payment);
        assert(self.seen_view() =~= pre.seen_view().push(payment.id@));
        proof {
            lemma_ledger_kept(pre, *self, payment);
        }
    }

    /// Whether a payment with this id was delivered before.
    pub fn seen(&self, id: &String) -> (r: bool)
        ensures
            r == self.has_seen(id@),
    {
        let mut i: usize = 0;
        while i < self.seen_ids.len()
            invariant
                0 <= i <= self.seen_ids@.len(),
                forall|j: int| 0 <= j < i ==> self.seen_ids@[j]@ != id@,
            decreases self.seen_ids@.len() - i,
        {
            if self.seen_ids[i] == *id {
                assert(self.seen_view()[i as int] == id@);
                return true;
            }
            i = i + 1;
        }
        proof {
            if self.has_seen(id@) {
                let j = choose|j: int| 0 <= j < self.seen_view().len() && self.seen_view()[j] == id@;
                assert(self.seen_ids@[j]@ == id@);
            }
        }
        false
    }
    /// Number of settled bills on screen.
    pub fn settled_bills(&self) -> (r: usize)
        ensures
            r == settled_count(self.bills@),
    {
        let mut count: usize = 0;
        let mut i: usize = 0;
        while i < self.bills.len()
            invariant
                0 <= i <= self.bills@.len(),
                count == settled_count(self.bills@.take(i as int)),
                count <= i,
            decreases self.bills@.len() - i,
        {
            assert(self.bills@.take(i + 1).drop_last() =~= self.bills@.take(i as int));
            if self.bills[i].settled {
                count = count + 1;
            }
            i = i + 1;
        }
        assert(self.bills@.take(i as int) =~= self.bills@);
        count
    }

    /// Row on which the next bill lands.
    fn calculate_stack_position(&self, terminal_height: u16) -> (r: u16)
        ensures
            r as int == stack_target(self.bills@, terminal_height),
    {
        let floor = terminal_height.saturating_sub(FLOOR_MARGIN);
        let settled = self.settled_bills();
        if settled >= (floor / UNIT_HEIGHT) as usize + 1 {
            0
        } else {
            floor.saturating_sub(settled as u16 * UNIT_HEIGHT)
        }
    }

    /// Takes the oldest queued bill, if any, and drops it from the top of
    /// the display towards the top of the stack.
    pub fn spawn_next_bill(&mut self, terminal_height: u16)
        ensures
            bill_spawned(*old(self), *final(self), terminal_height),
    {
        if self.pending_bills.len() == 0 {
            return;
        }
        let pb = self.pending_bills.remove(0);
        let stack_y = self.calculate_stack_position(terminal_height);
        self.bills.push(BillAnimation::spawn(pb.amount_cents, stack_y, pb.provider));
    }

    /// Moves every bill on by one tick of the physics.
    pub fn tick_animations(&mut self)
        requires
            old(self).bills_wf(),
        ensures
            bills_advanced(*old(self), *final(self)),
            final(self).bills_wf(),
    {
        let ghost pre = *self;
        let mut i: usize = 0;
        while i < self.bills.len()
            invariant
                0 <= i <= self.bills@.len(),
                self.bills@.len() == pre.bills@.len(),
                forall|j: int| 0 <= j < i ==> self.bills@[j] == physics_step(#[trigger] pre.bills@[j]),
                forall|j: int| i <= j < self.bills@.len() ==> self.bills@[j] == pre.bills@[j],
                forall|j: int| 0 <= j < self.bills@.len() ==> #[trigger] self.bills@[j].wf(),
                *self == (App { bills: self.bills, ..pre }),
            decreases self.bills@.len() - i,
        {
            self.bills[i].advance();
            i = i + 1;
        }
        assert(self.bills@ =~= pre.bills@.map_values(|b: BillAnimation| physics_step(b)));
    }

    /// Whether the settled bills reach the top of the display.
    pub fn is_screen_full(&self, terminal_height: u16) -> (r: bool)
        ensures
            r == screen_full(self.bills@, terminal_height),
    {
        let limit = terminal_height.saturating_sub(FULL_MARGIN);
        let settled = self.settled_bills();
        settled >= ((limit + 2) / UNIT_HEIGHT) as usize
    }

    /// Clears the screen for a new round. The total, the seen ids and the
    /// payment history stay.
    pub fn reset_session(&mut self)
        ensures
            session_reset(*old(self), *final(self)),
    {
        self.bills.clear();
        self.pending_bills.clear();
        self.celebration_tick = 0;
        self.phase = AppPhase::Running;
    }

    /// Milliseconds from the session's start to the time the clock read.
    pub fn session_duration(&self) -> (r: i64)
        ensures
            exists|now: i64| r == clamped_elapsed(self.start_time, now),
    {
        let now = now_millis();
        elapsed_between(self.start_time, now)
    }
}

} // verus!
