//! The tick-driven phase machine: what one tick of the control loop and one
//! key press do to the session.
use crate::app::{
    bill_spawned, bills_advanced, payment_added, screen_full, session_reset, App, AppPhase,
    SetupStep,
};
use crate::clock::now_millis;
use crate::psp::Payment;
use crate::setup::{setup_handled, InputKey};
use vstd::prelude::*;

verus! {

/// A bill is spawned on every tick whose count is a multiple of this.
pub const SPAWN_STRIDE: u32 = 3;

/// Ticks the celebration lasts before the session resets by itself.
pub const CELEBRATION_TICKS: u32 = 100;

/// What the control loop does after a key press.
#[derive(Debug, Clone, Copy, PartialEq, Eq, Structural)]
pub enum KeyOutcome {
    Continue,
    Quit,
    SetupDone,
}

/// The celebration timer after one more tick, or `None` where the session
/// resets.
pub open spec fn celebration_next(c: u32) -> Option<u32> {
    if c >= CELEBRATION_TICKS {
        None
    } else {
        Some((c + 1) as u32)
    }
}

/// The celebration timer after `n` more ticks, or `None` once the session
/// has reset.
pub open spec fn celebration_after(c: u32, n: nat) -> Option<u32>
    decreases n,
{
    if n == 0 {
        Some(c)
    } else {
        match celebration_after(c, (n - 1) as nat) {
            Some(d) => celebration_next(d),
            None => None,
        }
    }
}

/// Whether the tick numbered `tick_count` spawns a bill from the queue.
pub open spec fn spawn_due(pre: App, tick_count: u32) -> bool {
    tick_count % SPAWN_STRIDE == 0 && pre.pending_bills@.len() > 0
}

/// The end of a running tick, from the state `m` after the physics step: the
/// session celebrates once the stack fills the display and the queue is
/// empty; while no bill is on screen the timer follows the tick count, for
/// the waiting animation.
pub open spec fn running_tick_ends(m: App, post: App, tick_count: u32, height: u16) -> bool {
    if screen_full(m.bills@, height) && m.pending_bills@.len() == 0 {
        post == (App { phase: AppPhase::Celebration, celebration_tick: 1, ..m })
    } else {
        post == (App {
            celebration_tick: if m.bills@.len() == 0 {
                tick_count
            } else {
                m.celebration_tick
            },
            ..m
        })
    }
}

/// What the tick numbered `tick_count` does to the session on a display
/// `height` rows high.
pub open spec fn ticked(pre: App, post: App, tick_count: u32, height: u16) -> bool {
    match pre.phase {
        AppPhase::Setup => post == pre,
        AppPhase::Running => exists|s: App, m: App|
            {
                &&& if spawn_due(pre, tick_count) {
                    bill_spawned(pre, s, height)
                } else {
                    s == pre
                }
                &&& bills_advanced(s, m)
                &&& running_tick_ends(m, post, tick_count, height)
            },
        AppPhase::Celebration => match celebration_next(pre.celebration_tick) {
            Some(c) => post == (App { celebration_tick: c, ..pre }),
            None => exists|r: App|
                session_reset(pre, r) && post == (App { celebration_tick: tick_count, ..r }),
        },
    }
}

/// Whether the key quits the running or celebrating session.
pub open spec fn is_quit_key(key: InputKey) -> bool {
    key == InputKey::Char('q') || key == InputKey::Esc
}

/// Whether the key ends the celebration early.
pub open spec fn is_confirm_key(key: InputKey) -> bool {
    key == InputKey::Enter || key == InputKey::Char(' ')
}

/// What one key press does to the session.
pub open spec fn key_handled(pre: App, post: App, key: InputKey, r: KeyOutcome) -> bool {
    match pre.phase {
        AppPhase::Setup => exists|w: App, done: bool|
            {
                &&& setup_handled(pre, w, key, done)
                &&& if done {
                    r == KeyOutcome::SetupDone && post == (App {
                        phase: AppPhase::Running,
                        start_time: post.start_time,
                        ..w
                    })
                } else {
                    &&& post == w
                    &&& r == if key == InputKey::Char('q') && (w.setup_step == SetupStep::Currency
                        || w.setup_step == SetupStep::ProviderSelect) {
                        KeyOutcome::Quit
                    } else {
                        KeyOutcome::Continue
                    }
                }
            },
        _ => if is_quit_key(key) {
            r == KeyOutcome::Quit && post == pre
        } else if pre.phase == AppPhase::Celebration && is_confirm_key(key) {
            r == KeyOutcome::Continue && session_reset(pre, post)
        } else {
            r == KeyOutcome::Continue && post == pre
        },
    }
}

proof fn lemma_celebration_counts(n: nat)
    requires
        n <= CELEBRATION_TICKS,
    ensures
        celebration_after(0, n) == Some(n as u32),
    decreases n,
{
    if n > 0 {
        lemma_celebration_counts((n - 1) as nat);
    }
}

/// From its start with the timer at zero, the celebration runs for 100
/// ticks and the session resets at the 101st.
pub proof fn lemma_celebration_cadence(n: nat)
    ensures
        1 <= n <= CELEBRATION_TICKS ==> celebration_after(0, n) == Some(n as u32),
        celebration_after(0, (CELEBRATION_TICKS + 1) as nat).is_none(),
{
    if n <= CELEBRATION_TICKS {
        lemma_celebration_counts(n);
    }
    lemma_celebration_counts(CELEBRATION_TICKS as nat);
}

proof fn lemma_celebration_prefix(states: Seq<App>, ticks: Seq<u32>, height: u16, m: int)
    requires
        states.len() == ticks.len() + 1,
        states[0].phase == AppPhase::Celebration,
        states[0].celebration_tick == 0,
        forall|i: int|
            0 <= i < ticks.len() ==> #[trigger] ticked(states[i], states[i + 1], ticks[i], height),
        0 <= m <= CELEBRATION_TICKS,
        m < states.len(),
    ensures
        states[m] == (App { celebration_tick: m as u32, ..states[0] }),
    decreases m,
{
    if m > 0 {
        lemma_celebration_prefix(states, ticks, height, m - 1);
        assert(ticked(states[m - 1], states[m], ticks[m - 1], height));
    }
}

/// A run of ticks from the start of the celebration, with the timer at zero
/// and no key pressed: ticks 1 to 100 keep celebrating, the timer counting
/// them and nothing else changing; tick 101 starts a new round with an empty
/// screen and queue, and the money counted kept.
pub proof fn lemma_celebration_run(states: Seq<App>, ticks: Seq<u32>, height: u16)
    requires
        states.len() == ticks.len() + 1,
        states[0].phase == AppPhase::Celebration,
        states[0].celebration_tick == 0,
        forall|i: int|
            0 <= i < ticks.len() ==> #[trigger] ticked(states[i], states[i + 1], ticks[i], height),
    ensures
        forall|m: int|
            1 <= m <= CELEBRATION_TICKS && m < states.len() ==> #[trigger] states[m] == (App {
                celebration_tick: m as u32,
                ..states[0]
            }),
        states.len() > CELEBRATION_TICKS + 1 ==> {
            let s = states[CELEBRATION_TICKS + 1];
            &&& s.phase == AppPhase::Running
            &&& s.bills@.len() == 0
            &&& s.pending_bills@.len() == 0
            &&& s.total_cents == states[0].total_cents
            &&& s.seen_ids == states[0].seen_ids
            &&& s.session_payments == states[0].session_payments
        },
{
    assert forall|m: int| 1 <= m <= CELEBRATION_TICKS && m < states.len() implies #[trigger] states[m]
        == (App { celebration_tick: m as u32, ..states[0] }) by {
        lemma_celebration_prefix(states, ticks, height, m);
    }
    if states.len() > CELEBRATION_TICKS + 1 {
        let c = CELEBRATION_TICKS as int;
        lemma_celebration_prefix(states, ticks, height, c);
        assert(ticked(states[c], states[c + 1], ticks[c], height));
    }
}

/// No tick and no key press changes the total.
pub proof fn lemma_total_kept_by_control(
    pre: App,
    post: App,
    tick_count: u32,
    height: u16,
    key: InputKey,
    r: KeyOutcome,
)
    ensures
        ticked(pre, post, tick_count, height) ==> post.total_cents == pre.total_cents,
        key_handled(pre, post, key, r) ==> post.total_cents == pre.total_cents,
        session_reset(pre, post) ==> post.total_cents == pre.total_cents,
{
}

impl App {
    /// Whether delivering `payment` would take the total out of range.
    pub fn would_overflow(&self, payment: &Payment) -> (r: bool)
        ensures
            r == (!self.has_seen(payment.id@) && payment.amount_cents >= 0 && self.total_cents
                + payment.amount_cents > i64::MAX),
    {
        if payment.amount_cents < 0 || self.seen(&payment.id) {
            false
        } else {
            self.total_cents.checked_add(payment.amount_cents).is_none()
        }
    }

    /// One tick of the control loop on a display `terminal_height` rows
    /// high: while running, every third tick spawns the oldest queued bill,
    /// then all bills move and a full stack with an empty queue starts the
    /// celebration; while celebrating, the timer counts and the session
    /// resets once it passes its limit.
    pub fn tick(&mut self, tick_count: u32, terminal_height: u16)
        requires
            old(self).bills_wf(),
        ensures
            ticked(*old(self), *final(self), tick_count, terminal_height),
            final(self).bills_wf(),
            old(self).ledger_wf() ==> final(self).ledger_wf(),
    {
        let ghost pre = *self;
        match self.phase {
            AppPhase::Setup => {},
            AppPhase::Running => {
                if tick_count % SPAWN_STRIDE == 0 && self.pending_bills.len() > 0 {
                    self.spawn_next_bill(terminal_height);
                }
                let ghost s = *self;
                proof {
                    assert forall|i: int| 0 <= i < s.bills@.len() implies #[trigger] s.bills@[i].wf() by {
                        if i == pre.bills@.len() {
                            assert(s.bills@[i].wf());
                        } else {
                            assert(s.bills@[i] == pre.bills@[i]);
                        }
                    }
                }
                self.tick_animations();
                let ghost m = *self;
                if self.is_screen_full(terminal_height) && self.pending_bills.len() == 0 {
                    self.phase = AppPhase::Celebration;
                    self.celebration_tick = 1;
                } else if self.bills.len() == 0 {
                    self.celebration_tick = tick_count;
                }
                assert(running_tick_ends(m, *self, tick_count, terminal_height));
            },
            AppPhase::Celebration => {
                if self.celebration_tick >= CELEBRATION_TICKS {
                    self.reset_session();
                    let ghost r = *self;
                    self.celebration_tick = tick_count;
                    assert(session_reset(pre, r));
                } else {
                    self.celebration_tick = self.celebration_tick + 1;
                }
            },
        }
    }

    /// Routes one key press: to the wizard during setup, where finishing it
    /// starts the session; otherwise `q` or escape quits, and during the
    /// celebration enter or space starts the next round at once.
    pub fn handle_key(&mut self, key: InputKey) -> (r: KeyOutcome)
        requires
            old(self).setup_wf(),
        ensures
            key_handled(*old(self), *final(self), key, r),
            final(self).setup_wf(),
            old(self).bills_wf() ==> final(self).bills_wf(),
            old(self).ledger_wf() ==> final(self).ledger_wf(),
    {
        match self.phase {
            AppPhase::Setup => {
                let done = self.handle_setup_input(key);
                if done {
                    self.phase = AppPhase::Running;
                    self.start_time = now_millis();
                    KeyOutcome::SetupDone
                } else if key == InputKey::Char('q') && (self.setup_step == SetupStep::Currency
                    || self.setup_step == SetupStep::ProviderSelect) {
                    KeyOutcome::Quit
                } else {
                    KeyOutcome::Continue
                }
            },
            _ => {
                if key == InputKey::Char('q') || key == InputKey::Esc {
                    KeyOutcome::Quit
                } else if self.phase == AppPhase::Celebration && (key == InputKey::Enter || key
                    == InputKey::Char(' ')) {
                    self.reset_session();
                    KeyOutcome::Continue
                } else {
                    KeyOutcome::Continue
                }
            },
        }
    }
}

} // verus!
