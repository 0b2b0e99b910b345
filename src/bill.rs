//! One animated bill: it falls from the top of the display towards its place
//! on the stack, closing seven tenths of the remaining gap per tick, and
//! settles once the gap is below one row.
use vstd::prelude::*;

verus! {

/// Rows that one settled bill takes up on the stack.
pub const UNIT_HEIGHT: u16 = 3;

/// A bill on screen.
///
/// Its position is held exactly: the bill sits `gap_num / gap_den` rows
/// above `target_y`. A bill spawns at row zero, so the gap starts at
/// `target_y`; every move keeps seven tenths of it, so after `moves` moves
/// the gap is `target_y * 7^moves / 10^moves`.
#[derive(Debug, Clone)]
pub struct BillAnimation {
    pub amount_cents: i64,
    pub target_y: u16,
    pub gap_num: u128,
    pub gap_den: u128,
    pub moves: u32,
    pub settled: bool,
    pub age_ticks: u32,
    pub provider: String,
}

/// Age after one more tick; the counter stops at its largest value.
pub open spec fn next_age(age: u32) -> u32 {
    if age < u32::MAX {
        (age + 1) as u32
    } else {
        age
    }
}

/// One tick of the physics: a settled bill only ages; a falling bill whose
/// gap is below one row snaps onto its target and settles; any other falling
/// bill closes three tenths of its gap.
pub open spec fn physics_step(b: BillAnimation) -> BillAnimation {
    if b.settled {
        BillAnimation { age_ticks: next_age(b.age_ticks), ..b }
    } else if b.gap_num < b.gap_den {
        BillAnimation { gap_num: 0, gap_den: 1, settled: true, age_ticks: next_age(b.age_ticks), ..b }
    } else {
        BillAnimation {
            gap_num: (b.gap_num * 7) as u128,
            gap_den: (b.gap_den * 10) as u128,
            moves: (b.moves + 1) as u32,
            age_ticks: next_age(b.age_ticks),
            ..b
        }
    }
}

/// `k` ticks of the physics.
pub open spec fn physics_steps(b: BillAnimation, k: nat) -> BillAnimation
    decreases k,
{
    if k == 0 {
        b
    } else {
        physics_step(physics_steps(b, (k - 1) as nat))
    }
}

/// A freshly spawned bill: at row zero, falling, aged zero.
pub open spec fn spawned(amount_cents: i64, target_y: u16, provider: String) -> BillAnimation {
    BillAnimation {
        amount_cents,
        target_y,
        gap_num: target_y as u128,
        gap_den: 1,
        moves: 0,
        settled: false,
        age_ticks: 0,
        provider,
    }
}

/// `b` raised to the `e`.
pub open spec fn pow(b: int, e: nat) -> int
    decreases e,
{
    if e == 0 {
        1
    } else {
        b * pow(b, (e - 1) as nat)
    }
}

/// Ceiling of `a / b` for a positive `b`.
pub open spec fn ceil_div(a: int, b: int) -> int {
    (a + b - 1) / b
}

proof fn lemma_pow32()
    ensures
        pow(7, 32) == 1104427674243920646305299201int,
        pow(10, 32) == 100000000000000000000000000000000int,
        pow(10, 31) == 10000000000000000000000000000000int,
{
    reveal_with_fuel(pow, 33);
}

proof fn lemma_gap_outruns(k: nat)
    requires
        k >= 32,
    ensures
        65536 * pow(7, k) < pow(10, k),
    decreases k,
{
    if k == 32 {
        lemma_pow32();
    } else {
        lemma_gap_outruns((k - 1) as nat);
        lemma_pow_positive(7, (k - 1) as nat);
        let p7 = pow(7, (k - 1) as nat);
        let p10 = pow(10, (k - 1) as nat);
        assert(pow(7, k) == 7 * p7);
        assert(pow(10, k) == 10 * p10);
        assert(65536 * (7 * p7) < 10 * p10) by (nonlinear_arith)
            requires
                65536 * p7 < p10,
                p7 >= 0,
        ;
    }
}

proof fn lemma_pow_positive(b: int, k: nat)
    requires
        b > 0,
    ensures
        pow(b, k) > 0,
    decreases k,
{
    if k > 0 {
        lemma_pow_positive(b, (k - 1) as nat);
        assert(b * pow(b, (k - 1) as nat) > 0) by (nonlinear_arith)
            requires
                b > 0,
                pow(b, (k - 1) as nat) > 0,
        ;
    }
}

proof fn lemma_pow_grows(b: int, i: nat, j: nat)
    requires
        b > 0,
        i <= j,
    ensures
        pow(b, i) <= pow(b, j),
    decreases j,
{
    if i < j {
        lemma_pow_grows(b, i, (j - 1) as nat);
        lemma_pow_positive(b, (j - 1) as nat);
        assert(pow(b, (j - 1) as nat) <= b * pow(b, (j - 1) as nat)) by (nonlinear_arith)
            requires
                b > 0,
                pow(b, (j - 1) as nat) > 0,
        ;
    }
}

/// A bill whose gap is still at least one row has made at most 31 moves.
proof fn lemma_moves_bounded(t: int, k: nat)
    requires
        0 <= t < 65536,
        t * pow(7, k) >= pow(10, k),
    ensures
        k <= 31,
{
    if k >= 32 {
        lemma_gap_outruns(k);
        lemma_pow_positive(7, k);
        assert(t * pow(7, k) < 65536 * pow(7, k)) by (nonlinear_arith)
            requires
                t < 65536,
                pow(7, k) > 0,
        ;
    }
}

/// One tick keeps a bill's gap exact; in particular nothing overflows.
pub proof fn lemma_step_wf(b: BillAnimation)
    requires
        b.wf(),
    ensures
        physics_step(b).wf(),
        !b.settled && b.gap_num >= b.gap_den ==> {
            &&& physics_step(b).gap_num == b.gap_num * 7
            &&& physics_step(b).gap_den == b.gap_den * 10
        },
{
    if !b.settled && b.gap_num >= b.gap_den {
        let k = b.moves as nat;
        lemma_moves_bounded(b.target_y as int, k);
        lemma_pow_grows(10, k, 31);
        lemma_pow32();
        let t = b.target_y as int;
        let n = b.gap_num as int;
        let d = b.gap_den as int;
        assert(n * 7 <= t * (d * 10)) by (nonlinear_arith)
            requires
                n <= t * d,
                d >= 0,
                t >= 0,
        ;
        assert(t * (d * 10) <= 65535 * (10000000000000000000000000000000int * 10))
            by (nonlinear_arith)
            requires
                0 <= d <= 10000000000000000000000000000000int,
                0 <= t <= 65535,
        ;
        assert(pow(7, k + 1) == 7 * pow(7, k));
        assert(pow(10, k + 1) == 10 * pow(10, k));
        assert(t * pow(7, k + 1) == t * pow(7, k) * 7) by (nonlinear_arith)
            requires
                pow(7, k + 1) == 7 * pow(7, k),
        ;
    }
}

/// Falling from its spawn, a bill that has not come within one row of its
/// target in the first `k` ticks is, after them, still falling and exactly
/// `target_y * 0.7^k` rows above the target.
pub proof fn lemma_gap_after_ticks(amount_cents: i64, target_y: u16, provider: String, k: nat)
    requires
        forall|j: nat| j < k ==> target_y as int * #[trigger] pow(7, j) >= pow(10, j),
    ensures
        physics_steps(spawned(amount_cents, target_y, provider), k).wf(),
        !physics_steps(spawned(amount_cents, target_y, provider), k).settled,
        physics_steps(spawned(amount_cents, target_y, provider), k).moves == k,
        physics_steps(spawned(amount_cents, target_y, provider), k).gap_num == target_y as int
            * pow(7, k),
        physics_steps(spawned(amount_cents, target_y, provider), k).gap_den == pow(10, k),
    decreases k,
{
    reveal_with_fuel(pow, 1);
    if k > 0 {
        let j = (k - 1) as nat;
        lemma_gap_after_ticks(amount_cents, target_y, provider, j);
        let b = physics_steps(spawned(amount_cents, target_y, provider), j);
        assert(target_y as int * pow(7, j) >= pow(10, j));
        lemma_step_wf(b);
        assert(pow(7, k) == 7 * pow(7, j));
        assert(target_y as int * pow(7, j) * 7 == target_y as int * pow(7, k)) by (nonlinear_arith)
            requires
                pow(7, k) == 7 * pow(7, j),
        ;
    }
}

/// A falling bill less than one row above its target snaps exactly onto it
/// at the next tick and settles.
pub proof fn lemma_snaps_when_close(b: BillAnimation)
    requires
        b.wf(),
        !b.settled,
        b.gap_num < b.gap_den,
    ensures
        physics_step(b).settled,
        physics_step(b).gap_num == 0,
        physics_step(b).target_y == b.target_y,
{
}

/// A settled bill never moves again: ticks change its age only.
pub proof fn lemma_settled_stays(b: BillAnimation, k: nat)
    requires
        b.wf(),
        b.settled,
    ensures
        physics_steps(b, k) == (BillAnimation { age_ticks: physics_steps(b, k).age_ticks, ..b }),
    decreases k,
{
    if k > 0 {
        lemma_settled_stays(b, (k - 1) as nat);
    }
}

impl BillAnimation {
    /// The gap is the exact remainder of the spawn distance, or zero once
    /// the bill has settled.
    pub open spec fn wf(&self) -> bool {
        &&& self.gap_num <= self.target_y as int * self.gap_den
        &&& if self.settled {
            self.gap_num == 0 && self.gap_den == 1
        } else {
            &&& self.moves <= 32
            &&& self.gap_den == pow(10, self.moves as nat)
            &&& self.gap_num == self.target_y as int * pow(7, self.moves as nat)
        }
    }

    /// A falling bill at row zero that will land on `target_y`.
    pub fn spawn(amount_cents: i64, target_y: u16, provider: String) -> (b: Self)
        ensures
            b == spawned(amount_cents, target_y, provider),
            b.wf(),
    {
        proof {
            reveal_with_fuel(pow, 1);
        }
        BillAnimation {
            amount_cents,
            target_y,
            gap_num: target_y as u128,
            gap_den: 1,
            moves: 0,
            settled: false,
            age_ticks: 0,
            provider,
        }
    }

    /// Advances the bill by one tick of the physics.
    pub fn advance(&mut self)
        requires
            old(self).wf(),
        ensures
            *final(self) == physics_step(*old(self)),
            final(self).wf(),
    {
        if !self.settled {
            if self.gap_num < self.gap_den {
                self.gap_num = 0;
                self.gap_den = 1;
                self.settled = true;
            } else {
                proof {
                    lemma_step_wf(*self);
                }
                self.gap_num = self.gap_num * 7;
                self.gap_den = self.gap_den * 10;
                self.moves = self.moves + 1;
            }
        }
        if self.age_ticks < u32::MAX {
            self.age_ticks = self.age_ticks + 1;
        }
    }

    /// The screen row the bill occupies: its exact position rounded towards
    /// the top of the display.
    pub fn y_pos_row(&self) -> (r: u16)
        requires
            self.wf(),
        ensures
            r as int == self.target_y as int - ceil_div(self.gap_num as int, self.gap_den as int),
    {
        proof {
            if !self.settled {
                lemma_pow_positive(10, self.moves as nat);
                lemma_pow_grows(10, self.moves as nat, 32);
                lemma_pow32();
            }
            let t = self.target_y as int;
            let n = self.gap_num as int;
            let d = self.gap_den as int;
            assert(t * d <= 65535 * d) by (nonlinear_arith)
                requires
                    0 <= t <= 65535,
                    d > 0,
            ;
            assert(0 <= ceil_div(n, d) <= t) by (nonlinear_arith)
                requires
                    0 <= n <= t * d,
                    d > 0,
            ;
        }
        let lifted = (self.gap_num + self.gap_den - 1) / self.gap_den;
        self.target_y - lifted as u16
    }
}

} // verus!
