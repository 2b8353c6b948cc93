use vstd::prelude::*;
use vstd::arithmetic::div_mod::{lemma_div_is_ordered, lemma_div_multiples_vanish_quotient};
use vstd::arithmetic::div_mod::lemma_div_pos_is_pos;

verus! {

/// One, in the fixed point that progress and ratios are counted in:
/// millionths.
pub const UNIT: u32 = 1_000_000;

/// Microseconds in a second.
pub const MICROS_PER_SECOND: u64 = 1_000_000;

/// An entrance transition that speeds up, holds its speed and slows down.
///
/// The speed rises evenly from nothing over the first `acceleration`
/// millionths of the duration and falls evenly to nothing over the last
/// `deceleration` millionths; between the two it is constant.
#[derive(Clone, Copy, Debug, PartialEq, Eq, Structural)]
pub struct Transition {
    /// How long the transition takes, in microseconds.
    pub duration: u64,
    /// The share of the duration spent speeding up, in millionths.
    pub acceleration: u32,
    /// The share of the duration spent slowing down, in millionths.
    pub deceleration: u32,
}

/// A progress value that follows a transition from the moment it was
/// scheduled at.
#[derive(Clone, Copy, Debug, PartialEq, Eq, Structural)]
pub struct Animation {
    pub transition: Transition,
    /// The reading of the clock when the transition was scheduled, in
    /// microseconds.
    pub started: u64,
}

/// The time that a counter reading stands for, in microseconds, for a
/// counter that advances `frequency` times a second; the largest number
/// that fits, where the time is longer than that.
pub open spec fn micros_of(ticks: u64, frequency: u64) -> int {
    let exact = ticks as int * MICROS_PER_SECOND as int / frequency as int;
    if exact > u64::MAX {
        u64::MAX as int
    } else {
        exact
    }
}

/// The speed profile's area, doubled: what the progress formulas divide
/// by. It is at least one, since the two ratios together are at most one.
pub open spec fn span(acceleration: int, deceleration: int) -> int {
    2 * UNIT - acceleration - deceleration
}

/// Progress in millionths after `x` millionths of the duration, for
/// `0 <= x`, rounded to a whole millionth.
///
/// With `a` and `d` the two ratios and `k = 2 - a - d`, all as fractions
/// of one, the progress is `x * x / (a * k)` while speeding up,
/// `(2 * x - a) / k` at constant speed, and `1 - (1 - x) * (1 - x) / (d * k)`
/// while slowing down. Past the end it stays at one.
pub open spec fn curve(x: int, acceleration: int, deceleration: int) -> int {
    if x >= UNIT {
        UNIT as int
    } else if x < acceleration {
        UNIT * (x * x) / (acceleration * (2 * UNIT - acceleration - deceleration))
    } else if x <= UNIT - deceleration {
        UNIT * (2 * x - acceleration) / (2 * UNIT - acceleration - deceleration)
    } else {
        UNIT - UNIT * ((UNIT - x) * (UNIT - x)) / (deceleration * (2 * UNIT - acceleration
            - deceleration))
    }
}

impl Transition {
    /// The two ratios are shares of one duration: together they are at
    /// most one.
    pub open spec fn wf(self) -> bool {
        self.acceleration + self.deceleration <= UNIT
    }

    /// The share of the duration that has passed, in millionths: one from
    /// the end of the duration on.
    pub open spec fn fraction_at(self, elapsed: int) -> int {
        if elapsed >= self.duration {
            UNIT as int
        } else {
            elapsed * UNIT / (self.duration as int)
        }
    }

    /// The progress in millionths when `elapsed` microseconds have passed.
    pub open spec fn progress_at(self, elapsed: int) -> int {
        curve(self.fraction_at(elapsed), self.acceleration as int, self.deceleration as int)
    }

    /// A transition of the given duration and ratios, if the ratios are at
    /// most one together.
    pub fn new(duration: u64, acceleration: u32, deceleration: u32) -> (made: Option<Transition>)
        ensures
            acceleration + deceleration <= UNIT ==> made == Some(
                Transition { duration, acceleration, deceleration },
            ),
            acceleration + deceleration > UNIT ==> made is None,
    {
        if acceleration <= UNIT && deceleration <= UNIT - acceleration {
            Some(Transition { duration, acceleration, deceleration })
        } else {
            None
        }
    }

    /// The share of the duration that has passed after `elapsed`
    /// microseconds, in millionths.
    pub fn fraction(&self, elapsed: u64) -> (x: u32)
        ensures
            x == self.fraction_at(elapsed as int),
            x <= UNIT,
    {
        if elapsed >= self.duration {
            UNIT
        } else {
            assert(elapsed * UNIT <= u64::MAX * 1_000_000) by (nonlinear_arith)
                requires
                    elapsed <= u64::MAX,
                    UNIT == 1_000_000,
            ;
            let scaled: u128 = elapsed as u128 * UNIT as u128;
            let x: u128 = scaled / self.duration as u128;
            proof {
                lemma_fraction_bounds(elapsed as int, self.duration as int);
            }
            x as u32
        }
    }

    /// The progress in millionths after `elapsed` microseconds.
    pub fn progress(&self, elapsed: u64) -> (p: u32)
        requires
            self.wf(),
        ensures
            p == self.progress_at(elapsed as int),
            p <= UNIT,
    {
        let x = self.fraction(elapsed);
        ease(x, self.acceleration, self.deceleration)
    }
}

impl Animation {
    /// The progress in millionths at the clock reading `now`: nothing
    /// before the transition was scheduled.
    pub open spec fn value_at(self, now: int) -> int {
        if now <= self.started {
            0
        } else {
            self.transition.progress_at(now - self.started)
        }
    }

    /// Schedules a transition at the clock reading `now`.
    pub fn schedule(transition: Transition, now: u64) -> (animation: Animation)
        ensures
            animation == (Animation { transition, started: now }),
    {
        Animation { transition, started: now }
    }

    /// The progress in millionths at the clock reading `now`.
    pub fn value(&self, now: u64) -> (p: u32)
        requires
            self.transition.wf(),
        ensures
            p == self.value_at(now as int),
            p <= UNIT,
    {
        if now <= self.started {
            0
        } else {
            self.transition.progress(now - self.started)
        }
    }
}

/// Turns the reading of a counter that advances `frequency` times a second
/// into microseconds.
pub fn micros(ticks: u64, frequency: u64) -> (time: u64)
    requires
        frequency > 0,
    ensures
        time == micros_of(ticks, frequency),
{
    let scaled: u128 = ticks as u128 * MICROS_PER_SECOND as u128;
    let exact: u128 = scaled / frequency as u128;
    if exact > u64::MAX as u128 {
        u64::MAX
    } else {
        exact as u64
    }
}

/// Progress in millionths after `x` millionths of the duration.
pub fn ease(x: u32, acceleration: u32, deceleration: u32) -> (p: u32)
    requires
        acceleration + deceleration <= UNIT,
    ensures
        p == curve(x as int, acceleration as int, deceleration as int),
        p <= UNIT,
{
    proof {
        lemma_curve_bounds(x as int, acceleration as int, deceleration as int);
    }
    let one: u64 = UNIT as u64;
    let a: u64 = acceleration as u64;
    let d: u64 = deceleration as u64;
    let k: u64 = 2 * one - a - d;
    let x: u64 = x as u64;
    if x >= one {
        UNIT
    } else if x < a {
        assert(x * x <= 1_000_000 * 1_000_000) by (nonlinear_arith)
            requires
                x < 1_000_000,
        ;
        assert(0 < a * k <= 1_000_000 * 2_000_000) by (nonlinear_arith)
            requires
                0 < a <= 1_000_000,
                0 < k <= 2_000_000,
        ;
        let square: u64 = x * x;
        (one * square / (a * k)) as u32
    } else if x <= one - d {
        (one * (2 * x - a) / k) as u32
    } else {
        let rest: u64 = one - x;
        assert(rest * rest <= 1_000_000 * 1_000_000) by (nonlinear_arith)
            requires
                rest <= 1_000_000,
        ;
        assert(0 < d * k <= 1_000_000 * 2_000_000) by (nonlinear_arith)
            requires
                0 < d <= 1_000_000,
                0 < k <= 2_000_000,
        ;
        let square: u64 = rest * rest;
        (one - one * square / (d * k)) as u32
    }
}

// ----------------------------------------------------------------------
// Proofs
// ----------------------------------------------------------------------

proof fn lemma_fraction_bounds(elapsed: int, duration: int)
    requires
        0 <= elapsed < duration,
    ensures
        0 <= elapsed * UNIT / duration < UNIT,
{
    let n = elapsed * UNIT;
    assert(0 <= n) by (nonlinear_arith)
        requires
            0 <= elapsed,
            n == elapsed * UNIT,
    ;
    lemma_div_pos_is_pos(n, duration);
    assert(n / duration < UNIT) by (nonlinear_arith)
        requires
            0 <= elapsed < duration,
            n == elapsed * UNIT,
    ;
}

/// While speeding up, progress stays at or below what constant speed
/// starts from.
proof fn lemma_rise_bound(x: int, a: int, k: int)
    requires
        0 <= x < a,
        0 < k,
    ensures
        0 <= UNIT * (x * x) / (a * k) <= UNIT * a / k,
{
    let n = UNIT * (x * x);
    let m = a * (UNIT * a);
    assert(0 <= n <= m) by (nonlinear_arith)
        requires
            0 <= x < a,
            n == UNIT * (x * x),
            m == a * (UNIT * a),
    ;
    lemma_div_multiples_vanish_quotient(a, UNIT * a, k);
    lemma_div_is_ordered(n, m, a * k);
    lemma_div_pos_is_pos(n, a * k);
}

/// While slowing down, what is still missing is at most what is missing
/// when the slowing down starts.
proof fn lemma_settle_bound(x: int, d: int, k: int)
    requires
        UNIT - d < x <= UNIT,
        0 < k,
    ensures
        0 <= UNIT * ((UNIT - x) * (UNIT - x)) / (d * k) <= UNIT * d / k,
{
    let r = UNIT - x;
    let n = UNIT * (r * r);
    let m = d * (UNIT * d);
    assert(0 <= n <= m) by (nonlinear_arith)
        requires
            0 <= r < d,
            n == UNIT * (r * r),
            m == d * (UNIT * d),
    ;
    lemma_div_multiples_vanish_quotient(d, UNIT * d, k);
    lemma_div_is_ordered(n, m, d * k);
    lemma_div_pos_is_pos(n, d * k);
}

/// Where constant speed ends, progress is at most one less what the
/// slowing down still has to cover.
proof fn lemma_cruise_end(d: int, k: int)
    requires
        0 <= d,
        0 < k,
    ensures
        UNIT * (k - d) / k <= UNIT - UNIT * d / k,
{
    let q = UNIT * d / k;
    assert(UNIT * (k - d) <= k * (UNIT - q)) by (nonlinear_arith)
        requires
            0 < k,
            q == UNIT * d / k,
    ;
    lemma_div_is_ordered(UNIT * (k - d), k * (UNIT - q), k);
    assert(k * (UNIT - q) / k == UNIT - q) by (nonlinear_arith)
        requires
            0 < k,
    ;
}

/// Progress lies between nothing and one.
pub proof fn lemma_curve_bounds(x: int, a: int, d: int)
    requires
        0 <= x,
        0 <= a,
        0 <= d,
        a + d <= UNIT,
    ensures
        0 <= curve(x, a, d) <= UNIT,
{
    let k = span(a, d);
    if x >= UNIT {
    } else if x < a {
        lemma_rise_bound(x, a, k);
        lemma_div_is_ordered(UNIT * a, UNIT * k, k);
        assert(UNIT * a <= UNIT * k) by (nonlinear_arith)
            requires
                a <= k,
        ;
        assert(UNIT * k / k == UNIT) by (nonlinear_arith)
            requires
                0 < k,
        ;
    } else if x <= UNIT - d {
        let n = UNIT * (2 * x - a);
        assert(0 <= n <= UNIT * k) by (nonlinear_arith)
            requires
                a <= x,
                0 <= a,
                2 * x - a <= k,
                n == UNIT * (2 * x - a),
        ;
        lemma_div_pos_is_pos(n, k);
        lemma_div_is_ordered(n, UNIT * k, k);
        assert(UNIT * k / k == UNIT) by (nonlinear_arith)
            requires
                0 < k,
        ;
    } else {
        lemma_settle_bound(x, d, k);
        lemma_div_is_ordered(UNIT * d, UNIT * k, k);
        assert(UNIT * d <= UNIT * k) by (nonlinear_arith)
            requires
                d <= k,
        ;
        assert(UNIT * k / k == UNIT) by (nonlinear_arith)
            requires
                0 < k,
        ;
    }
}

/// Progress never falls as the share of the duration that has passed
/// grows.
pub proof fn lemma_curve_is_monotone(x: int, y: int, a: int, d: int)
    requires
        0 <= x <= y,
        0 <= a,
        0 <= d,
        a + d <= UNIT,
    ensures
        curve(x, a, d) <= curve(y, a, d),
{
    let k = span(a, d);
    lemma_curve_bounds(x, a, d);
    lemma_curve_bounds(y, a, d);
    if y >= UNIT {
    } else if y < a {
        // both speeding up
        assert(UNIT * (x * x) <= UNIT * (y * y)) by (nonlinear_arith)
            requires
                0 <= x <= y,
        ;
        assert(0 < a * k) by (nonlinear_arith)
            requires
                0 < a,
                0 < k,
        ;
        lemma_div_is_ordered(UNIT * (x * x), UNIT * (y * y), a * k);
    } else if y <= UNIT - d {
        // y at constant speed
        let start = UNIT * a / k;
        assert(UNIT * a <= UNIT * (2 * y - a)) by (nonlinear_arith)
            requires
                a <= y,
        ;
        lemma_div_is_ordered(UNIT * a, UNIT * (2 * y - a), k);
        if x < a {
            lemma_rise_bound(x, a, k);
        } else {
            assert(UNIT * (2 * x - a) <= UNIT * (2 * y - a)) by (nonlinear_arith)
                requires
                    x <= y,
            ;
            lemma_div_is_ordered(UNIT * (2 * x - a), UNIT * (2 * y - a), k);
        }
    } else {
        // y slowing down
        lemma_settle_bound(y, d, k);
        lemma_cruise_end(d, k);
        let end = UNIT * (k - d) / k;
        assert(end <= curve(y, a, d));
        if x < a {
            lemma_rise_bound(x, a, k);
            assert(UNIT * a <= UNIT * (k - d)) by (nonlinear_arith)
                requires
                    a <= k - d,
            ;
            lemma_div_is_ordered(UNIT * a, UNIT * (k - d), k);
        } else if x <= UNIT - d {
            assert(UNIT * (2 * x - a) <= UNIT * (k - d)) by (nonlinear_arith)
                requires
                    2 * x - a <= k - d,
            ;
            lemma_div_is_ordered(UNIT * (2 * x - a), UNIT * (k - d), k);
        } else {
            let rx = UNIT - x;
            let ry = UNIT - y;
            assert(UNIT * (ry * ry) <= UNIT * (rx * rx)) by (nonlinear_arith)
                requires
                    0 <= ry <= rx,
            ;
            assert(0 < d * k) by (nonlinear_arith)
                requires
                    0 < d,
                    0 < k,
            ;
            lemma_div_is_ordered(UNIT * (ry * ry), UNIT * (rx * rx), d * k);
        }
    }
}

/// The share of the duration that has passed never falls as time goes on.
pub proof fn lemma_fraction_is_monotone(transition: Transition, earlier: int, later: int)
    requires
        0 <= earlier <= later,
    ensures
        0 <= transition.fraction_at(earlier) <= transition.fraction_at(later) <= UNIT,
{
    let duration = transition.duration as int;
    if later >= duration {
        if earlier < duration {
            lemma_fraction_bounds(earlier, duration);
        }
    } else {
        lemma_fraction_bounds(earlier, duration);
        lemma_fraction_bounds(later, duration);
        assert(earlier * UNIT <= later * UNIT) by (nonlinear_arith)
            requires
                earlier <= later,
        ;
        lemma_div_is_ordered(earlier * UNIT, later * UNIT, duration);
    }
}

/// Progress never falls as time goes on, whatever the duration; and from
/// the end of the duration on it is exactly one, the value that the curve
/// levels off at.
pub proof fn progress_is_monotone(transition: Transition, earlier: int, later: int)
    requires
        transition.wf(),
        0 <= earlier <= later,
    ensures
        0 <= transition.progress_at(earlier) <= transition.progress_at(later) <= UNIT,
        later >= transition.duration ==> transition.progress_at(later) == UNIT,
{
    lemma_fraction_is_monotone(transition, earlier, later);
    let a = transition.acceleration as int;
    let d = transition.deceleration as int;
    lemma_curve_is_monotone(transition.fraction_at(earlier), transition.fraction_at(later), a, d);
    lemma_curve_bounds(transition.fraction_at(earlier), a, d);
    lemma_curve_bounds(transition.fraction_at(later), a, d);
}

/// The value of an animation never falls as the clock advances, and from
/// the end of the transition on it is exactly one.
pub proof fn animation_is_monotone(animation: Animation, earlier: int, later: int)
    requires
        animation.transition.wf(),
        0 <= earlier <= later,
    ensures
        0 <= animation.value_at(earlier) <= animation.value_at(later) <= UNIT,
        later > animation.started && later - animation.started >= animation.transition.duration
            ==> animation.value_at(later) == UNIT,
{
    let started = animation.started as int;
    if later <= started {
    } else if earlier <= started {
        progress_is_monotone(animation.transition, 0, later - started);
    } else {
        progress_is_monotone(animation.transition, earlier - started, later - started);
    }
}

} // verus!
