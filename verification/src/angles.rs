use vstd::prelude::*;
use vstd::arithmetic::div_mod::lemma_div_is_ordered;
use crate::easing::UNIT;

verus! {

/// A full turn, in the unit that angles are counted in: thousandths of a
/// degree.
pub const FULL_TURN: u32 = 360_000;

/// The angles of a clock's three hands, clockwise from twelve, in
/// thousandths of a degree.
#[derive(Clone, Copy, Debug, PartialEq, Eq, Structural)]
pub struct Hands {
    pub second: u32,
    pub minute: u32,
    pub hour: u32,
}

/// The angle that a hand swings in towards: the target itself, or the
/// target one turn further where the hand would otherwise have to move
/// backwards from where it was shown before.
pub open spec fn wrapped(previous: u32, target: u32) -> int {
    if previous > target {
        target + FULL_TURN
    } else {
        target as int
    }
}

/// An angle held back by the progress of a swing-in: its share of
/// `progress` millionths until the swing-in is through, and the angle
/// itself from then on.
pub open spec fn eased(angle: int, progress: u32) -> int {
    if progress < UNIT {
        angle * progress / (UNIT as int)
    } else {
        angle
    }
}

/// The angle at which a hand is shown: the wrapped target, held back by
/// the progress, while the swing-in lasts, and exactly the target once it
/// is through.
pub open spec fn shown_at(previous: u32, target: u32, progress: u32) -> int {
    if progress < UNIT {
        eased(wrapped(previous, target), progress)
    } else {
        target as int
    }
}

/// The angle of the second hand at a time of day.
pub open spec fn second_angle(second: u16, millisecond: u16) -> int {
    (second * 1000 + millisecond) * 6
}

/// The angle of the minute hand at a time of day.
pub open spec fn minute_angle(minute: u16, second: u16, millisecond: u16) -> int {
    minute * 6000 + second_angle(second, millisecond) / 60
}

/// The angle of the hour hand at a time of day, on a dial of twelve hours.
pub open spec fn hour_angle(hour: u16, minute: u16, second: u16, millisecond: u16) -> int {
    (hour % 12) * 30_000 + minute_angle(minute, second, millisecond) / 12
}

impl Hands {
    /// Each hand is within one turn.
    pub open spec fn wf(self) -> bool {
        self.second < FULL_TURN && self.minute < FULL_TURN && self.hour < FULL_TURN
    }

    /// Where the hands stand at a time of day. For a time with at most 59
    /// minutes, 59 seconds and 999 milliseconds each hand is within one
    /// turn.
    pub fn at_time(hour: u16, minute: u16, second: u16, millisecond: u16) -> (hands: Hands)
        ensures
            hands.second == second_angle(second, millisecond),
            hands.minute == minute_angle(minute, second, millisecond),
            hands.hour == hour_angle(hour, minute, second, millisecond),
            minute <= 59 && second <= 59 && millisecond <= 999 ==> hands.wf(),
    {
        let second_hand: u32 = (second as u32 * 1000 + millisecond as u32) * 6;
        let minute_hand: u32 = minute as u32 * 6000 + second_hand / 60;
        let hour_hand: u32 = (hour % 12) as u32 * 30_000 + minute_hand / 12;
        Hands { second: second_hand, minute: minute_hand, hour: hour_hand }
    }
}

/// The angle to swing in towards, given where the hand was shown before.
pub fn wrap_forward(previous: u32, target: u32) -> (angle: u64)
    ensures
        angle == wrapped(previous, target),
{
    if previous > target {
        target as u64 + FULL_TURN as u64
    } else {
        target as u64
    }
}

/// Holds an angle back by the progress of a swing-in.
pub fn attenuate(angle: u64, progress: u32) -> (shown: u64)
    ensures
        shown == eased(angle as int, progress),
        shown <= angle,
{
    if progress < UNIT {
        assert(angle * progress <= u64::MAX * 1_000_000) by (nonlinear_arith)
            requires
                angle <= u64::MAX,
                progress < 1_000_000,
        ;
        let scaled: u128 = angle as u128 * progress as u128;
        proof {
            lemma_eased_bounds(angle as int, progress);
        }
        (scaled / UNIT as u128) as u64
    } else {
        angle
    }
}

/// The angle at which a hand is shown: during a swing-in the wrapped
/// target, held back by the progress; once the swing-in is through, the
/// target itself.
pub fn swing_in(previous: u32, target: u32, progress: u32) -> (shown: u64)
    ensures
        shown == shown_at(previous, target, progress),
{
    if progress < UNIT {
        attenuate(wrap_forward(previous, target), progress)
    } else {
        target as u64
    }
}

proof fn lemma_eased_bounds(angle: int, progress: u32)
    requires
        0 <= angle,
    ensures
        0 <= eased(angle, progress) <= angle,
{
    if progress < UNIT {
        assert(0 <= angle * progress <= angle * UNIT) by (nonlinear_arith)
            requires
                0 <= angle,
                0 <= progress < UNIT,
        ;
        lemma_div_is_ordered(0, angle * progress, UNIT as int);
        lemma_div_is_ordered(angle * progress, angle * UNIT, UNIT as int);
        assert(angle * UNIT / (UNIT as int) == angle) by (nonlinear_arith);
    }
}

/// Wrapping never sends a hand backwards: the angle it swings in towards
/// is at or past the angle it was shown at, so from one frame to the next
/// the target falls by less than a full turn, and in fact not at all. The
/// wrapped angle is the target or the target one turn on.
pub proof fn wrap_never_steps_back(previous: u32, target: u32)
    requires
        previous < FULL_TURN,
    ensures
        wrapped(previous, target) >= previous,
        previous - wrapped(previous, target) < FULL_TURN,
        wrapped(previous, target) == target || wrapped(previous, target) == target + FULL_TURN,
        target < FULL_TURN ==> wrapped(previous, target) < 2 * FULL_TURN,
{
}

/// A hand held back by a swing-in never passes its angle, moves on as the
/// progress grows, and stands exactly at its angle once the swing-in is
/// through.
pub proof fn swing_in_is_monotone(angle: int, earlier: u32, later: u32)
    requires
        0 <= angle,
        earlier <= later,
    ensures
        0 <= eased(angle, earlier) <= eased(angle, later) <= angle,
        later >= UNIT ==> eased(angle, later) == angle,
{
    lemma_eased_bounds(angle, earlier);
    lemma_eased_bounds(angle, later);
    if later < UNIT {
        assert(angle * earlier <= angle * later) by (nonlinear_arith)
            requires
                0 <= angle,
                earlier <= later,
        ;
        lemma_div_is_ordered(angle * earlier, angle * later, UNIT as int);
    }
}

} // verus!
