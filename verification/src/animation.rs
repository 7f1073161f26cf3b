//! The interpolation engine: turning a state delta and a rate into a
//! finite, exactly-landing sequence of animated frames.
//!
//! A motion command (a move or a turn) becomes an [`Animation`]: the start
//! and target of the change, a duration in milliseconds computed from the
//! active speed's rate, and the elapsed time so far.  Each tick advances
//! the elapsed time, clamped to the duration, and the frame at any moment
//! is the exact linear interpolation between start and target at the
//! fraction `elapsed / duration`.  At `elapsed == duration` the frame
//! equals the target exactly — no overshoot and no residual drift — and a
//! zero-length delta or an infinite rate gives duration 0, so the command
//! completes in a single frame without entering the tick loop.

use vstd::arithmetic::div_mod::{
    lemma_basic_div, lemma_div_by_multiple, lemma_div_is_ordered, lemma_div_is_ordered_by_denominator,
    lemma_div_of0, lemma_div_pos_is_pos, lemma_hoist_over_denominator,
};
use vstd::arithmetic::mul::lemma_mul_inequality;
use vstd::prelude::*;

use crate::speed::Rate;
use crate::state::{Point, FULL_TURN, DIST_LIMIT, TURN_LIMIT};

verus! {

/// The longest duration any single animation may have, in milliseconds:
/// follows from the distance and turn limits and the smallest table rate.
pub const DURATION_LIMIT: u64 = 200_000_000;

/// `delta` scaled by the fraction `num / den`, rounded toward zero.
pub open spec fn spec_scaled(delta: int, num: int, den: int) -> int {
    if delta >= 0 {
        (delta * num) / den
    } else {
        -((-delta * num) / den)
    }
}

/// The linear interpolation from `from` to `to` at the fraction
/// `num / den` of the way, rounded toward `from`.
pub open spec fn spec_lerp(from: int, to: int, num: int, den: int) -> int {
    from + spec_scaled(to - from, num, den)
}

/// The number of milliseconds a delta of magnitude `delta` takes at a
/// rate: zero at an infinite rate, else the delta divided by the rate,
/// rounded up so that the animation never ends short of the target.
pub open spec fn spec_duration(delta: int, rate: Rate) -> int {
    match rate {
        Rate::Infinite => 0,
        Rate::Finite(r) => (delta + r - 1) / (r as int),
    }
}

/// At fraction 0 nothing of the delta is covered.
pub proof fn lemma_scaled_at_start(delta: int, den: int)
    requires
        den >= 1,
    ensures
        spec_scaled(delta, 0, den) == 0,
{
    lemma_div_of0(den);
}

/// At fraction `den / den` the whole delta is covered exactly: the final
/// frame of an animation lands on the target with no drift.
pub proof fn lemma_scaled_at_end(delta: int, den: int)
    requires
        den >= 1,
    ensures
        spec_scaled(delta, den, den) == delta,
{
    if delta >= 0 {
        lemma_div_by_multiple(delta, den);
    } else {
        lemma_div_by_multiple(-delta, den);
    }
}

/// The covered part never exceeds the delta itself.
pub proof fn lemma_scaled_bounded(delta: int, num: int, den: int)
    requires
        den >= 1,
        0 <= num <= den,
    ensures
        delta >= 0 ==> 0 <= spec_scaled(delta, num, den) <= delta,
        delta < 0 ==> delta <= spec_scaled(delta, num, den) <= 0,
{
    let mag = if delta >= 0 { delta } else { -delta };
    lemma_mul_inequality(num, den, mag);
    lemma_div_is_ordered(mag * num, mag * den, den);
    lemma_div_by_multiple(mag, den);
    lemma_div_pos_is_pos(mag * num, den);
    vstd::arithmetic::mul::lemma_mul_nonnegative(mag, num);
}

/// Frames are monotonic in the elapsed fraction: a later fraction never
/// moves the frame back toward the start on any axis.
pub proof fn lemma_scaled_monotonic(delta: int, n1: int, n2: int, den: int)
    requires
        den >= 1,
        0 <= n1 <= n2 <= den,
    ensures
        delta >= 0 ==> spec_scaled(delta, n1, den) <= spec_scaled(delta, n2, den),
        delta < 0 ==> spec_scaled(delta, n2, den) <= spec_scaled(delta, n1, den),
{
    let mag = if delta >= 0 { delta } else { -delta };
    lemma_mul_inequality(n1, n2, mag);
    vstd::arithmetic::mul::lemma_mul_is_commutative(mag, n1);
    vstd::arithmetic::mul::lemma_mul_is_commutative(mag, n2);
    lemma_div_is_ordered(mag * n1, mag * n2, den);
}

/// `delta` scaled by `num / den`, rounded toward zero.
pub fn scale(delta: i64, num: u64, den: u64) -> (r: i64)
    requires
        1 <= den <= DURATION_LIMIT,
        num <= den,
        -DIST_LIMIT - TURN_LIMIT <= delta <= DIST_LIMIT + TURN_LIMIT,
    ensures
        r == spec_scaled(delta as int, num as int, den as int),
        delta >= 0 ==> 0 <= r <= delta,
        delta < 0 ==> delta <= r <= 0,
{
    let mag: u64 = if delta >= 0 {
        delta as u64
    } else {
        (-delta) as u64
    };
    proof {
        assert(mag * num <= 2_000_000_000 * 200_000_000) by (nonlinear_arith)
            requires
                mag <= 2_000_000_000,
                num <= 200_000_000,
        ;
        lemma_mul_inequality(num as int, den as int, mag as int);
        lemma_div_is_ordered(mag as int * num as int, mag as int * den as int, den as int);
        lemma_div_by_multiple(mag as int, den as int);
        lemma_div_pos_is_pos(mag as int * num as int, den as int);
        vstd::arithmetic::mul::lemma_mul_nonnegative(mag as int, num as int);
    }
    let scaled: u64 = mag * num / den;
    if delta >= 0 {
        scaled as i64
    } else {
        -(scaled as i64)
    }
}

/// The duration of a motion of magnitude `delta` at `rate`, in
/// milliseconds: zero at an infinite rate or for an empty delta, else
/// the delta over the rate rounded up.  The extra bounds relate the
/// duration to the delta so that callers can bound their animations.
pub fn duration_ms(delta: u64, rate: Rate) -> (d: u64)
    requires
        delta <= DIST_LIMIT + TURN_LIMIT,
        rate matches Rate::Finite(r) ==> 1 <= r <= 1_000_000,
    ensures
        d == spec_duration(delta as int, rate),
        rate is Infinite ==> d == 0,
        rate matches Rate::Finite(r) ==> {
            &&& (d == 0 <==> delta == 0)
            &&& d <= delta
            &&& r >= 10 ==> d <= delta / 10 + 1
        },
{
    match rate {
        Rate::Infinite => 0,
        Rate::Finite(r) => {
            let d: u64 = (delta + r - 1) / r;
            proof {
                let di = delta as int;
                let ri = r as int;
                if delta == 0 {
                    lemma_basic_div(ri - 1, ri);
                } else {
                    lemma_div_pos_is_pos(di + ri - 1, ri);
                    lemma_div_by_multiple(1, ri);
                    lemma_div_is_ordered(ri, di + ri - 1, ri);
                    // d <= delta: compare with (delta * r + r - 1) / r == delta.
                    assert(di + ri - 1 <= di * ri + ri - 1) by (nonlinear_arith)
                        requires
                            di >= 1,
                            ri >= 1,
                    ;
                    lemma_div_is_ordered(di + ri - 1, di * ri + ri - 1, ri);
                    lemma_hoist_over_denominator(ri - 1, di, ri as nat);
                    lemma_basic_div(ri - 1, ri);
                    // d <= delta / r + 1 <= delta / 10 + 1 for r >= 10.
                    lemma_div_is_ordered(di + ri - 1, di + ri, ri);
                    lemma_hoist_over_denominator(di, 1, ri as nat);
                    if r >= 10 {
                        lemma_div_is_ordered_by_denominator(di, 10, ri);
                    }
                }
            }
            d
        },
    }
}

/// What an animation changes: the turtle's position along a straight
/// line, or its heading through a swept angle.
///
/// A turn is tracked as the unnormalized target `to_raw`, the start
/// heading plus the signed swept angle; every emitted frame normalizes
/// the interpolated heading into `[0, FULL_TURN)`.
#[derive(Clone, Copy, Debug, PartialEq, Eq, Structural)]
pub enum MotionTrack {
    Linear { from: Point, to: Point },
    Angular { from_heading: u32, to_raw: i64 },
}

impl MotionTrack {
    /// The track's geometry lies within the crate's fixed-point bounds.
    pub open spec fn wf(self) -> bool {
        match self {
            MotionTrack::Linear { from, to } => {
                &&& from.in_bounds()
                &&& to.in_bounds()
                &&& -DIST_LIMIT <= to.x - from.x <= DIST_LIMIT
                &&& -DIST_LIMIT <= to.y - from.y <= DIST_LIMIT
            },
            MotionTrack::Angular { from_heading, to_raw } => {
                &&& from_heading < FULL_TURN
                &&& -TURN_LIMIT <= to_raw - from_heading <= TURN_LIMIT
            },
        }
    }
}

/// One in-flight animated motion: its track, its total duration, and the
/// time elapsed so far, clamped to the duration.
#[derive(Clone, Copy, Debug, PartialEq, Eq, Structural)]
pub struct Animation {
    pub track: MotionTrack,
    pub duration: u64,
    pub elapsed: u64,
}

impl Animation {
    /// Well-formed: a positive bounded duration, elapsed time within it,
    /// and a bounded track.
    pub open spec fn wf(self) -> bool {
        &&& self.track.wf()
        &&& 1 <= self.duration <= DURATION_LIMIT
        &&& self.elapsed <= self.duration
    }

    /// True once the animation has reached its full duration: the current
    /// frame is the target and a completion frame may be delivered.
    pub open spec fn spec_done(self) -> bool {
        self.elapsed == self.duration
    }

    /// Advances the animation by one tick of `dt` milliseconds, clamping
    /// at the duration so that no frame is ever sampled past the target;
    /// reports whether the animation is now complete.  The elapsed
    /// fraction never decreases, so frames are monotonic in it.
    pub fn advance(&mut self, dt: u64) -> (done: bool)
        requires
            old(self).wf(),
        ensures
            final(self).wf(),
            final(self).track == old(self).track,
            final(self).duration == old(self).duration,
            final(self).elapsed == if old(self).elapsed + dt >= old(self).duration {
                old(self).duration as int
            } else {
                old(self).elapsed + dt
            },
            old(self).elapsed <= final(self).elapsed,
            done == final(self).spec_done(),
    {
        if dt >= self.duration - self.elapsed {
            self.elapsed = self.duration;
        } else {
            self.elapsed = self.elapsed + dt;
        }
        self.elapsed == self.duration
    }

    /// The position of the current frame of a linear track: each axis is
    /// interpolated exactly at the fraction `elapsed / duration`, so the
    /// final frame is exactly the target.
    pub fn frame_position(&self) -> (p: Point)
        requires
            self.wf(),
            self.track is Linear,
        ensures
            p.x == spec_lerp(
                self.track->Linear_from.x as int,
                self.track->Linear_to.x as int,
                self.elapsed as int,
                self.duration as int,
            ),
            p.y == spec_lerp(
                self.track->Linear_from.y as int,
                self.track->Linear_to.y as int,
                self.elapsed as int,
                self.duration as int,
            ),
            p.in_bounds(),
            self.spec_done() ==> p == self.track->Linear_to,
    {
        match self.track {
            MotionTrack::Linear { from, to } => {
                let dx = scale(to.x - from.x, self.elapsed, self.duration);
                let dy = scale(to.y - from.y, self.elapsed, self.duration);
                proof {
                    if self.spec_done() {
                        lemma_scaled_at_end(to.x - from.x, self.duration as int);
                        lemma_scaled_at_end(to.y - from.y, self.duration as int);
                    }
                }
                Point { x: from.x + dx, y: from.y + dy }
            },
            MotionTrack::Angular { .. } => {
                proof {
                    assert(false);
                }
                Point { x: 0, y: 0 }
            },
        }
    }

    /// The heading of the current frame of an angular track: the swept
    /// angle is interpolated exactly and the result normalized, so the
    /// final frame is exactly the normalized target heading.
    pub fn frame_heading(&self) -> (h: u32)
        requires
            self.wf(),
            self.track is Angular,
        ensures
            h == crate::state::spec_norm_angle(
                spec_lerp(
                    self.track->Angular_from_heading as int,
                    self.track->Angular_to_raw as int,
                    self.elapsed as int,
                    self.duration as int,
                ),
            ),
            h < FULL_TURN,
            self.spec_done() ==> h == crate::state::spec_norm_angle(
                self.track->Angular_to_raw as int,
            ),
    {
        match self.track {
            MotionTrack::Angular { from_heading, to_raw } => {
                let swept = scale(to_raw - from_heading as i64, self.elapsed, self.duration);
                proof {
                    if self.spec_done() {
                        lemma_scaled_at_end(to_raw - from_heading, self.duration as int);
                    }
                }
                crate::state::normalize_angle(from_heading as i64 + swept)
            },
            MotionTrack::Linear { .. } => {
                proof {
                    assert(false);
                }
                0
            },
        }
    }
}

} // verus!
