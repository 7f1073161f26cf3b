//! Speed levels and their physical rates.
//!
//! A [`Speed`] is a named level from [`Speed::One`] to [`Speed::Ten`], plus
//! [`Speed::Instant`], which stands for an infinite rate: a motion at
//! `Instant` takes zero time.  The two profile functions map a level to a
//! linear rate (pixels per second) and an angular rate (degrees per
//! second); both are strictly increasing over `One..Ten`, and `Instant` is
//! strictly the maximum on both axes.
//!
//! Because one millipixel per millisecond equals one pixel per second, and
//! one millidegree per millisecond equals one degree per second, the same
//! numbers serve directly as rates in the fixed-point units the animation
//! engine works in.

use vstd::prelude::*;

verus! {

/// A rate of motion: either a finite positive magnitude or infinite.
///
/// A finite linear rate is in pixels per second (equivalently millipixels
/// per millisecond); a finite angular rate is in degrees per second
/// (equivalently millidegrees per millisecond).  `Infinite` stands for
/// positive infinity: the motion completes instantaneously.
#[derive(Clone, Copy, Debug, PartialEq, Eq, Structural)]
pub enum Rate {
    Finite(u64),
    Infinite,
}

impl Rate {
    /// `self <= other` in the order where `Infinite` is the top element.
    pub open spec fn spec_le(self, other: Rate) -> bool {
        match (self, other) {
            (Rate::Finite(a), Rate::Finite(b)) => a <= b,
            (Rate::Finite(_), Rate::Infinite) => true,
            (Rate::Infinite, Rate::Finite(_)) => false,
            (Rate::Infinite, Rate::Infinite) => true,
        }
    }

    /// `self < other` in the order where `Infinite` is the top element.
    pub open spec fn spec_lt(self, other: Rate) -> bool {
        self.spec_le(other) && self != other
    }
}

/// The speed a turtle moves and turns at: ten named levels and `Instant`.
///
/// Higher levels are strictly faster on both the linear and the angular
/// axis; `Instant` stands for an infinite rate, so motions complete in a
/// single frame with no animation.
#[derive(Clone, Copy, Debug, PartialEq, Eq, Structural)]
pub enum Speed {
    One,
    Two,
    Three,
    Four,
    Five,
    Six,
    Seven,
    Eight,
    Nine,
    Ten,
    Instant,
}

impl Speed {
    /// The numeric level of this speed, 1 for `One` up to 10 for `Ten`,
    /// with 11 for `Instant` so that levels order the variants.
    pub open spec fn spec_level(self) -> int {
        match self {
            Speed::One => 1,
            Speed::Two => 2,
            Speed::Three => 3,
            Speed::Four => 4,
            Speed::Five => 5,
            Speed::Six => 6,
            Speed::Seven => 7,
            Speed::Eight => 8,
            Speed::Nine => 9,
            Speed::Ten => 10,
            Speed::Instant => 11,
        }
    }

    /// The linear rate of each level, in pixels per second.
    pub open spec fn spec_linear_rate(self) -> Rate {
        match self {
            Speed::One => Rate::Finite(10),
            Speed::Two => Rate::Finite(50),
            Speed::Three => Rate::Finite(100),
            Speed::Four => Rate::Finite(150),
            Speed::Five => Rate::Finite(200),
            Speed::Six => Rate::Finite(250),
            Speed::Seven => Rate::Finite(300),
            Speed::Eight => Rate::Finite(350),
            Speed::Nine => Rate::Finite(400),
            Speed::Ten => Rate::Finite(500),
            Speed::Instant => Rate::Infinite,
        }
    }

    /// The angular rate of each level, in degrees per second: level `k`
    /// turns at `54 * k` degrees per second (that is, `0.3 * k * pi`
    /// radians per second).
    pub open spec fn spec_angular_rate(self) -> Rate {
        match self {
            Speed::Instant => Rate::Infinite,
            _ => Rate::Finite((54 * self.spec_level()) as u64),
        }
    }

    /// Converts a speed to its linear rate in pixels per second
    /// (equivalently, millipixels per millisecond).
    pub fn to_absolute(self) -> (r: Rate)
        ensures
            r == self.spec_linear_rate(),
    {
        match self {
            Speed::One => Rate::Finite(10),
            Speed::Two => Rate::Finite(50),
            Speed::Three => Rate::Finite(100),
            Speed::Four => Rate::Finite(150),
            Speed::Five => Rate::Finite(200),
            Speed::Six => Rate::Finite(250),
            Speed::Seven => Rate::Finite(300),
            Speed::Eight => Rate::Finite(350),
            Speed::Nine => Rate::Finite(400),
            Speed::Ten => Rate::Finite(500),
            Speed::Instant => Rate::Infinite,
        }
    }

    /// Converts a speed to its angular rate in degrees per second
    /// (equivalently, millidegrees per millisecond).
    pub fn to_rotation(self) -> (r: Rate)
        ensures
            r == self.spec_angular_rate(),
    {
        match self {
            Speed::One => Rate::Finite(54),
            Speed::Two => Rate::Finite(108),
            Speed::Three => Rate::Finite(162),
            Speed::Four => Rate::Finite(216),
            Speed::Five => Rate::Finite(270),
            Speed::Six => Rate::Finite(324),
            Speed::Seven => Rate::Finite(378),
            Speed::Eight => Rate::Finite(432),
            Speed::Nine => Rate::Finite(486),
            Speed::Ten => Rate::Finite(540),
            Speed::Instant => Rate::Infinite,
        }
    }
}

/// The speed a given level number stands for: 1 through 10 name the ten
/// levels, and every other integer — zero and negative numbers included —
/// maps to `Instant`.  The clamp-to-`Instant` policy for out-of-range
/// levels is deliberate and preserved exactly.
pub open spec fn spec_speed_from_level(n: int) -> Speed {
    if n == 1 {
        Speed::One
    } else if n == 2 {
        Speed::Two
    } else if n == 3 {
        Speed::Three
    } else if n == 4 {
        Speed::Four
    } else if n == 5 {
        Speed::Five
    } else if n == 6 {
        Speed::Six
    } else if n == 7 {
        Speed::Seven
    } else if n == 8 {
        Speed::Eight
    } else if n == 9 {
        Speed::Nine
    } else if n == 10 {
        Speed::Ten
    } else {
        Speed::Instant
    }
}

impl Speed {
    /// The speed named by an integer level: 1..=10 map one-to-one onto
    /// `One..Ten`; anything else (zero and negative values included) maps
    /// to `Instant`.
    pub fn from_level(n: i32) -> (r: Speed)
        ensures
            r == spec_speed_from_level(n as int),
    {
        match n {
            1 => Speed::One,
            2 => Speed::Two,
            3 => Speed::Three,
            4 => Speed::Four,
            5 => Speed::Five,
            6 => Speed::Six,
            7 => Speed::Seven,
            8 => Speed::Eight,
            9 => Speed::Nine,
            10 => Speed::Ten,
            _ => Speed::Instant,
        }
    }
}

/// Character-for-character equality of two strings.
fn str_eq(a: &str, b: &str) -> (r: bool)
    ensures
        r == (a@ == b@),
{
    let n = a.unicode_len();
    if n != b.unicode_len() {
        return false;
    }
    let mut i: usize = 0;
    while i < n
        invariant
            i <= n,
            n == a@.len(),
            n == b@.len(),
            forall|j: int| 0 <= j < i ==> a@[j] == b@[j],
        decreases n - i,
    {
        if a.get_char(i) != b.get_char(i) {
            return false;
        }
        i += 1;
    }
    proof {
        assert(a@ =~= b@);
    }
    true
}

/// The speed a name stands for: exactly five names are recognized, from
/// `"slowest"` through `"fastest"`; every other string names nothing.
pub open spec fn spec_speed_for_name(s: Seq<char>) -> Option<Speed> {
    if s == "slowest"@ {
        Some(Speed::One)
    } else if s == "slow"@ {
        Some(Speed::Three)
    } else if s == "normal"@ {
        Some(Speed::Six)
    } else if s == "fast"@ {
        Some(Speed::Ten)
    } else if s == "fastest"@ {
        Some(Speed::Instant)
    } else {
        None
    }
}

impl Speed {
    /// Looks a speed name up: `Some` exactly for the five recognized
    /// names — `"slowest"`, `"slow"`, `"normal"`, `"fast"`, `"fastest"`
    /// map to `One`, `Three`, `Six`, `Ten`, `Instant` — and `None` for
    /// every other string.
    pub fn parse_name(s: &str) -> (r: Option<Speed>)
        ensures
            r == spec_speed_for_name(s@),
    {
        if str_eq(s, "slowest") {
            Some(Speed::One)
        } else if str_eq(s, "slow") {
            Some(Speed::Three)
        } else if str_eq(s, "normal") {
            Some(Speed::Six)
        } else if str_eq(s, "fast") {
            Some(Speed::Ten)
        } else if str_eq(s, "fastest") {
            Some(Speed::Instant)
        } else {
            None
        }
    }

    /// The speed a recognized name stands for.  Handing in anything but
    /// the five recognized names is a programmer error, ruled out by the
    /// precondition: an unverified caller should look the name up with
    /// [`Speed::parse_name`] first and fail fast when it gets `None`.
    pub fn from_name(s: &str) -> (sp: Speed)
        requires
            spec_speed_for_name(s@) is Some,
        ensures
            Some(sp) == spec_speed_for_name(s@),
    {
        match Speed::parse_name(s) {
            Some(sp) => sp,
            None => {
                proof {
                    assert(false);
                }
                Speed::Instant
            },
        }
    }
}

impl From<i32> for Speed {
    /// Same mapping as [`Speed::from_level`], available through `.into()`.
    fn from(n: i32) -> (r: Speed) {
        Speed::from_level(n)
    }
}

impl vstd::std_specs::convert::FromSpecImpl<i32> for Speed {
    open spec fn obeys_from_spec() -> bool {
        true
    }

    open spec fn from_spec(n: i32) -> Speed {
        spec_speed_from_level(n as int)
    }
}

/// Levels order the speeds: whenever one speed's level is below another's,
/// both its linear and its angular rate are strictly below the other's.
/// In particular, for any two adjacent levels in `One..Ten` the rates are
/// non-decreasing, and strictly increase on both axes.
pub proof fn lemma_rates_strictly_increase(a: Speed, b: Speed)
    requires
        a.spec_level() < b.spec_level(),
    ensures
        a.spec_linear_rate().spec_lt(b.spec_linear_rate()),
        a.spec_angular_rate().spec_lt(b.spec_angular_rate()),
{
}

/// `Instant` is strictly the maximum speed: its rates are infinite, and
/// every named level's linear and angular rate lies strictly below them —
/// in particular `Ten`'s.
pub proof fn lemma_instant_is_maximum(s: Speed)
    requires
        s != Speed::Instant,
    ensures
        Speed::Instant.spec_linear_rate() == Rate::Infinite,
        Speed::Instant.spec_angular_rate() == Rate::Infinite,
        s.spec_linear_rate().spec_lt(Rate::Infinite),
        s.spec_angular_rate().spec_lt(Rate::Infinite),
{
}

/// The level map is one-to-one on 1..=10: distinct in-range levels name
/// distinct speeds.
pub proof fn lemma_from_level_injective(m: int, n: int)
    requires
        1 <= m <= 10,
        1 <= n <= 10,
        m != n,
    ensures
        spec_speed_from_level(m) != spec_speed_from_level(n),
{
}

} // verus!
