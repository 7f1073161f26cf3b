//! The turtle's state and the shapes it draws.
//!
//! Geometry is exact fixed-point: positions and pen widths in millipixels
//! (1/1000 of a pixel), angles in millidegrees.  A heading is always
//! normalized to `[0, 360000)` millidegrees, with 0 pointing east.
//!
//! Values that carry a vertex list ([`FillPolygon`], [`TurtleState`]) have
//! a mathematical view — a struct over `Seq` — that the contracts speak
//! of; plain coordinate values ([`Point`], [`Color`], [`Pen`]) stand for
//! themselves.

use vstd::prelude::*;

use crate::speed::Speed;

verus! {

/// Millidegrees in a full turn.
pub const FULL_TURN: u32 = 360_000;

/// The largest coordinate magnitude a turtle may reach, in millipixels
/// (a billion pixels): keeps every interpolation product inside `i64`.
pub const COORD_LIMIT: i64 = 1_000_000_000_000;

/// The largest distance a single motion may cover, in millipixels
/// (a million pixels).
pub const DIST_LIMIT: i64 = 1_000_000_000;

/// The largest angle a single turn may cover, in millidegrees
/// (a little under 2800 full turns).
pub const TURN_LIMIT: i64 = 1_000_000_000;

/// An angle brought into `[0, FULL_TURN)` millidegrees.  Spec `%` is
/// Euclidean, so the result is non-negative for negative angles too.
pub open spec fn spec_norm_angle(a: int) -> int {
    a % (FULL_TURN as int)
}

/// Normalizes an angle in millidegrees into `[0, FULL_TURN)`.
pub fn normalize_angle(a: i64) -> (h: u32)
    requires
        -2_000_000_000 <= a <= 2_000_000_000,
    ensures
        h == spec_norm_angle(a as int),
        h < FULL_TURN,
{
    let full: u64 = FULL_TURN as u64;
    if a >= 0 {
        let r: u64 = (a as u64) % full;
        r as u32
    } else {
        let m: u64 = ((-a) as u64) % full;
        proof {
            let ai = a as int;
            let fi = full as int;
            let y = -ai;
            let q = y / fi;
            vstd::arithmetic::div_mod::lemma_fundamental_div_mod(y, fi);
            if m == 0 {
                vstd::arithmetic::div_mod::lemma_mod_multiples_basic(-q, fi);
                assert(ai == -q * fi);
            } else {
                vstd::arithmetic::div_mod::lemma_fundamental_div_mod_converse_mod(
                    ai,
                    fi,
                    -q - 1,
                    fi - m,
                );
                assert(ai == (-q - 1) * fi + (fi - m));
            }
        }
        if m == 0 {
            0
        } else {
            (full - m) as u32
        }
    }
}

/// A point of the drawing plane, in millipixels.
#[derive(Clone, Copy, Debug, PartialEq, Eq, Structural)]
pub struct Point {
    pub x: i64,
    pub y: i64,
}

impl Point {
    /// Both coordinates lie within [`COORD_LIMIT`].
    pub open spec fn in_bounds(self) -> bool {
        &&& -COORD_LIMIT <= self.x <= COORD_LIMIT
        &&& -COORD_LIMIT <= self.y <= COORD_LIMIT
    }
}

/// An RGBA color, one byte per channel.
#[derive(Clone, Copy, Debug, PartialEq, Eq, Structural)]
pub struct Color {
    pub r: u8,
    pub g: u8,
    pub b: u8,
    pub a: u8,
}

impl Color {
    /// Opaque black, the default pen and fill color.
    pub fn black() -> (c: Color)
        ensures
            c == (Color { r: 0, g: 0, b: 0, a: 255 }),
    {
        Color { r: 0, g: 0, b: 0, a: 255 }
    }
}

/// The drawing pen: whether it is down, its color, and its stroke width
/// in millipixels.
#[derive(Clone, Copy, Debug, PartialEq, Eq, Structural)]
pub struct Pen {
    pub down: bool,
    pub color: Color,
    pub width: u32,
}

/// One straight stroke of the drawing history: drawn when a motion
/// completes with the pen down, and never mutated afterwards.
#[derive(Clone, Copy, Debug, PartialEq, Eq, Structural)]
pub struct PathSegment {
    pub start: Point,
    pub end: Point,
    pub color: Color,
    pub width: u32,
}

/// A filled polygon: the vertices visited while a fill was active, and
/// the fill color.  Finalized on end-fill and immutable from then on.
#[derive(Debug, PartialEq)]
pub struct FillPolygon {
    pub vertices: Vec<Point>,
    pub color: Color,
}

/// The mathematical value of a [`FillPolygon`].
pub struct PolygonView {
    pub vertices: Seq<Point>,
    pub color: Color,
}

impl View for FillPolygon {
    type V = PolygonView;

    open spec fn view(&self) -> PolygonView {
        PolygonView { vertices: self.vertices@, color: self.color }
    }
}

impl Clone for FillPolygon {
    /// A clone has the same vertices and color.
    fn clone(&self) -> (r: Self)
        ensures
            r@ == self@,
    {
        let mut vertices: Vec<Point> = Vec::new();
        let mut i: usize = 0;
        while i < self.vertices.len()
            invariant
                i <= self.vertices.len(),
                vertices@ == self.vertices@.subrange(0, i as int),
            decreases self.vertices.len() - i,
        {
            vertices.push(self.vertices[i]);
            proof {
                assert(vertices@ =~= self.vertices@.subrange(0, i + 1));
            }
            i += 1;
        }
        proof {
            assert(vertices@ =~= self.vertices@);
        }
        FillPolygon { vertices, color: self.color }
    }
}

/// The turtle's full state: where it is, where it faces, how it draws.
///
/// The heading is in millidegrees, normalized to `[0, FULL_TURN)`; `fill`
/// holds the polygon being accumulated while a fill is active.
#[derive(Debug, PartialEq)]
pub struct TurtleState {
    pub position: Point,
    pub heading: u32,
    pub pen: Pen,
    pub fill_color: Color,
    pub fill: Option<FillPolygon>,
    pub speed: Speed,
    pub visible: bool,
}

/// The mathematical value of a [`TurtleState`].
pub struct StateView {
    pub position: Point,
    pub heading: u32,
    pub pen: Pen,
    pub fill_color: Color,
    pub fill: Option<PolygonView>,
    pub speed: Speed,
    pub visible: bool,
}

impl View for TurtleState {
    type V = StateView;

    open spec fn view(&self) -> StateView {
        StateView {
            position: self.position,
            heading: self.heading,
            pen: self.pen,
            fill_color: self.fill_color,
            fill: match self.fill {
                Some(p) => Some(p@),
                None => None,
            },
            speed: self.speed,
            visible: self.visible,
        }
    }
}

impl TurtleState {
    /// The state is well formed: the heading is normalized and the
    /// position lies within the coordinate bounds.
    pub open spec fn wf(self) -> bool {
        &&& self.heading < FULL_TURN
        &&& self.position.in_bounds()
    }

    /// A fresh turtle: at the origin facing east, pen down in black,
    /// fill inactive, a mid-table default speed, visible.
    pub fn new() -> (s: TurtleState)
        ensures
            s.wf(),
            s.position == (Point { x: 0, y: 0 }),
            s.heading == 0,
            s.pen == (Pen { down: true, color: Color { r: 0, g: 0, b: 0, a: 255 }, width: 1000 }),
            s.fill_color == (Color { r: 0, g: 0, b: 0, a: 255 }),
            s.fill is None,
            s.speed == Speed::Six,
            s.visible,
    {
        TurtleState {
            position: Point { x: 0, y: 0 },
            heading: 0,
            pen: Pen { down: true, color: Color::black(), width: 1000 },
            fill_color: Color::black(),
            fill: None,
            speed: Speed::Six,
            visible: true,
        }
    }
}

impl Clone for TurtleState {
    /// A clone is the same state, value for value.
    fn clone(&self) -> (r: Self)
        ensures
            r@ == self@,
    {
        TurtleState {
            position: self.position,
            heading: self.heading,
            pen: self.pen,
            fill_color: self.fill_color,
            fill: match &self.fill {
                Some(p) => Some(p.clone()),
                None => None,
            },
            speed: self.speed,
            visible: self.visible,
        }
    }
}

} // verus!
