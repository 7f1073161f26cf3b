//! The command/tick state machine between the caller and the render loop.
//!
//! The caller's context submits one [`DrawingCommand`] at a time; the
//! render context owns this [`Synchronizer`] and drives it: [`submit`]
//! starts a command (completing it at once when no animation is needed),
//! [`tick`] advances the in-flight animation by one clock step, and
//! [`close`] records that the window closed, aborting any in-flight
//! animation without delivering its completion frame.  Once closed, every
//! submission fails with [`RenderError::WindowClosed`]; commands are
//! strictly sequenced because a new one may only be submitted when no
//! animation is active.
//!
//! The message-passing plumbing that lets a caller block on a command
//! across threads — and the trigonometry that turns a heading into a unit
//! [`Direction`] — is the unverified shell's job; every decision about
//! state, history and timing is made, exactly, here.
//!
//! [`submit`]: Synchronizer::submit
//! [`tick`]: Synchronizer::tick
//! [`close`]: Synchronizer::close

use vstd::arithmetic::div_mod::{lemma_div_by_multiple, lemma_div_is_ordered, lemma_div_pos_is_pos};
use vstd::arithmetic::mul::lemma_mul_inequality;
use vstd::math::abs;
use vstd::prelude::*;

use crate::animation::{spec_duration, spec_lerp, Animation, MotionTrack, duration_ms};
use crate::renderer::{EntryView, HistoryEntry, Renderer};
use crate::speed::{Rate, Speed};
use crate::state::{
    spec_norm_angle, normalize_angle, Color, FillPolygon, PathSegment, Pen, Point, PolygonView,
    StateView, TurtleState, COORD_LIMIT, DIST_LIMIT, FULL_TURN, TURN_LIMIT,
};

verus! {

/// Millionths in a whole: the fixed-point scale of a [`Direction`].
pub const UNIT_SCALE: i64 = 1_000_000;

/// The unit vector of the turtle's heading, in millionths: `ux` is the
/// cosine and `uy` the sine of the heading, each scaled by
/// [`UNIT_SCALE`].  Computing it from the heading takes trigonometry —
/// floating point, which stays outside this crate — so the render shell
/// hands it in alongside each command; every claim about a motion is
/// exact relative to the direction supplied.
#[derive(Clone, Copy, Debug, PartialEq, Eq, Structural)]
pub struct Direction {
    pub ux: i64,
    pub uy: i64,
}

impl Direction {
    /// Each component is at most one whole unit in magnitude.
    pub open spec fn wf(self) -> bool {
        &&& -UNIT_SCALE <= self.ux <= UNIT_SCALE
        &&& -UNIT_SCALE <= self.uy <= UNIT_SCALE
    }
}

/// `a * b / den`, rounded toward zero.
pub open spec fn spec_mul_div(a: int, b: int, den: int) -> int {
    if a * b >= 0 {
        (a * b) / den
    } else {
        -((-(a * b)) / den)
    }
}

/// One axis of the displacement of a move: the distance times the
/// direction component, divided by the unit scale, rounded toward zero.
pub fn displacement(d: i64, u: i64) -> (r: i64)
    requires
        -DIST_LIMIT <= d <= DIST_LIMIT,
        -UNIT_SCALE <= u <= UNIT_SCALE,
    ensures
        r == spec_mul_div(d as int, u as int, UNIT_SCALE as int),
        -abs(d as int) <= r <= abs(d as int),
{
    let mag_d: u64 = if d >= 0 {
        d as u64
    } else {
        (-d) as u64
    };
    let mag_u: u64 = if u >= 0 {
        u as u64
    } else {
        (-u) as u64
    };
    proof {
        let di = d as int;
        let ui = u as int;
        assert(mag_d * mag_u <= 1_000_000_000 * 1_000_000) by (nonlinear_arith)
            requires
                mag_d <= 1_000_000_000,
                mag_u <= 1_000_000,
        ;
        assert(di * ui == if (di < 0) != (ui < 0) {
            -(mag_d as int * mag_u as int)
        } else {
            mag_d as int * mag_u as int
        }) by (nonlinear_arith)
            requires
                mag_d == (if di >= 0 { di } else { -di }),
                mag_u == (if ui >= 0 { ui } else { -ui }),
        ;
        lemma_mul_inequality(mag_u as int, UNIT_SCALE as int, mag_d as int);
        vstd::arithmetic::mul::lemma_mul_is_commutative(mag_u as int, mag_d as int);
        vstd::arithmetic::mul::lemma_mul_is_commutative(UNIT_SCALE as int, mag_d as int);
        lemma_div_is_ordered(
            mag_d as int * mag_u as int,
            mag_d as int * UNIT_SCALE as int,
            UNIT_SCALE as int,
        );
        lemma_div_by_multiple(mag_d as int, UNIT_SCALE as int);
        lemma_div_pos_is_pos(mag_d as int * mag_u as int, UNIT_SCALE as int);
        vstd::arithmetic::mul::lemma_mul_nonnegative(mag_d as int, mag_u as int);
    }
    let q: u64 = mag_d * mag_u / (UNIT_SCALE as u64);
    if (d < 0) != (u < 0) {
        -(q as i64)
    } else {
        q as i64
    }
}

/// One command of the drawing protocol.  Distances are in millipixels,
/// angles in millidegrees (a positive turn is counterclockwise); a
/// command is immutable once submitted.
#[derive(Clone, Copy, Debug, PartialEq, Eq, Structural)]
pub enum DrawingCommand {
    Move(i64),
    Turn(i64),
    PenUp,
    PenDown,
    SetSpeed(Speed),
    SetPenColor(Color),
    SetFillColor(Color),
    BeginFill,
    EndFill,
    TeleportTo(Point, u32),
    Clear,
    SetVisible(bool),
}

impl DrawingCommand {
    /// The command's magnitudes fit the crate's fixed-point bounds from
    /// the turtle's current position: moves stay within the coordinate
    /// range, turns and teleports are bounded.
    pub open spec fn in_limits(self, pos: Point) -> bool {
        match self {
            DrawingCommand::Move(d) => {
                &&& -DIST_LIMIT <= d <= DIST_LIMIT
                &&& -COORD_LIMIT + abs(d as int) <= pos.x <= COORD_LIMIT - abs(d as int)
                &&& -COORD_LIMIT + abs(d as int) <= pos.y <= COORD_LIMIT - abs(d as int)
            },
            DrawingCommand::Turn(a) => -TURN_LIMIT <= a <= TURN_LIMIT,
            DrawingCommand::TeleportTo(p, h) => p.in_bounds() && h < FULL_TURN,
            _ => true,
        }
    }
}

/// The one environment failure a command can meet: the window closed
/// before or while it ran.  Closure is permanent, so every later
/// command fails the same way.
#[derive(Clone, Copy, Debug, PartialEq, Eq, Structural)]
pub enum RenderError {
    WindowClosed,
}

impl RenderError {
    /// A human-readable description of the failure.
    pub fn message(&self) -> (m: &'static str)
        ensures
            m@ == "the window was closed"@,
    {
        "the window was closed"
    }
}

/// What a submission did: completed at once with the resulting state,
/// started an animation whose completion a later tick will report, or
/// failed because the window is closed.
#[derive(Debug, PartialEq)]
pub enum SubmitOutcome {
    Done(TurtleState),
    Animating,
    Failed(RenderError),
}

/// What one tick did: nothing was in flight, the animation progressed,
/// or it completed with the resulting state.
#[derive(Debug, PartialEq)]
pub enum TickOutcome {
    Idle,
    Progressing,
    Completed(TurtleState),
}

impl StateView {
    /// After a move lands on `p`: the position changes, and while a fill
    /// is active the landing point joins its vertices.
    pub open spec fn moved_to(self, p: Point) -> StateView {
        StateView {
            position: p,
            heading: self.heading,
            pen: self.pen,
            fill_color: self.fill_color,
            fill: spec_fill_push(self.fill, p),
            speed: self.speed,
            visible: self.visible,
        }
    }

    /// With the position replaced and nothing else touched: an
    /// intermediate animation frame.
    pub open spec fn positioned_at(self, p: Point) -> StateView {
        StateView {
            position: p,
            heading: self.heading,
            pen: self.pen,
            fill_color: self.fill_color,
            fill: self.fill,
            speed: self.speed,
            visible: self.visible,
        }
    }

    /// With the heading replaced and nothing else touched.
    pub open spec fn headed(self, h: u32) -> StateView {
        StateView {
            position: self.position,
            heading: h,
            pen: self.pen,
            fill_color: self.fill_color,
            fill: self.fill,
            speed: self.speed,
            visible: self.visible,
        }
    }

    /// With the pen raised or lowered.
    pub open spec fn with_pen_down(self, down: bool) -> StateView {
        StateView {
            position: self.position,
            heading: self.heading,
            pen: Pen { down, color: self.pen.color, width: self.pen.width },
            fill_color: self.fill_color,
            fill: self.fill,
            speed: self.speed,
            visible: self.visible,
        }
    }

    /// With another pen color.
    pub open spec fn with_pen_color(self, c: Color) -> StateView {
        StateView {
            position: self.position,
            heading: self.heading,
            pen: Pen { down: self.pen.down, color: c, width: self.pen.width },
            fill_color: self.fill_color,
            fill: self.fill,
            speed: self.speed,
            visible: self.visible,
        }
    }

    /// With another fill color.
    pub open spec fn with_fill_color(self, c: Color) -> StateView {
        StateView {
            position: self.position,
            heading: self.heading,
            pen: self.pen,
            fill_color: c,
            fill: self.fill,
            speed: self.speed,
            visible: self.visible,
        }
    }

    /// With another speed.
    pub open spec fn with_speed(self, s: Speed) -> StateView {
        StateView {
            position: self.position,
            heading: self.heading,
            pen: self.pen,
            fill_color: self.fill_color,
            fill: self.fill,
            speed: s,
            visible: self.visible,
        }
    }

    /// With the turtle icon shown or hidden.
    pub open spec fn with_visible(self, v: bool) -> StateView {
        StateView {
            position: self.position,
            heading: self.heading,
            pen: self.pen,
            fill_color: self.fill_color,
            fill: self.fill,
            speed: self.speed,
            visible: v,
        }
    }

    /// After begin-fill: a fresh accumulator seeded with the current
    /// position, in the current fill color.  Beginning anew while a fill
    /// is already active restarts the accumulator.
    pub open spec fn fill_begun(self) -> StateView {
        StateView {
            position: self.position,
            heading: self.heading,
            pen: self.pen,
            fill_color: self.fill_color,
            fill: Some(
                PolygonView { vertices: seq![self.position], color: self.fill_color },
            ),
            speed: self.speed,
            visible: self.visible,
        }
    }

    /// After end-fill: no fill is active any more.
    pub open spec fn fill_ended(self) -> StateView {
        StateView {
            position: self.position,
            heading: self.heading,
            pen: self.pen,
            fill_color: self.fill_color,
            fill: None,
            speed: self.speed,
            visible: self.visible,
        }
    }

    /// After a teleport: position and heading jump with no animation and
    /// no pen stroke; while a fill is active the new position joins it.
    pub open spec fn teleported(self, p: Point, h: u32) -> StateView {
        StateView {
            position: p,
            heading: h,
            pen: self.pen,
            fill_color: self.fill_color,
            fill: spec_fill_push(self.fill, p),
            speed: self.speed,
            visible: self.visible,
        }
    }
}

/// While a fill is active, a visited point joins its vertices.
pub open spec fn spec_fill_push(f: Option<PolygonView>, p: Point) -> Option<PolygonView> {
    match f {
        Some(q) => Some(PolygonView { vertices: q.vertices.push(p), color: q.color }),
        None => None,
    }
}

/// The target of a move of `d` millipixels along direction `dir`.
pub open spec fn spec_move_target(pos: Point, d: int, dir: Direction) -> Point {
    Point {
        x: (pos.x + spec_mul_div(d, dir.ux as int, UNIT_SCALE as int)) as i64,
        y: (pos.y + spec_mul_div(d, dir.uy as int, UNIT_SCALE as int)) as i64,
    }
}

/// The stroke a completed motion from `from` to `to` records: one path
/// segment in the current pen, when the pen is down; nothing otherwise.
pub open spec fn spec_stroke_records(pre: StateView, from: Point, to: Point) -> Seq<EntryView> {
    if pre.pen.down {
        seq![
            EntryView::Segment(
                PathSegment { start: from, end: to, color: pre.pen.color, width: pre.pen.width },
            ),
        ]
    } else {
        Seq::empty()
    }
}

/// What end-fill records: the finalized polygon, when a fill was active.
pub open spec fn spec_end_fill_records(pre: StateView) -> Seq<EntryView> {
    match pre.fill {
        Some(poly) => seq![EntryView::Polygon(poly)],
        None => Seq::empty(),
    }
}

/// The animation `a` advanced by `dt` milliseconds, clamped at its
/// duration.
pub open spec fn spec_advanced(a: Animation, dt: int) -> Animation {
    Animation {
        track: a.track,
        duration: a.duration,
        elapsed: (if a.elapsed + dt >= a.duration {
            a.duration as int
        } else {
            a.elapsed + dt
        }) as u64,
    }
}

/// The state shown by the current frame of `a`: the interpolated
/// position of a linear track, or the normalized interpolated heading of
/// an angular one.
pub open spec fn spec_frame_state(pre: StateView, a: Animation) -> StateView {
    match a.track {
        MotionTrack::Linear { from, to } => pre.positioned_at(
            Point {
                x: spec_lerp(from.x as int, to.x as int, a.elapsed as int, a.duration as int) as i64,
                y: spec_lerp(from.y as int, to.y as int, a.elapsed as int, a.duration as int) as i64,
            },
        ),
        MotionTrack::Angular { from_heading, to_raw } => pre.headed(
            spec_norm_angle(
                spec_lerp(from_heading as int, to_raw as int, a.elapsed as int, a.duration as int),
            ) as u32,
        ),
    }
}

/// The state after animation `a` lands: exactly its target, with the
/// landing point joining an active fill for a move.
pub open spec fn spec_landed_state(pre: StateView, a: Animation) -> StateView {
    match a.track {
        MotionTrack::Linear { from, to } => pre.moved_to(to),
        MotionTrack::Angular { from_heading, to_raw } => pre.headed(
            spec_norm_angle(to_raw as int) as u32,
        ),
    }
}

/// What a landed animation records: the full stroke of a move made with
/// the pen down; a turn records nothing.
pub open spec fn spec_landed_records(pre: StateView, a: Animation) -> Seq<EntryView> {
    match a.track {
        MotionTrack::Linear { from, to } => spec_stroke_records(pre, from, to),
        MotionTrack::Angular { .. } => Seq::empty(),
    }
}

/// Everything `submit` promises on an open window, command by command:
/// the exact state and history after the call, whether an animation was
/// started and which, and the outcome handed back.
pub open spec fn spec_submit_holds(
    pre: StateView,
    pre_h: Seq<EntryView>,
    cmd: DrawingCommand,
    dir: Direction,
    post: StateView,
    post_h: Seq<EntryView>,
    post_active: Option<Animation>,
    r: SubmitOutcome,
) -> bool {
    match cmd {
        DrawingCommand::Move(d) => {
            let target = spec_move_target(pre.position, d as int, dir);
            let dur = spec_duration(abs(d as int) as int, pre.speed.spec_linear_rate());
            if dur == 0 {
                &&& post == pre.moved_to(target)
                &&& post_h == pre_h + spec_stroke_records(pre, pre.position, target)
                &&& post_active is None
                &&& (r matches SubmitOutcome::Done(snap) && snap@ == post)
            } else {
                &&& post == pre
                &&& post_h == pre_h
                &&& post_active == Some(
                    Animation {
                        track: MotionTrack::Linear { from: pre.position, to: target },
                        duration: dur as u64,
                        elapsed: 0,
                    },
                )
                &&& r == SubmitOutcome::Animating
            }
        },
        DrawingCommand::Turn(a) => {
            let dur = spec_duration(abs(a as int) as int, pre.speed.spec_angular_rate());
            if dur == 0 {
                &&& post == pre.headed(spec_norm_angle(pre.heading + a) as u32)
                &&& post_h == pre_h
                &&& post_active is None
                &&& (r matches SubmitOutcome::Done(snap) && snap@ == post)
            } else {
                &&& post == pre
                &&& post_h == pre_h
                &&& post_active == Some(
                    Animation {
                        track: MotionTrack::Angular {
                            from_heading: pre.heading,
                            to_raw: (pre.heading + a) as i64,
                        },
                        duration: dur as u64,
                        elapsed: 0,
                    },
                )
                &&& r == SubmitOutcome::Animating
            }
        },
        DrawingCommand::PenUp => spec_instant_holds(pre.with_pen_down(false), pre_h, post, post_h, post_active, r),
        DrawingCommand::PenDown => spec_instant_holds(pre.with_pen_down(true), pre_h, post, post_h, post_active, r),
        DrawingCommand::SetSpeed(s) => spec_instant_holds(pre.with_speed(s), pre_h, post, post_h, post_active, r),
        DrawingCommand::SetPenColor(c) => spec_instant_holds(pre.with_pen_color(c), pre_h, post, post_h, post_active, r),
        DrawingCommand::SetFillColor(c) => spec_instant_holds(pre.with_fill_color(c), pre_h, post, post_h, post_active, r),
        DrawingCommand::BeginFill => spec_instant_holds(pre.fill_begun(), pre_h, post, post_h, post_active, r),
        DrawingCommand::EndFill => spec_instant_holds(
            pre.fill_ended(),
            pre_h + spec_end_fill_records(pre),
            post,
            post_h,
            post_active,
            r,
        ),
        DrawingCommand::TeleportTo(p, h) => spec_instant_holds(pre.teleported(p, h), pre_h, post, post_h, post_active, r),
        DrawingCommand::Clear => spec_instant_holds(pre, Seq::empty(), post, post_h, post_active, r),
        DrawingCommand::SetVisible(v) => spec_instant_holds(pre.with_visible(v), pre_h, post, post_h, post_active, r),
    }
}

/// An instantaneous command lands on `want` with history `want_h`, no
/// animation, and its snapshot handed back.
pub open spec fn spec_instant_holds(
    want: StateView,
    want_h: Seq<EntryView>,
    post: StateView,
    post_h: Seq<EntryView>,
    post_active: Option<Animation>,
    r: SubmitOutcome,
) -> bool {
    &&& post == want
    &&& post_h == want_h
    &&& post_active is None
    &&& (r matches SubmitOutcome::Done(snap) && snap@ == post)
}

/// The synchronizer: the turtle's state, the drawing history, the
/// in-flight animation if any, and whether the window has closed.
#[derive(Debug)]
pub struct Synchronizer {
    pub state: TurtleState,
    pub renderer: Renderer,
    pub active: Option<Animation>,
    pub closed: bool,
}

impl Synchronizer {
    /// Well-formed: the state is, any in-flight animation is, and a
    /// closed window has no animation in flight.
    pub open spec fn wf(self) -> bool {
        &&& self.state.wf()
        &&& match self.active {
            Some(a) => a.wf() && !self.closed,
            None => true,
        }
    }

    /// A fresh synchronizer around a fresh turtle: open window, empty
    /// history, nothing in flight.
    pub fn new() -> (s: Synchronizer)
        ensures
            s.wf(),
            !s.closed,
            s.active is None,
            s.renderer@ == Seq::<EntryView>::empty(),
            s.state.position == (Point { x: 0, y: 0 }),
            s.state.heading == 0,
            s.state.pen == (Pen {
                down: true,
                color: Color { r: 0, g: 0, b: 0, a: 255 },
                width: 1000,
            }),
            s.state.fill_color == (Color { r: 0, g: 0, b: 0, a: 255 }),
            s.state.fill is None,
            s.state.speed == Speed::Six,
            s.state.visible,
    {
        Synchronizer {
            state: TurtleState::new(),
            renderer: Renderer::new(),
            active: None,
            closed: false,
        }
    }

    /// An immutable snapshot of the current turtle state.
    pub fn snapshot(&self) -> (s: TurtleState)
        ensures
            s@ == self.state@,
    {
        self.state.clone()
    }

    /// Starts one command.  On a closed window it fails at once with
    /// [`RenderError::WindowClosed`] and changes nothing.  Otherwise an
    /// instantaneous command — anything but a motion, a zero motion, or
    /// any motion at `Instant` speed — applies fully, records its stroke
    /// or polygon, and hands back the resulting snapshot; a motion that
    /// takes time becomes the in-flight animation, started at elapsed 0,
    /// and nothing is drawn until its frames land.  A command may only be
    /// submitted once the previous command's animation has completed or
    /// been cancelled.
    pub fn submit(&mut self, cmd: DrawingCommand, dir: Direction) -> (r: SubmitOutcome)
        requires
            old(self).wf(),
            old(self).active is None,
            dir.wf(),
            cmd.in_limits(old(self).state.position),
        ensures
            final(self).wf(),
            final(self).closed == old(self).closed,
            old(self).closed ==> {
                &&& r == SubmitOutcome::Failed(RenderError::WindowClosed)
                &&& final(self).state@ == old(self).state@
                &&& final(self).renderer@ == old(self).renderer@
                &&& final(self).active is None
            },
            !old(self).closed ==> spec_submit_holds(
                old(self).state@,
                old(self).renderer@,
                cmd,
                dir,
                final(self).state@,
                final(self).renderer@,
                final(self).active,
                r,
            ),
    {
        if self.closed {
            return SubmitOutcome::Failed(RenderError::WindowClosed);
        }
        match cmd {
            DrawingCommand::Move(d) => {
                let rate = self.state.speed.to_absolute();
                proof {
                    assert(rate matches Rate::Finite(v) ==> 10 <= v <= 540);
                }
                let mag: u64 = if d >= 0 {
                    d as u64
                } else {
                    (-d) as u64
                };
                let dur = duration_ms(mag, rate);
                let dx = displacement(d, dir.ux);
                let dy = displacement(d, dir.uy);
                let start = self.state.position;
                let target = Point { x: start.x + dx, y: start.y + dy };
                if dur == 0 {
                    self.state.position = target;
                    match &mut self.state.fill {
                        Some(p) => p.vertices.push(target),
                        None => {},
                    }
                    if self.state.pen.down {
                        self.renderer.record(
                            HistoryEntry::Segment(
                                PathSegment {
                                    start,
                                    end: target,
                                    color: self.state.pen.color,
                                    width: self.state.pen.width,
                                },
                            ),
                        );
                    }
                    proof {
                        assert(self.renderer@ =~= old(self).renderer@ + spec_stroke_records(
                            old(self).state@,
                            start,
                            target,
                        ));
                    }
                    SubmitOutcome::Done(self.state.clone())
                } else {
                    self.active = Some(
                        Animation {
                            track: MotionTrack::Linear { from: start, to: target },
                            duration: dur,
                            elapsed: 0,
                        },
                    );
                    SubmitOutcome::Animating
                }
            },
            DrawingCommand::Turn(a) => {
                let rate = self.state.speed.to_rotation();
                proof {
                    assert(rate matches Rate::Finite(v) ==> 54 <= v <= 540);
                }
                let mag: u64 = if a >= 0 {
                    a as u64
                } else {
                    (-a) as u64
                };
                let dur = duration_ms(mag, rate);
                let raw: i64 = self.state.heading as i64 + a;
                if dur == 0 {
                    self.state.heading = normalize_angle(raw);
                    SubmitOutcome::Done(self.state.clone())
                } else {
                    self.active = Some(
                        Animation {
                            track: MotionTrack::Angular {
                                from_heading: self.state.heading,
                                to_raw: raw,
                            },
                            duration: dur,
                            elapsed: 0,
                        },
                    );
                    SubmitOutcome::Animating
                }
            },
            DrawingCommand::PenUp => {
                self.state.pen.down = false;
                SubmitOutcome::Done(self.state.clone())
            },
            DrawingCommand::PenDown => {
                self.state.pen.down = true;
                SubmitOutcome::Done(self.state.clone())
            },
            DrawingCommand::SetSpeed(s) => {
                self.state.speed = s;
                SubmitOutcome::Done(self.state.clone())
            },
            DrawingCommand::SetPenColor(c) => {
                self.state.pen.color = c;
                SubmitOutcome::Done(self.state.clone())
            },
            DrawingCommand::SetFillColor(c) => {
                self.state.fill_color = c;
                SubmitOutcome::Done(self.state.clone())
            },
            DrawingCommand::BeginFill => {
                let mut vertices: Vec<Point> = Vec::new();
                vertices.push(self.state.position);
                self.state.fill = Some(
                    FillPolygon { vertices, color: self.state.fill_color },
                );
                proof {
                    assert(self.state@.fill == Some(
                        PolygonView {
                            vertices: seq![self.state.position],
                            color: self.state.fill_color,
                        },
                    ));
                }
                SubmitOutcome::Done(self.state.clone())
            },
            DrawingCommand::EndFill => {
                match &self.state.fill {
                    Some(p) => {
                        let poly = p.clone();
                        self.state.fill = None;
                        self.renderer.record(HistoryEntry::Polygon(poly));
                    },
                    None => {},
                }
                proof {
                    assert(self.renderer@ =~= old(self).renderer@ + spec_end_fill_records(
                        old(self).state@,
                    ));
                }
                SubmitOutcome::Done(self.state.clone())
            },
            DrawingCommand::TeleportTo(p, h) => {
                self.state.position = p;
                self.state.heading = h;
                match &mut self.state.fill {
                    Some(q) => q.vertices.push(p),
                    None => {},
                }
                SubmitOutcome::Done(self.state.clone())
            },
            DrawingCommand::Clear => {
                self.renderer.clear();
                SubmitOutcome::Done(self.state.clone())
            },
            DrawingCommand::SetVisible(v) => {
                self.state.visible = v;
                SubmitOutcome::Done(self.state.clone())
            },
        }
    }

    /// Advances the in-flight animation by one tick of `dt`
    /// milliseconds.  With nothing in flight the tick changes nothing.
    /// A frame short of the duration updates the state to the
    /// interpolated frame; the frame that reaches it lands exactly on
    /// the target, records the stroke of a pen-down move, clears the
    /// in-flight slot and hands back the completed snapshot.
    pub fn tick(&mut self, dt: u64) -> (r: TickOutcome)
        requires
            old(self).wf(),
        ensures
            final(self).wf(),
            final(self).closed == old(self).closed,
            old(self).active is None ==> {
                &&& r == TickOutcome::Idle
                &&& final(self).state@ == old(self).state@
                &&& final(self).renderer@ == old(self).renderer@
                &&& final(self).active is None
            },
            old(self).active matches Some(a) ==> {
                let adv = spec_advanced(a, dt as int);
                if adv.elapsed < adv.duration {
                    &&& r == TickOutcome::Progressing
                    &&& final(self).active == Some(adv)
                    &&& final(self).state@ == spec_frame_state(old(self).state@, adv)
                    &&& final(self).renderer@ == old(self).renderer@
                } else {
                    &&& (r matches TickOutcome::Completed(snap) && snap@ == final(self).state@)
                    &&& final(self).active is None
                    &&& final(self).state@ == spec_landed_state(old(self).state@, a)
                    &&& final(self).renderer@ == old(self).renderer@ + spec_landed_records(
                        old(self).state@,
                        a,
                    )
                }
            },
    {
        match self.active {
            None => TickOutcome::Idle,
            Some(a) => {
                let mut anim = a;
                let done = anim.advance(dt);
                if !done {
                    match anim.track {
                        MotionTrack::Linear { .. } => {
                            self.state.position = anim.frame_position();
                        },
                        MotionTrack::Angular { .. } => {
                            self.state.heading = anim.frame_heading();
                        },
                    }
                    self.active = Some(anim);
                    TickOutcome::Progressing
                } else {
                    match anim.track {
                        MotionTrack::Linear { from, to } => {
                            self.state.position = to;
                            match &mut self.state.fill {
                                Some(p) => p.vertices.push(to),
                                None => {},
                            }
                            if self.state.pen.down {
                                self.renderer.record(
                                    HistoryEntry::Segment(
                                        PathSegment {
                                            start: from,
                                            end: to,
                                            color: self.state.pen.color,
                                            width: self.state.pen.width,
                                        },
                                    ),
                                );
                            }
                        },
                        MotionTrack::Angular { .. } => {
                            self.state.heading = anim.frame_heading();
                        },
                    }
                    self.active = None;
                    proof {
                        assert(self.renderer@ =~= old(self).renderer@ + spec_landed_records(
                            old(self).state@,
                            a,
                        ));
                    }
                    TickOutcome::Completed(self.state.clone())
                }
            },
        }
    }

    /// Records that the window closed.  Closure is permanent; any
    /// in-flight animation is aborted on the spot — its completion frame
    /// is never delivered — and every later submission fails.  The state
    /// and the history stay as they were: already-rendered output is not
    /// corrupted.
    pub fn close(&mut self)
        requires
            old(self).wf(),
        ensures
            final(self).wf(),
            final(self).closed,
            final(self).active is None,
            final(self).state@ == old(self).state@,
            final(self).renderer@ == old(self).renderer@,
    {
        self.closed = true;
        self.active = None;
    }
}

} // verus!
