//! The drawing history and the repaint function.
//!
//! The renderer owns the append-only history of everything drawn so far:
//! straight strokes and filled polygons.  Repainting replays the whole
//! history in order and then draws the turtle icon, so a window can be
//! repainted at any time — after a resize, or every frame — without new
//! commands.  The repaint is a pure function of the history and the
//! current state: its exact draw-call sequence is pinned by its contract,
//! so repeated repaints with unchanged inputs are identical.

use vstd::prelude::*;

use crate::state::{FillPolygon, PathSegment, Point, PolygonView, StateView, TurtleState};

verus! {

/// One recorded drawing: a pen stroke or a finished fill.
#[derive(Debug, PartialEq)]
pub enum HistoryEntry {
    Segment(PathSegment),
    Polygon(FillPolygon),
}

/// The mathematical value of a [`HistoryEntry`].
pub enum EntryView {
    Segment(PathSegment),
    Polygon(PolygonView),
}

impl View for HistoryEntry {
    type V = EntryView;

    open spec fn view(&self) -> EntryView {
        match self {
            HistoryEntry::Segment(s) => EntryView::Segment(*s),
            HistoryEntry::Polygon(p) => EntryView::Polygon(p@),
        }
    }
}

/// One primitive handed to the graphics backend: draw a line, fill a
/// polygon, or draw the turtle icon at a pose.
#[derive(Debug, PartialEq)]
pub enum DrawCall {
    Line(PathSegment),
    Fill(FillPolygon),
    Turtle { position: Point, heading: u32 },
}

/// The mathematical value of a [`DrawCall`].
pub enum CallView {
    Line(PathSegment),
    Fill(PolygonView),
    Turtle { position: Point, heading: u32 },
}

impl View for DrawCall {
    type V = CallView;

    open spec fn view(&self) -> CallView {
        match self {
            DrawCall::Line(s) => CallView::Line(*s),
            DrawCall::Fill(p) => CallView::Fill(p@),
            DrawCall::Turtle { position, heading } => CallView::Turtle {
                position: *position,
                heading: *heading,
            },
        }
    }
}

/// The draw call that replays one history entry.
pub open spec fn spec_entry_call(e: EntryView) -> CallView {
    match e {
        EntryView::Segment(s) => CallView::Line(s),
        EntryView::Polygon(p) => CallView::Fill(p),
    }
}

/// The full repaint of a history under a turtle state: every entry in
/// order, then the turtle icon at the current pose if it is visible.
pub open spec fn spec_render(h: Seq<EntryView>, s: StateView) -> Seq<CallView> {
    let replay = h.map_values(|e: EntryView| spec_entry_call(e));
    if s.visible {
        replay.push(CallView::Turtle { position: s.position, heading: s.heading })
    } else {
        replay
    }
}

/// Repainting is idempotent: the draw-call sequence is a function of the
/// history and the state alone, so two repaints with unchanged inputs
/// are identical, call for call.
pub proof fn lemma_repaint_deterministic(
    h: Seq<EntryView>,
    s: StateView,
    c1: Seq<CallView>,
    c2: Seq<CallView>,
)
    requires
        c1 == spec_render(h, s),
        c2 == spec_render(h, s),
    ensures
        c1 == c2,
{
}

/// The history is append-only: whatever a command adds, everything
/// already recorded stays, in place and in order.  Only a clear ever
/// shrinks it.
pub proof fn lemma_history_append_only(pre: Seq<EntryView>, records: Seq<EntryView>)
    ensures
        pre.is_prefix_of(pre + records),
{
    assert(pre =~= (pre + records).subrange(0, pre.len() as int));
}

/// The renderer: keeper of the append-only drawing history.
#[derive(Debug)]
pub struct Renderer {
    pub history: Vec<HistoryEntry>,
}

impl View for Renderer {
    type V = Seq<EntryView>;

    open spec fn view(&self) -> Seq<EntryView> {
        self.history@.map_values(|e: HistoryEntry| e@)
    }
}

impl Renderer {
    /// A renderer with an empty history.
    pub fn new() -> (r: Renderer)
        ensures
            r@ == Seq::<EntryView>::empty(),
    {
        let r = Renderer { history: Vec::new() };
        proof {
            assert(r@ =~= Seq::<EntryView>::empty());
        }
        r
    }

    /// Appends one drawing to the history; nothing already recorded
    /// changes.
    pub fn record(&mut self, e: HistoryEntry)
        ensures
            final(self)@ == old(self)@.push(e@),
    {
        self.history.push(e);
        proof {
            assert(self@ =~= old(self)@.push(e@));
        }
    }

    /// Empties the history: the one way it ever shrinks.
    pub fn clear(&mut self)
        ensures
            final(self)@ == Seq::<EntryView>::empty(),
    {
        self.history = Vec::new();
        proof {
            assert(self@ =~= Seq::<EntryView>::empty());
        }
    }

    /// Repaints: replays the entire history in order, then the turtle
    /// icon if visible.  The result is exactly [`spec_render`] of the
    /// history and state, so repeated repaints with unchanged inputs
    /// produce identical draw-call sequences.
    pub fn draw(&self, state: &TurtleState) -> (calls: Vec<DrawCall>)
        ensures
            calls@.map_values(|c: DrawCall| c@) == spec_render(self@, state@),
    {
        let mut calls: Vec<DrawCall> = Vec::new();
        let mut i: usize = 0;
        while i < self.history.len()
            invariant
                i <= self.history.len(),
                calls@.len() == i,
                forall|j: int| 0 <= j < i ==> (#[trigger] calls@[j])@ == spec_entry_call(self@[j]),
            decreases self.history.len() - i,
        {
            match &self.history[i] {
                HistoryEntry::Segment(s) => {
                    calls.push(DrawCall::Line(*s));
                },
                HistoryEntry::Polygon(p) => {
                    calls.push(DrawCall::Fill(p.clone()));
                },
            }
            i += 1;
        }
        if state.visible {
            calls.push(DrawCall::Turtle { position: state.position, heading: state.heading });
        }
        proof {
            let cv = calls@.map_values(|c: DrawCall| c@);
            let rv = spec_render(self@, state@);
            assert forall|j: int| 0 <= j < cv.len() implies cv[j] == rv[j] by {
                assert(cv[j] == calls@[j]@);
                if j < self@.len() {
                    assert(rv[j] == spec_entry_call(self@[j]));
                }
            }
            assert(cv =~= rv);
        }
        calls
    }
}

} // verus!
