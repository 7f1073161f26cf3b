use turtle::renderer::{DrawCall, HistoryEntry};
use turtle::speed::Speed;
use turtle::state::Point;
use turtle::synchronizer::{
    Direction, DrawingCommand, RenderError, SubmitOutcome, Synchronizer, TickOutcome,
};

const EAST: Direction = Direction { ux: 1_000_000, uy: 0 };
const NORTH: Direction = Direction { ux: 0, uy: 1_000_000 };

fn done_position(r: SubmitOutcome) -> Point {
    match r {
        SubmitOutcome::Done(s) => s.position,
        other => panic!("expected an immediate completion, got {:?}", other),
    }
}

#[test]
fn instant_move_completes_in_one_frame() {
    // Speed Instant, turtle at (0, 0) heading 0: a 100-pixel move
    // finishes immediately (duration 0) at exactly (100, 0).
    let mut sync = Synchronizer::new();
    sync.submit(DrawingCommand::SetSpeed(Speed::Instant), EAST);
    let r = sync.submit(DrawingCommand::Move(100_000), EAST);
    assert_eq!(done_position(r), Point { x: 100_000, y: 0 });
    assert_eq!(sync.state.position, Point { x: 100_000, y: 0 });
    assert!(sync.active.is_none());
}

#[test]
fn timed_move_interpolates_and_lands_exactly() {
    // Speed Five is 200 px/s, so a 100-pixel move takes 0.5 s; the
    // elapsed fraction strictly increases tick by tick and the last
    // frame is exactly (100, 0), with no overshoot.
    let mut sync = Synchronizer::new();
    sync.submit(DrawingCommand::SetSpeed(Speed::Five), EAST);
    let r = sync.submit(DrawingCommand::Move(100_000), EAST);
    assert_eq!(r, SubmitOutcome::Animating);
    assert_eq!(sync.active.unwrap().duration, 500);

    let mut last_elapsed = 0;
    for expected_x in [20_000, 40_000, 60_000, 80_000] {
        assert_eq!(sync.tick(100), TickOutcome::Progressing);
        assert_eq!(sync.state.position, Point { x: expected_x, y: 0 });
        let elapsed = sync.active.unwrap().elapsed;
        assert!(elapsed > last_elapsed);
        last_elapsed = elapsed;
    }
    match sync.tick(100) {
        TickOutcome::Completed(s) => assert_eq!(s.position, Point { x: 100_000, y: 0 }),
        other => panic!("expected completion, got {:?}", other),
    }
    assert_eq!(sync.state.position, Point { x: 100_000, y: 0 });
    assert!(sync.active.is_none());
}

#[test]
fn turn_then_move_sequence() {
    // From heading 0 at (0, 0): a 90-degree left turn, then a 50-pixel
    // move, strictly in sequence, end at heading 90 degrees and (0, 50).
    let mut sync = Synchronizer::new();

    // Default speed Six turns at 324 deg/s: 90 degrees takes 278 ms.
    let r = sync.submit(DrawingCommand::Turn(90_000), EAST);
    assert_eq!(r, SubmitOutcome::Animating);
    assert_eq!(sync.active.unwrap().duration, 278);
    assert_eq!(sync.tick(100), TickOutcome::Progressing);
    assert_eq!(sync.state.heading, 32_374); // 90000 * 100 / 278, rounded down
    match sync.tick(178) {
        TickOutcome::Completed(s) => assert_eq!(s.heading, 90_000),
        other => panic!("expected completion, got {:?}", other),
    }

    // Only now may the move begin; Six moves at 250 px/s: 50 px = 200 ms.
    let r = sync.submit(DrawingCommand::Move(50_000), NORTH);
    assert_eq!(r, SubmitOutcome::Animating);
    assert_eq!(sync.active.unwrap().duration, 200);
    match sync.tick(200) {
        TickOutcome::Completed(s) => {
            assert_eq!(s.position, Point { x: 0, y: 50_000 });
            assert_eq!(s.heading, 90_000);
        },
        other => panic!("expected completion, got {:?}", other),
    }
}

#[test]
fn close_during_animation_cancels_and_poisons() {
    // Closing the window mid-animation aborts the in-flight command
    // without a completion frame, and every later submission fails
    // immediately with WindowClosed.
    let mut sync = Synchronizer::new();
    sync.submit(DrawingCommand::SetSpeed(Speed::One), EAST);
    let r = sync.submit(DrawingCommand::Move(1_000_000), EAST);
    assert_eq!(r, SubmitOutcome::Animating);
    assert_eq!(sync.tick(10), TickOutcome::Progressing);

    sync.close();
    assert!(sync.active.is_none());
    assert_eq!(
        sync.submit(DrawingCommand::Move(1_000), EAST),
        SubmitOutcome::Failed(RenderError::WindowClosed),
    );
    assert_eq!(
        sync.submit(DrawingCommand::PenUp, EAST),
        SubmitOutcome::Failed(RenderError::WindowClosed),
    );
    // The aborted command never lands: the turtle stays at its last frame.
    assert_eq!(sync.state.position, Point { x: 100, y: 0 });
}

#[test]
fn repaint_is_idempotent() {
    let mut sync = Synchronizer::new();
    sync.submit(DrawingCommand::SetSpeed(Speed::Instant), EAST);
    sync.submit(DrawingCommand::Move(10_000), EAST);
    sync.submit(DrawingCommand::Move(5_000), NORTH);

    let first = sync.renderer.draw(&sync.state);
    let second = sync.renderer.draw(&sync.state);
    assert_eq!(first, second);
    assert_eq!(first.len(), 3); // two strokes, then the turtle icon
    match &first[2] {
        DrawCall::Turtle { position, heading } => {
            assert_eq!(*position, Point { x: 10_000, y: 5_000 });
            assert_eq!(*heading, 0);
        },
        other => panic!("expected the turtle icon last, got {:?}", other),
    }
}

#[test]
fn pen_up_moves_draw_nothing() {
    let mut sync = Synchronizer::new();
    sync.submit(DrawingCommand::SetSpeed(Speed::Instant), EAST);
    sync.submit(DrawingCommand::PenUp, EAST);
    sync.submit(DrawingCommand::Move(10_000), EAST);
    assert_eq!(sync.renderer.history.len(), 0);
    assert_eq!(sync.state.position, Point { x: 10_000, y: 0 });

    sync.submit(DrawingCommand::PenDown, EAST);
    sync.submit(DrawingCommand::Move(10_000), EAST);
    assert_eq!(sync.renderer.history.len(), 1);
    match &sync.renderer.history[0] {
        HistoryEntry::Segment(seg) => {
            assert_eq!(seg.start, Point { x: 10_000, y: 0 });
            assert_eq!(seg.end, Point { x: 20_000, y: 0 });
        },
        other => panic!("expected a segment, got {:?}", other),
    }
}

#[test]
fn fill_accumulates_visited_vertices() {
    let mut sync = Synchronizer::new();
    sync.submit(DrawingCommand::SetSpeed(Speed::Instant), EAST);
    sync.submit(
        DrawingCommand::SetFillColor(turtle::state::Color { r: 255, g: 0, b: 0, a: 255 }),
        EAST,
    );
    sync.submit(DrawingCommand::BeginFill, EAST);
    sync.submit(DrawingCommand::Move(10_000), EAST);
    sync.submit(DrawingCommand::Move(5_000), NORTH);
    sync.submit(DrawingCommand::EndFill, EAST);

    // Two pen strokes, then the finalized polygon.
    assert_eq!(sync.renderer.history.len(), 3);
    match &sync.renderer.history[2] {
        HistoryEntry::Polygon(poly) => {
            assert_eq!(
                poly.vertices,
                vec![
                    Point { x: 0, y: 0 },
                    Point { x: 10_000, y: 0 },
                    Point { x: 10_000, y: 5_000 },
                ],
            );
            assert_eq!(poly.color, turtle::state::Color { r: 255, g: 0, b: 0, a: 255 });
        },
        other => panic!("expected a polygon, got {:?}", other),
    }
    assert!(sync.state.fill.is_none());
}

#[test]
fn teleport_jumps_without_drawing() {
    let mut sync = Synchronizer::new();
    let r = sync.submit(
        DrawingCommand::TeleportTo(Point { x: -5_000, y: 7_000 }, 45_000),
        EAST,
    );
    assert_eq!(done_position(r), Point { x: -5_000, y: 7_000 });
    assert_eq!(sync.state.heading, 45_000);
    assert_eq!(sync.renderer.history.len(), 0);
}

#[test]
fn negative_turns_normalize() {
    let mut sync = Synchronizer::new();
    sync.submit(DrawingCommand::SetSpeed(Speed::Instant), EAST);
    sync.submit(DrawingCommand::Turn(-90_000), EAST);
    assert_eq!(sync.state.heading, 270_000);
    sync.submit(DrawingCommand::Turn(450_000), EAST);
    assert_eq!(sync.state.heading, 0);
}

#[test]
fn zero_length_motion_completes_without_ticks() {
    let mut sync = Synchronizer::new();
    let r = sync.submit(DrawingCommand::Move(0), EAST);
    assert_eq!(done_position(r), Point { x: 0, y: 0 });
    let r = sync.submit(DrawingCommand::Turn(0), EAST);
    assert!(matches!(r, SubmitOutcome::Done(_)));
    assert!(sync.active.is_none());
}

#[test]
fn clear_empties_the_history() {
    let mut sync = Synchronizer::new();
    sync.submit(DrawingCommand::SetSpeed(Speed::Instant), EAST);
    sync.submit(DrawingCommand::Move(10_000), EAST);
    assert_eq!(sync.renderer.history.len(), 1);
    sync.submit(DrawingCommand::Clear, EAST);
    assert_eq!(sync.renderer.history.len(), 0);
    // The turtle itself is untouched by a clear.
    assert_eq!(sync.state.position, Point { x: 10_000, y: 0 });
}

#[test]
fn hide_and_show_toggle_the_icon() {
    let mut sync = Synchronizer::new();
    sync.submit(DrawingCommand::SetVisible(false), EAST);
    let calls = sync.renderer.draw(&sync.state);
    assert_eq!(calls.len(), 0);
    sync.submit(DrawingCommand::SetVisible(true), EAST);
    let calls = sync.renderer.draw(&sync.state);
    assert_eq!(calls.len(), 1);
}

#[test]
fn durations_round_up_to_a_whole_tick() {
    // One pixel at speed One (10 px/s) is 100 ms exactly; one millipixel
    // still takes a full millisecond, never zero.
    let mut sync = Synchronizer::new();
    sync.submit(DrawingCommand::SetSpeed(Speed::One), EAST);
    assert_eq!(sync.submit(DrawingCommand::Move(1_000), EAST), SubmitOutcome::Animating);
    assert_eq!(sync.active.unwrap().duration, 100);
    sync.close();

    let mut sync = Synchronizer::new();
    sync.submit(DrawingCommand::SetSpeed(Speed::One), EAST);
    assert_eq!(sync.submit(DrawingCommand::Move(1), EAST), SubmitOutcome::Animating);
    assert_eq!(sync.active.unwrap().duration, 1);
}

#[test]
fn window_closed_describes_itself() {
    assert_eq!(RenderError::WindowClosed.message(), "the window was closed");
}

#[test]
fn closed_window_fails_before_any_command() {
    let mut sync = Synchronizer::new();
    sync.close();
    assert_eq!(
        sync.submit(DrawingCommand::Move(1_000), EAST),
        SubmitOutcome::Failed(RenderError::WindowClosed),
    );
    assert_eq!(sync.renderer.history.len(), 0);
}
