//! A procedural vector-drawing ("turtle") motion core.
//!
//! A virtual turtle holds a position, a heading and a pen, and client code
//! issues sequential motion and drawing commands that are rendered with
//! smooth, speed-proportional animation.  This crate holds the verified
//! heart of that system: the mapping from named speeds to physical rates,
//! the interpolation engine that turns a state change into a sequence of
//! animated frames, the append-only drawing history with its repaint
//! function, and the command/tick state machine that sequences commands
//! and cancels them when the window closes.
//!
//! Geometry is carried in exact fixed-point units so that every step of the
//! animation can be verified: positions and distances in millipixels
//! (1/1000 of a pixel), angles in millidegrees, time in milliseconds.
//! The windowing backend, the frame clock and the floating-point conversion
//! to screen coordinates live outside this crate.

pub mod speed;
pub mod state;
pub mod animation;
pub mod renderer;
pub mod synchronizer;
