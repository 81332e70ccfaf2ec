//! Core logic of a side-scrolling reflex game: a player sprite falls under
//! gravity, counters it with upward flap impulses, and must pass through gaps
//! in a stream of procedurally generated obstacles.
//!
//! Vertical positions and velocities are measured in tenths of a terminal
//! cell, so the per-tick gravity increment (a tenth of a cell) and the flap
//! impulse (one cell upward) are exact integer steps. Horizontal positions
//! are whole cells. Frame durations are whole milliseconds.

use vstd::prelude::*;

mod obstacle;
mod player;
mod rng;
mod state;

pub use obstacle::Obstacle;
pub use obstacle::ObstacleView;
pub use player::Player;
pub use player::PlayerView;
pub use state::GameMode;
pub use state::Input;
pub use state::State;
pub use state::StateView;

verus! {

/// Width of the world window, in cells. New obstacles spawn one full screen
/// width ahead of the player.
pub const SCREEN_WIDTH: i32 = 80;

/// Height of the world window, in cells. Falling past this row kills the
/// player.
pub const SCREEN_HEIGHT: i32 = 50;

/// Number of vertical units per cell: vertical positions and velocities are
/// stored in tenths of a cell.
pub const SCALE: i32 = 10;

/// A physics tick fires once the frame-time accumulator exceeds this many
/// milliseconds.
pub const FRAME_DURATION_MS: i32 = 40;

/// Downward acceleration per tick, in tenths of a cell: a tenth of a cell
/// per tick, applied while below the fall-speed cap.
pub const GRAVITY: i32 = 1;

/// Cap on downward velocity, in tenths of a cell per tick (two cells).
pub const MAX_FALL_VELOCITY: i32 = 20;

/// Velocity set by a flap, in tenths of a cell per tick: one cell per tick
/// upward (negative is up; row 0 is the top of the screen).
pub const FLAP_VELOCITY: i32 = -10;

/// Player's starting column.
pub const PLAYER_START_X: i32 = 5;

/// Player's starting row, in cells (mid-screen).
pub const PLAYER_START_Y: i32 = 25;

/// Number of animation frames the sprite cycles through.
pub const ANIMATION_FRAMES: usize = 6;

/// Lowest row a gap may be centered on. The band keeps the whole gap on the
/// playable rows: no gap edge above the top of the screen.
pub const GAP_Y_MIN: i32 = 20;

/// One past the highest row a gap may be centered on. The band keeps the
/// whole gap strictly above the ground row at the bottom of the screen.
pub const GAP_Y_MAX: i32 = 29;

/// Full vertical size of a gate's gap, in cells.
pub const GATE_SIZE: i32 = 40;

/// A gate may spawn only on frames where the accumulator is a multiple of
/// this many milliseconds (with the accumulator held below the tick
/// threshold, that means only right after a tick reset it).
pub const SPAWN_PERIOD_MS: i32 = 50;

/// Lowest value the per-frame spawn draw can take.
pub const SPAWN_DRAW_MIN: i32 = 1;

/// One past the highest value the per-frame spawn draw can take.
pub const SPAWN_DRAW_MAX: i32 = 40;

/// A spawn-due frame spawns only when the spawn draw is a multiple of this.
pub const SPAWN_DIVISOR: i32 = 10;

} // verus!
