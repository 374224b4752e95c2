//! Simulation core of a 2D arcade shooter.
//!
//! The crate tracks the player lifecycle (spawn, death, respawn delay),
//! resolves held directional keys into a movement direction, spawns laser
//! projectiles on an edge-triggered fire input, and keeps the UI-facing
//! life-bar and score entities synchronized with the simulation state.
//!
//! Rendering, input devices and the windowing engine are external
//! collaborators: they hand the simulation plain values (key states, the
//! current time in milliseconds) and read plain values back (positions,
//! bar widths, the score text). Distances are integer pixels; time is
//! integer milliseconds since simulation start.
#![allow(unused_imports)]
use vstd::prelude::*;

pub mod components;
pub mod store;
pub mod decimal;
pub mod player;
pub mod menu;
pub mod game;

verus! {

/// Life a freshly spawned player starts with; also the session-constant
/// value shown by the max-life bar.
pub const DEFAULT_PLAYER_LIFE: u32 = 5;

/// Default delay, in milliseconds, between the player's death and the
/// earliest respawn.
pub const PLAYER_RESPAWN_DELAY: u64 = 2000;

/// Default period, in milliseconds, of the coarse timer that gates the
/// lifecycle evaluation; frames between ticks skip it.
pub const LIFECYCLE_INTERVAL: u64 = 500;

/// Player sprite extent, in pixels.
pub const PLAYER_SIZE_W: u64 = 144;

/// Player sprite height, in pixels.
pub const PLAYER_SIZE_H: u64 = 75;

/// Laser sprite extent, in pixels.
pub const PLAYER_LASER_SIZE_W: u64 = 9;

/// Laser sprite height, in pixels.
pub const PLAYER_LASER_SIZE_H: u64 = 54;

/// Lasers spawn this far inside the player's horizontal half-extent.
pub const LASER_X_INSET: i64 = 5;

/// Lasers spawn this far above the player's position.
pub const LASER_Y_OFFSET: i64 = 15;

/// The player spawns this far above the bottom edge, beyond its own
/// half-height.
pub const SPAWN_MARGIN: i64 = 5;

/// The life bar is this many pixels wide per point of remaining life.
pub const BAR_WIDTH_PER_LIFE: u64 = 20;

/// Height, in pixels, of both life bars.
pub const BAR_HEIGHT: u64 = 25;

/// Horizontal inset of the life bars from the window's right edge.
pub const UI_BAR_OFFSET_X: i64 = 120;

/// Vertical inset of the life bars from the window's top edge.
pub const UI_BAR_OFFSET_Y: i64 = 20;

/// Drawing layer of the life bar, above the max-life bar.
pub const LIFE_BAR_LAYER: u64 = 20;

/// Drawing layer of the max-life bar.
pub const MAX_LIFE_BAR_LAYER: u64 = 10;

} // verus!
