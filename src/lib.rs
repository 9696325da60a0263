//! Core rules of a small top-down shooter: keyboard input becomes a unit
//! direction, the player walks along it one unit per frame, and each press of
//! the fire button launches a bullet that flies in a straight line towards the
//! point the cursor was aiming at.
//!
//! All positions are kept exactly. A diagonal step has length one, so its
//! components are multiples of `sqrt(2)/2`; a coordinate is therefore stored
//! as a whole part plus a count of such half-roots (see [`Coord`]). A bullet
//! keeps its spawn point, its heading as an integer vector, and the distance
//! it has covered, which fixes its position on the ray exactly.

pub mod bullet;
pub mod exact;
pub mod input;
pub mod world;

pub use bullet::{aim, move_bullet, spawn_bullet, Bullet, Cursor, Heading, Viewport, BULLET_SPEED};
pub use exact::{Coord, Point};
pub use input::{direction_from_keys, MovementKeys};
pub use world::{handle_movement, FrameInput, World, MAX_FRAMES};
