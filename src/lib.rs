//! A one-character controller: keyboard movement, an animation state machine
//! that picks and steps through sprite-sheet clips, and a clamped camera zoom.

pub mod animation;
pub mod player;
pub mod zoom;
