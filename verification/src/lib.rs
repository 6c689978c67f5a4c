//! Gameplay logic for a 2D top-down game that runs as a plugin of a host
//! engine: the per-frame movement and status of the player character, the
//! choice of its sprite animation, the conditions under which it interacts
//! with the objects it collides with, and the credential check of the login
//! screen.
//!
//! The host engine owns the scene graph, the input polling, the collision
//! resolution and the signal bus; its callbacks hand this crate plain
//! snapshots of that state and perform the actions the crate decides on.

pub mod animation;
pub mod character;
pub mod login_screen;
pub mod player;
pub mod player_data;
