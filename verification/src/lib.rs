//! Keeps a desktop session awake by nudging the mouse cursor at a fixed
//! interval: the cursor is displaced by a small offset and then put back.
//!
//! The library holds the rules: the settings, the arithmetic of one movement
//! cycle, the state machine of the interval loop and the permission probe of
//! each platform family. Reading the cursor, moving it, sleeping and listening
//! for an interrupt are left to the program around it, which hands in plain
//! values and carries out the actions that the library returns.

pub mod config;
pub mod cycle;
pub mod error;
pub mod interval_loop;
pub mod mover;
pub mod platform;
pub mod recorder;

pub use config::MouseMoverConfig;
pub use error::KtmmError;
pub use mover::MouseMover;
