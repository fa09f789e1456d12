//! A verified sprite-sheet animation engine.
//!
//! The engine maps a character's discrete motion state (idle / walking /
//! jumping, plus a facing direction) onto frame indices inside a shared
//! texture atlas, and advances those frames over time with looping and
//! transition-reset semantics.  Rendering, input handling and asset loading
//! are external collaborators: they hand this library plain values (motion
//! vectors, delta times, frame indices) and read plain values back.

pub mod clip;
pub mod config;
pub mod direction;
pub mod state;
pub mod timer;
pub mod update;
