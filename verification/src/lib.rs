//! Core of a real-time interactive 3D scene: entity/component storage with
//! deferred destruction, a per-tick scheduler running a fixed ordered list of
//! systems, bounded multi-reader event channels that decouple asynchronous
//! input from synchronous per-frame updates, and the fixed-point spatial
//! transform and camera math those systems share.

pub mod angle;
pub mod app;
pub mod events;
pub mod fixed;
pub mod input;
pub mod integrate;
pub mod movement;
pub mod protocol;
pub mod render;
pub mod transform;
pub mod trig;
pub mod world;
