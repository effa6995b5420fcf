//! A first-person fly-camera controller, modelled over fixed-point integers.
//!
//! The camera state (translation, yaw, pitch) and the per-frame input
//! (held keys, pointer motion, wheel events) are plain integer values in
//! millionths of a unit, so every update rule here is exact and verified.
//! A host game engine is expected to read its own input and transform
//! types, convert them to these values, call the routines below once per
//! frame, and write the results back.

pub mod camera;
pub mod fixed;
pub mod look;
pub mod movement;
pub mod scroll;
pub mod transform;
