//! Core of a real-time signed-distance-field renderer.
//!
//! An application submits a constructive-solid-geometry description of a
//! scene every frame; this crate flattens it into a fixed-layout record
//! stream for a GPU raymarcher, tracks per-frame input edge detection for
//! keys, buttons and modifiers, and owns the frame lifecycle's capacity and
//! resize policies.  Device, window and floating-point concerns live with
//! the embedding application; everything here works on plain values and is
//! verified.

pub mod cmd;
pub mod context;
pub mod input;
pub mod render;
pub mod time;
pub mod window;

pub use context::Callbacks;
pub use context::Context;
pub use input::KeyModifier;
pub use render::Shape;
