//! A minimal windowed rendering core: a GPU context model with resize
//! handling, a fixed render pass that draws one quad per frame, and the
//! event-dispatch decisions of the surrounding loop.
//!
//! The library holds the verified logic alone: descriptor construction,
//! the vertex record layout and its byte encoding, the seeded geometry,
//! and the per-event control decisions. The window system and the GPU
//! driver are collaborators that the surrounding application talks to.

pub mod application;
pub mod bits;
pub mod context;
pub mod events;
pub mod geometry;
pub mod pass;
