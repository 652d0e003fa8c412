//! A minimal 3D-rendering front end.
//!
//! The library computes everything a frame needs in exact fixed-point
//! arithmetic: a perspective projection matrix, per-entity transformation
//! matrices, and the ordered sequence of graphics commands that draws a
//! grouped collection of textured entities. Issuing those commands against a
//! native graphics context is left to a thin unverified shell around the
//! library.

pub mod commands;
pub mod fixed;
pub mod maths;
pub mod models;
pub mod renderer;
pub mod texture_data;

pub use fixed::SCALE;
