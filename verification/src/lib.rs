//! Off-screen OpenGL contexts on the OSMesa software rasterizer: the rules
//! of context creation, of binding a context to a pixel buffer, and of
//! teardown, as functions on plain values.
//!
//! The rasterizer is reached through foreign calls that this crate never
//! makes. Each operation is split at those calls: a function here says what
//! to ask of the rasterizer, the caller asks, and a second function says
//! what the answer means. A context handle is carried as its address.

pub mod attribs;
pub mod buffer;
pub mod config;
pub mod context;
pub mod dpi;
pub mod error;
pub mod native;
