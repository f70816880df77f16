//! A minimal 2D rendering core: typed vertex data and its byte-exact GPU
//! buffer images, an orthographic camera uniform, drawable primitives that
//! record their binding and draw sequence onto a render pass, and a document
//! of layered, fixed-extent image buffers.
//!
//! All geometry is carried as IEEE-754 single-precision bit patterns
//! (`u32`), so that byte layouts, buffer contents and command sequences are
//! exact values; the floating-point arithmetic itself (matrix derivation)
//! is supplied by the rendering driver.

pub mod buffer;
pub mod camera;
pub mod document;
pub mod encode;
pub mod error;
pub mod math;
pub mod pass;
pub mod primitive;
