//! Engine of a minimal tiling window compositor.
//!
//! The crate holds the decisions of the compositor as plain data and
//! verified functions: how tiles are arranged, which tile the pointer is over, how a
//! drag moves a window, what a surface commit does to the buffer registry and
//! which draws a frame is made of. Surfaces, buffers and windows are known by
//! opaque numeric identities; the host performs the protocol and GPU work.

pub mod geometry;
pub mod toplevel;
pub mod layout;
pub mod layout_proofs;
pub mod surface;
pub mod input;
pub mod render;
pub mod raster;
pub mod state;
pub mod acceptor;
