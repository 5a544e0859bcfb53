//! A CPU-side triangle rasterizer over Q16.16 fixed-point arithmetic.
//!
//! Geometry is loaded into a handle-indexed store, carried through a
//! model-view-projection transform into pixel space, and rasterized as
//! wireframe edges and filled interiors with a per-pixel depth test.
//! Every scalar is a signed 32-bit number with 16 fractional bits, so all
//! intermediate products are exact in 128-bit integers.
//!
//! The modules, leaves first:
//!
//! - [`fixed`], [`vector`]: scalars, small vectors and the 4x4 matrix;
//! - [`handles`], [`store`]: buffer handles and the store that issues them;
//! - [`buffers`], [`canvas`]: the frame and depth buffers and the pixel
//!   write;
//! - [`triangle`], [`line`], [`fill`]: the primitive and the two
//!   rasterization algorithms;
//! - [`transform`], [`scene`], [`rasterizer`]: the vertex transform, what a
//!   draw call writes, and the rasterizer that ties the parts together;
//! - [`laws`], [`depth_laws`], [`fill_laws`], [`draw_laws`]: properties
//!   that hold of every input.

pub mod buffers;
pub mod canvas;
pub mod depth_laws;
pub mod draw_laws;
pub mod error;
pub mod fill;
pub mod fill_laws;
pub mod fixed;
pub mod handles;
pub mod laws;
pub mod line;
pub mod rasterizer;
pub mod scene;
pub mod store;
pub mod transform;
pub mod triangle;
pub mod vector;
