//! Decision logic of a recursive Monte Carlo path tracer.
//!
//! Every comparison the tracer makes on single-precision values is taken here
//! over the IEEE 754 binary32 bit pattern of those values, together with the
//! integer work of the render driver (settings, pixel layout, packing).
//! The floating-point arithmetic itself is carried out by the caller.

pub mod binary32;
pub mod intersect;
pub mod scatter;
pub mod trace;
pub mod raster;
