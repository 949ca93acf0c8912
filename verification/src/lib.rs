//! Verified core of a GPU line plotter: buffer sizing and growth, line data
//! staging and pointer-input tracking.
//!
//! The library never touches a graphics device. Every operation that the device
//! has to carry out is handed back as a plain value that says exactly which
//! allocation and which copies are due.

pub mod buffer;
pub mod input;
pub mod layer;

pub use crate::buffer::GpuBuffer;
pub use crate::layer::{Layer, Line, NewData};
