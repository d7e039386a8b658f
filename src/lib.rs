//! Instance-buffer uploads and frame statistics for an instanced 2D shape
//! renderer.
use vstd::prelude::*;

pub mod frame_driver;
pub mod gpu;
pub mod instance_buffer;
pub mod math;
pub mod raw;
pub mod shapes;
pub mod statistics;
