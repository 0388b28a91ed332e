//! Fixed render settings: the output is a single 600 x 600 frame, traced with
//! one sample per pixel by workgroups of 64 threads.

use vstd::prelude::*;

verus! {

/// Output width in pixels.
pub const WINDOW_WIDTH: u32 = 600;

/// Output height in pixels.
pub const WINDOW_HEIGHT: u32 = 600;

/// Total number of pixels in one frame.
pub const WINDOW_TOTAL_PIXEL: u32 = 600 * 600;

/// Samples traced per pixel.
pub const SAMPLES_PER_PIXEL: u32 = 1;

/// Width of the intermediate presentation texture.
pub const TEXTURE_WIDTH: u32 = 600;

/// Height of the intermediate presentation texture.
pub const TEXTURE_HEIGHT: u32 = 600;

/// Compute threads per workgroup, as declared by the compute kernel.
pub const THREADS_PER_WORKGROUP: u32 = 64;

} // verus!
