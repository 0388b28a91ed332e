//! Presentation wiring: the one-time surface configuration and the
//! full-screen triangle the texture-blit path draws.
//!
//! The surface is configured once, at the fixed output size, with
//! first-in-first-out presentation; per frame the shell acquires the next
//! image and runs the planned render pass against it.

use vstd::prelude::*;

verus! {

use crate::settings::{WINDOW_HEIGHT, WINDOW_WIDTH};
use crate::words::F32_ZERO;
use crate::generator::FP_N1;

/// Bit pattern of 2.0.
pub const FP_2: u32 = 0x4000_0000;

/// Bit pattern of 3.0.
pub const FP_3: u32 = 0x4040_0000;

/// Byte stride of one presentation vertex: two position words and two
/// texture-coordinate words.
pub const CELL_VERTEX_STRIDE: u32 = 16;

/// The one-time surface configuration: fixed dimensions for the process
/// lifetime, presented first-in-first-out as a render attachment.
#[derive(Clone, Copy, Debug, PartialEq, Eq)]
pub struct SurfacePlan {
    pub width: u32,
    pub height: u32,
}

/// Returns the surface configuration for the fixed output size.
pub fn surface_plan() -> (r: SurfacePlan)
    ensures
        r.width == WINDOW_WIDTH,
        r.height == WINDOW_HEIGHT,
{
    SurfacePlan { width: WINDOW_WIDTH, height: WINDOW_HEIGHT }
}

/// The vertex words of one triangle covering the whole surface: three
/// vertices of `(x, y, u, v)`, spanning clip space twice over so the clipped
/// triangle fills the viewport.
pub open spec fn cell_vertex_words() -> Seq<u32> {
    seq![
        FP_N1, FP_N1, F32_ZERO, F32_ZERO,
        FP_3, FP_N1, FP_2, F32_ZERO,
        FP_N1, FP_3, F32_ZERO, FP_2,
    ]
}

/// Builds the full-screen triangle's vertex words.
pub fn cell_vertices() -> (r: Vec<u32>)
    ensures
        r@ == cell_vertex_words(),
        r@.len() == 12,
{
    let mut r: Vec<u32> = Vec::new();
    r.push(FP_N1);
    r.push(FP_N1);
    r.push(F32_ZERO);
    r.push(F32_ZERO);
    r.push(FP_3);
    r.push(FP_N1);
    r.push(FP_2);
    r.push(F32_ZERO);
    r.push(FP_N1);
    r.push(FP_3);
    r.push(F32_ZERO);
    r.push(FP_2);
    proof {
        assert(r@ =~= cell_vertex_words());
    }
    r
}

} // verus!
