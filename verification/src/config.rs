//! The packed configuration record the compute kernel bounds its loops by.
//!
//! The kernel iterates over each entity buffer exactly `count` times, so a
//! count that disagrees with the encoded vector's true length makes the
//! kernel read out of bounds.  The packer therefore re-derives every count
//! from the vector itself; it never accepts a count as a bare number.

use vstd::prelude::*;

verus! {

use crate::entity::{Panel, Sphere};

/// Number of 32-bit words in the packed configuration record (32 bytes).
pub const CONFIG_RECORD_WORDS: usize = 8;

/// How the compute pass's output becomes visible to the presentation pass.
/// Chosen once at startup, never per frame.
#[derive(Clone, Copy, Debug, PartialEq, Eq)]
pub enum TransferStrategy {
    /// The render pass pulls per-pixel colors straight out of the result
    /// buffer as per-instance vertex data, one quad instance per pixel.
    DirectPull,
    /// An explicit copy moves the result buffer into a texture; the render
    /// pass draws one full-screen triangle sampling it.
    TextureBlit,
}

/// The configuration's mode flag for a transfer strategy.
pub open spec fn spec_mode_flag(strategy: TransferStrategy) -> u32 {
    match strategy {
        TransferStrategy::TextureBlit => 0,
        TransferStrategy::DirectPull => 1,
    }
}

/// Returns the configuration's mode flag for a transfer strategy.
pub fn mode_flag(strategy: TransferStrategy) -> (r: u32)
    ensures
        r == spec_mode_flag(strategy),
{
    match strategy {
        TransferStrategy::TextureBlit => 0,
        TransferStrategy::DirectPull => 1,
    }
}

/// Bytes of one result-buffer entry: three 32-bit floats when the render
/// pass reads the buffer directly, four packed bytes when it is copied into
/// a presentable texture.
pub open spec fn spec_result_bytes_per_pixel(strategy: TransferStrategy) -> int {
    match strategy {
        TransferStrategy::DirectPull => 12,
        TransferStrategy::TextureBlit => 4,
    }
}

/// Returns the byte size of one result-buffer entry.
pub fn result_bytes_per_pixel(strategy: TransferStrategy) -> (r: u32)
    ensures
        r == spec_result_bytes_per_pixel(strategy),
{
    match strategy {
        TransferStrategy::DirectPull => 12,
        TransferStrategy::TextureBlit => 4,
    }
}

/// The flat record of scalar render parameters: a transfer-mode flag, the
/// output resolution, the samples per pixel, one count per entity buffer,
/// and a reserved slot.
#[derive(Clone, Copy, Debug, PartialEq, Eq)]
pub struct Config {
    pub mode: u32,
    pub width: u32,
    pub height: u32,
    pub samples_per_pixel: u32,
    pub sphere_count: u32,
    pub panel_count: u32,
    pub light_count: u32,
    pub reserved: u32,
}

impl Config {
    /// The record in kernel layout order: eight unsigned 32-bit words.
    pub open spec fn record(self) -> Seq<u32> {
        seq![
            self.mode,
            self.width,
            self.height,
            self.samples_per_pixel,
            self.sphere_count,
            self.panel_count,
            self.light_count,
            self.reserved,
        ]
    }

    /// The counts equal the true lengths of the entity vectors that will be
    /// bound to the matching GPU buffers.
    pub open spec fn counts_match(
        self,
        spheres: Seq<Sphere>,
        panels: Seq<Panel>,
        lights: Seq<Panel>,
    ) -> bool {
        &&& self.sphere_count == spheres.len()
        &&& self.panel_count == panels.len()
        &&& self.light_count == lights.len()
    }

    /// Packs the render parameters, deriving each entity count from the
    /// vector itself.
    pub fn from_scene(
        mode: u32,
        width: u32,
        height: u32,
        samples_per_pixel: u32,
        spheres: &Vec<Sphere>,
        panels: &Vec<Panel>,
        lights: &Vec<Panel>,
    ) -> (c: Config)
        requires
            spheres@.len() <= u32::MAX,
            panels@.len() <= u32::MAX,
            lights@.len() <= u32::MAX,
        ensures
            c.mode == mode,
            c.width == width,
            c.height == height,
            c.samples_per_pixel == samples_per_pixel,
            c.counts_match(spheres@, panels@, lights@),
            c.reserved == 0,
    {
        Config {
            mode,
            width,
            height,
            samples_per_pixel,
            sphere_count: spheres.len() as u32,
            panel_count: panels.len() as u32,
            light_count: lights.len() as u32,
            reserved: 0,
        }
    }

    /// Serializes the record in field order; always eight words, whatever
    /// the field values.
    pub fn raw_data(&self) -> (r: Vec<u32>)
        ensures
            r@ == self.record(),
            r@.len() == CONFIG_RECORD_WORDS,
    {
        let mut r: Vec<u32> = Vec::new();
        r.push(self.mode);
        r.push(self.width);
        r.push(self.height);
        r.push(self.samples_per_pixel);
        r.push(self.sphere_count);
        r.push(self.panel_count);
        r.push(self.light_count);
        r.push(self.reserved);
        proof {
            assert(r@ =~= self.record());
        }
        r
    }
}

} // verus!
