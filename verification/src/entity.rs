//! Scene primitives and their fixed-layout GPU records.
//!
//! A sphere encodes to eight 32-bit words (32 bytes) and a panel to sixteen
//! (64 bytes), matching the compute kernel's struct declarations exactly:
//! vector fields are padded to 16-byte multiples and every padding slot is
//! written explicitly.  Scalars are 32-bit float bit patterns (see
//! [`crate::words`]); encoding is total and deterministic.

use vstd::prelude::*;

verus! {

use crate::words::{F32_ONE, F32_ZERO};

/// Number of 32-bit words in an encoded sphere record (32 bytes).
pub const SPHERE_RECORD_WORDS: usize = 8;

/// Number of 32-bit words in an encoded panel record (64 bytes).
pub const PANEL_RECORD_WORDS: usize = 16;

/// Bit pattern of the 32-bit float -10.0, the filler written into a panel's
/// reserved slot.
pub const PANEL_RESERVED: u32 = 0xC120_0000;

/// A ball primitive: a 16-byte-aligned position (x, y, z, w with w = 1.0),
/// a color, and a radius.
#[derive(Clone, Copy, Debug, PartialEq, Eq)]
pub struct Sphere {
    pub position: [u32; 4],
    pub color: [u32; 3],
    pub radius: u32,
}

/// A planar quad primitive, used both as a wall and, when its color
/// magnitude exceeds one, as an emissive area light.  Two boundary points
/// (each padded with 1.0), a normal (padded with 0.0), a color, and a
/// reserved slot.
#[derive(Clone, Copy, Debug, PartialEq, Eq)]
pub struct Panel {
    pub points: [u32; 8],
    pub normal: [u32; 4],
    pub color: [u32; 3],
    pub place_holder: u32,
}

impl Sphere {
    /// The fixed-layout record: position, color, radius — eight words.
    pub open spec fn record(self) -> Seq<u32> {
        self.position@ + self.color@ + seq![self.radius]
    }

    /// Builds a sphere from its center, color and radius, padding the
    /// position's fourth component with 1.0.
    pub fn new(pos: [u32; 3], color: [u32; 3], radius: u32) -> (s: Sphere)
        ensures
            s.position@ == seq![pos@[0], pos@[1], pos@[2], F32_ONE],
            s.color@ == color@,
            s.radius == radius,
    {
        let position: [u32; 4] = [pos[0], pos[1], pos[2], F32_ONE];
        proof {
            assert(position@ =~= seq![pos@[0], pos@[1], pos@[2], F32_ONE]);
        }
        Sphere { position, color, radius }
    }

    /// Serializes the record in field order; always eight words, whatever
    /// the field values.
    pub fn raw_data(&self) -> (r: Vec<u32>)
        ensures
            r@ == self.record(),
            r@.len() == SPHERE_RECORD_WORDS,
    {
        let mut r: Vec<u32> = Vec::new();
        r.push(self.position[0]);
        r.push(self.position[1]);
        r.push(self.position[2]);
        r.push(self.position[3]);
        r.push(self.color[0]);
        r.push(self.color[1]);
        r.push(self.color[2]);
        r.push(self.radius);
        proof {
            assert(r@ =~= self.record());
        }
        r
    }
}

impl Panel {
    /// The fixed-layout record: points, normal, color, reserved slot —
    /// sixteen words.
    pub open spec fn record(self) -> Seq<u32> {
        self.points@ + self.normal@ + self.color@ + seq![self.place_holder]
    }

    /// Builds a panel from two boundary points, a normal and a color.  Each
    /// point is padded with 1.0, the normal with 0.0, and the reserved slot
    /// is filled explicitly, so a decoded record returns every input
    /// unchanged at its declared offset.
    pub fn new(point0: [u32; 3], point1: [u32; 3], normal: [u32; 3], color: [u32; 3]) -> (p: Panel)
        ensures
            p.points@ == seq![
                point0@[0], point0@[1], point0@[2], F32_ONE,
                point1@[0], point1@[1], point1@[2], F32_ONE,
            ],
            p.normal@ == seq![normal@[0], normal@[1], normal@[2], F32_ZERO],
            p.color@ == color@,
            p.place_holder == PANEL_RESERVED,
    {
        let points: [u32; 8] = [
            point0[0],
            point0[1],
            point0[2],
            F32_ONE,
            point1[0],
            point1[1],
            point1[2],
            F32_ONE,
        ];
        let p_normal: [u32; 4] = [normal[0], normal[1], normal[2], F32_ZERO];
        proof {
            assert(points@ =~= seq![
                point0@[0], point0@[1], point0@[2], F32_ONE,
                point1@[0], point1@[1], point1@[2], F32_ONE,
            ]);
            assert(p_normal@ =~= seq![normal@[0], normal@[1], normal@[2], F32_ZERO]);
        }
        Panel { points, normal: p_normal, color, place_holder: PANEL_RESERVED }
    }

    /// Serializes the record in field order; always sixteen words, whatever
    /// the field values.
    pub fn raw_data(&self) -> (r: Vec<u32>)
        ensures
            r@ == self.record(),
            r@.len() == PANEL_RECORD_WORDS,
    {
        let mut r: Vec<u32> = Vec::new();
        r.push(self.points[0]);
        r.push(self.points[1]);
        r.push(self.points[2]);
        r.push(self.points[3]);
        r.push(self.points[4]);
        r.push(self.points[5]);
        r.push(self.points[6]);
        r.push(self.points[7]);
        r.push(self.normal[0]);
        r.push(self.normal[1]);
        r.push(self.normal[2]);
        r.push(self.normal[3]);
        r.push(self.color[0]);
        r.push(self.color[1]);
        r.push(self.color[2]);
        r.push(self.place_holder);
        proof {
            assert(r@ =~= self.record());
        }
        r
    }
}

} // verus!
