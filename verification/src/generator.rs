//! The fixed demo scene and the per-pixel input table.
//!
//! The scene is a five-panel box enclosing one sphere, lit by one emissive
//! panel.  Building it is pure and deterministic: the generators' contracts
//! pin every field of every primitive, so two invocations always produce
//! bit-identical vectors — the property the packed configuration's counts
//! depend on.

use vstd::prelude::*;

verus! {

use vstd::arithmetic::div_mod::lemma_fundamental_div_mod_converse;
use crate::entity::{Panel, Sphere};
use crate::settings::{TEXTURE_HEIGHT, TEXTURE_WIDTH};
use crate::words::{f32_bits_of_small, f32_bits_of_uint, F32_ONE, F32_ZERO};

/// Bit pattern of 0.7.
pub const FP_0_7: u32 = 0x3F33_3333;

/// Bit pattern of 0.75.
pub const FP_0_75: u32 = 0x3F40_0000;

/// Bit pattern of 0.12.
pub const FP_0_12: u32 = 0x3DF5_C28F;

/// Bit pattern of 0.45.
pub const FP_0_45: u32 = 0x3EE6_6666;

/// Bit pattern of 0.15.
pub const FP_0_15: u32 = 0x3E19_999A;

/// Bit pattern of 0.65.
pub const FP_0_65: u32 = 0x3F26_6666;

/// Bit pattern of 0.05.
pub const FP_0_05: u32 = 0x3D4C_CCCD;

/// Bit pattern of 7.0.
pub const FP_7: u32 = 0x40E0_0000;

/// Bit pattern of 60.0.
pub const FP_60: u32 = 0x4270_0000;

/// Bit pattern of 225.0.
pub const FP_225: u32 = 0x4361_0000;

/// Bit pattern of 300.0.
pub const FP_300: u32 = 0x4396_0000;

/// Bit pattern of 375.0.
pub const FP_375: u32 = 0x43BB_8000;

/// Bit pattern of 599.0.
pub const FP_599: u32 = 0x4415_C000;

/// Bit pattern of 600.0.
pub const FP_600: u32 = 0x4416_0000;

/// Bit pattern of -1.0.
pub const FP_N1: u32 = 0xBF80_0000;

/// Bit pattern of -160.0.
pub const FP_N160: u32 = 0xC320_0000;

/// Bit pattern of -200.0.
pub const FP_N200: u32 = 0xC348_0000;

/// Bit pattern of -350.0.
pub const FP_N350: u32 = 0xC3AF_0000;

/// Bit pattern of -600.0.
pub const FP_N600: u32 = 0xC416_0000;

/// The demo scene's sphere vector: one blue ball inside the box.
pub open spec fn is_demo_sphere_scene(s: Seq<Sphere>) -> bool {
    &&& s.len() == 1
    &&& s[0].position@ == seq![FP_300, FP_60, FP_N160, F32_ONE]
    &&& s[0].color@ == seq![F32_ZERO, F32_ZERO, FP_0_7]
    &&& s[0].radius == FP_60
}

/// One panel of the demo scene, described by its four inputs.
pub open spec fn is_demo_panel(
    p: Panel,
    point0: Seq<u32>,
    point1: Seq<u32>,
    normal: Seq<u32>,
    color: Seq<u32>,
) -> bool {
    &&& p.points@ == seq![
        point0[0], point0[1], point0[2], F32_ONE,
        point1[0], point1[1], point1[2], F32_ONE,
    ]
    &&& p.normal@ == seq![normal[0], normal[1], normal[2], F32_ZERO]
    &&& p.color@ == color
    &&& p.place_holder == crate::entity::PANEL_RESERVED
}

/// The demo scene's wall vector: the box's top, left, back, right and
/// bottom panels, in that order.
pub open spec fn is_demo_panel_scene(s: Seq<Panel>) -> bool {
    &&& s.len() == 5
    &&& is_demo_panel(
        s[0],
        seq![F32_ZERO, FP_600, FP_N600],
        seq![FP_600, FP_600, F32_ZERO],
        seq![F32_ZERO, FP_N1, F32_ZERO],
        seq![FP_0_75, FP_0_75, FP_0_75],
    )
    &&& is_demo_panel(
        s[1],
        seq![F32_ZERO, F32_ZERO, FP_N600],
        seq![F32_ZERO, FP_600, F32_ZERO],
        seq![F32_ONE, F32_ZERO, F32_ZERO],
        seq![FP_0_12, FP_0_45, FP_0_15],
    )
    &&& is_demo_panel(
        s[2],
        seq![F32_ZERO, F32_ZERO, FP_N600],
        seq![FP_600, FP_600, FP_N600],
        seq![F32_ZERO, F32_ZERO, F32_ONE],
        seq![FP_0_75, FP_0_75, FP_0_75],
    )
    &&& is_demo_panel(
        s[3],
        seq![FP_600, F32_ZERO, FP_N600],
        seq![FP_600, FP_600, F32_ZERO],
        seq![FP_N1, F32_ZERO, F32_ZERO],
        seq![FP_0_65, FP_0_05, FP_0_05],
    )
    &&& is_demo_panel(
        s[4],
        seq![F32_ZERO, F32_ZERO, FP_N600],
        seq![FP_600, F32_ZERO, F32_ZERO],
        seq![F32_ZERO, F32_ONE, F32_ZERO],
        seq![FP_0_75, FP_0_75, FP_0_75],
    )
}

/// The demo scene's light vector: one emissive panel under the box's top.
pub open spec fn is_demo_lights_scene(s: Seq<Panel>) -> bool {
    &&& s.len() == 1
    &&& is_demo_panel(
        s[0],
        seq![FP_225, FP_599, FP_N350],
        seq![FP_375, FP_599, FP_N200],
        seq![F32_ZERO, FP_N1, F32_ZERO],
        seq![FP_7, FP_7, FP_7],
    )
}

/// Builds the demo scene's sphere vector.
pub fn generate_sphere_scene() -> (r: Vec<Sphere>)
    ensures
        is_demo_sphere_scene(r@),
{
    let sphere0 = Sphere::new([FP_300, FP_60, FP_N160], [F32_ZERO, F32_ZERO, FP_0_7], FP_60);
    let mut r: Vec<Sphere> = Vec::new();
    r.push(sphere0);
    r
}

/// Builds the demo scene's wall vector.
pub fn generate_panel_scene() -> (r: Vec<Panel>)
    ensures
        is_demo_panel_scene(r@),
{
    let panel_top = Panel::new(
        [F32_ZERO, FP_600, FP_N600],
        [FP_600, FP_600, F32_ZERO],
        [F32_ZERO, FP_N1, F32_ZERO],
        [FP_0_75, FP_0_75, FP_0_75],
    );
    let panel_left = Panel::new(
        [F32_ZERO, F32_ZERO, FP_N600],
        [F32_ZERO, FP_600, F32_ZERO],
        [F32_ONE, F32_ZERO, F32_ZERO],
        [FP_0_12, FP_0_45, FP_0_15],
    );
    let panel_back = Panel::new(
        [F32_ZERO, F32_ZERO, FP_N600],
        [FP_600, FP_600, FP_N600],
        [F32_ZERO, F32_ZERO, F32_ONE],
        [FP_0_75, FP_0_75, FP_0_75],
    );
    let panel_right = Panel::new(
        [FP_600, F32_ZERO, FP_N600],
        [FP_600, FP_600, F32_ZERO],
        [FP_N1, F32_ZERO, F32_ZERO],
        [FP_0_65, FP_0_05, FP_0_05],
    );
    let panel_bottom = Panel::new(
        [F32_ZERO, F32_ZERO, FP_N600],
        [FP_600, F32_ZERO, F32_ZERO],
        [F32_ZERO, F32_ONE, F32_ZERO],
        [FP_0_75, FP_0_75, FP_0_75],
    );
    let mut r: Vec<Panel> = Vec::new();
    r.push(panel_top);
    r.push(panel_left);
    r.push(panel_back);
    r.push(panel_right);
    r.push(panel_bottom);
    r
}

/// Builds the demo scene's light vector.
pub fn generate_lights_scene() -> (r: Vec<Panel>)
    ensures
        is_demo_lights_scene(r@),
{
    let panel_light = Panel::new(
        [FP_225, FP_599, FP_N350],
        [FP_375, FP_599, FP_N200],
        [F32_ZERO, FP_N1, F32_ZERO],
        [FP_7, FP_7, FP_7],
    );
    let mut r: Vec<Panel> = Vec::new();
    r.push(panel_light);
    r
}

/// Two sphere vectors that both satisfy the demo scene description are
/// bit-identical: scene building is deterministic.
pub proof fn lemma_sphere_scene_deterministic(a: Seq<Sphere>, b: Seq<Sphere>)
    requires
        is_demo_sphere_scene(a),
        is_demo_sphere_scene(b),
    ensures
        a == b,
{
    broadcast use vstd::array::group_array_axioms;

    assert(a[0].position@ =~= b[0].position@);
    assert(a[0].color@ =~= b[0].color@);
    assert(a[0].position == b[0].position);
    assert(a[0].color == b[0].color);
    assert(a =~= b);
}

/// Two wall vectors that both satisfy the demo scene description are
/// bit-identical.
pub proof fn lemma_panel_scene_deterministic(a: Seq<Panel>, b: Seq<Panel>)
    requires
        is_demo_panel_scene(a),
        is_demo_panel_scene(b),
    ensures
        a == b,
{
    broadcast use vstd::array::group_array_axioms;

    assert forall|i: int| 0 <= i < 5 implies a[i] == b[i] by {
        assert(a[i].points@ =~= b[i].points@);
        assert(a[i].normal@ =~= b[i].normal@);
        assert(a[i].color@ =~= b[i].color@);
        assert(a[i].points == b[i].points);
        assert(a[i].normal == b[i].normal);
        assert(a[i].color == b[i].color);
    }
    assert(a =~= b);
}

/// Two light vectors that both satisfy the demo scene description are
/// bit-identical.
pub proof fn lemma_lights_scene_deterministic(a: Seq<Panel>, b: Seq<Panel>)
    requires
        is_demo_lights_scene(a),
        is_demo_lights_scene(b),
    ensures
        a == b,
{
    broadcast use vstd::array::group_array_axioms;

    assert(a[0].points@ =~= b[0].points@);
    assert(a[0].normal@ =~= b[0].normal@);
    assert(a[0].color@ =~= b[0].color@);
    assert(a[0].points == b[0].points);
    assert(a[0].normal == b[0].normal);
    assert(a[0].color == b[0].color);
    assert(a =~= b);
}

/// A scissor rectangle in pixels: origin and extent.
#[derive(Clone, Copy, Debug, PartialEq, Eq)]
pub struct ClipRect {
    pub x: u32,
    pub y: u32,
    pub width: u32,
    pub height: u32,
}

/// The scissor rectangle for the presentation draw: the full output.
pub fn generate_clip_rect() -> (r: ClipRect)
    ensures
        r == (ClipRect {
            x: 0,
            y: 0,
            width: crate::settings::WINDOW_WIDTH,
            height: crate::settings::WINDOW_HEIGHT,
        }),
{
    ClipRect { x: 0, y: 0, width: crate::settings::WINDOW_WIDTH, height: crate::settings::WINDOW_HEIGHT }
}

/// Entry `i` of the pixel table `r` holds the pixel `(i % w, i / w)`,
/// each coordinate encoded as a float-bit word.
pub open spec fn pixel_entry_ok(r: Seq<u32>, w: int, i: int) -> bool {
    r[2 * i] == f32_bits_of_uint((i % w) as nat) && r[2 * i + 1] == f32_bits_of_uint(
        (i / w) as nat,
    )
}

/// Builds the pixel-coordinate table for a `width` by `height` output:
/// one `(column, row)` pair of float-bit words per pixel, row-major, so
/// entry `i` is the pixel `(i % width, i / width)`.
pub fn generate_input_data_sized(width: u32, height: u32) -> (r: Vec<u32>)
    requires
        width < 0x0100_0000,
        height < 0x0100_0000,
    ensures
        r@.len() == 2 * ((width as int) * (height as int)),
        forall|i: int|
            0 <= i < (width as int) * (height as int) ==> #[trigger] pixel_entry_ok(
                r@,
                width as int,
                i,
            ),
{
    let mut r: Vec<u32> = Vec::new();
    let mut row: u32 = 0;
    while row < height
        invariant
            row <= height,
            width < 0x0100_0000,
            height < 0x0100_0000,
            r@.len() == 2 * ((width as int) * (row as int)),
            forall|i: int|
                0 <= i < (width as int) * (row as int) ==> #[trigger] pixel_entry_ok(
                    r@,
                    width as int,
                    i,
                ),
        decreases height - row,
    {
        let row_bits = f32_bits_of_small(row);
        let mut col: u32 = 0;
        while col < width
            invariant
                col <= width,
                row < height,
                width < 0x0100_0000,
                height < 0x0100_0000,
                row_bits == f32_bits_of_uint(row as nat),
                r@.len() == 2 * ((width as int) * (row as int) + (col as int)),
                forall|i: int|
                    0 <= i < (width as int) * (row as int) + (col as int) ==> #[trigger] pixel_entry_ok(
                        r@,
                        width as int,
                        i,
                    ),
            decreases width - col,
        {
            let col_bits = f32_bits_of_small(col);
            let ghost r_pre = r@;
            r.push(col_bits);
            r.push(row_bits);
            proof {
                let w = width as int;
                let idx = w * (row as int) + (col as int);
                assert(w * (row as int) == (row as int) * w) by (nonlinear_arith);
                lemma_fundamental_div_mod_converse(idx, w, row as int, col as int);
                assert forall|i: int| 0 <= i < idx + 1 implies #[trigger] pixel_entry_ok(
                    r@,
                    w,
                    i,
                ) by {
                    if i < idx {
                        assert(pixel_entry_ok(r_pre, w, i));
                        assert(r@[2 * i] == r_pre[2 * i]);
                        assert(r@[2 * i + 1] == r_pre[2 * i + 1]);
                    } else {
                        assert(r@[2 * idx] == col_bits);
                        assert(r@[2 * idx + 1] == row_bits);
                    }
                }
            }
            col = col + 1;
        }
        proof {
            assert((width as int) * ((row as int) + 1) == (width as int) * (row as int) + (
            width as int)) by (nonlinear_arith);
        }
        row = row + 1;
    }
    r
}

/// Builds the pixel-coordinate table for the fixed output resolution.
pub fn generate_input_data() -> (r: Vec<u32>)
    ensures
        r@.len() == 2 * ((TEXTURE_WIDTH as int) * (TEXTURE_HEIGHT as int)),
        forall|i: int|
            0 <= i < (TEXTURE_WIDTH as int) * (TEXTURE_HEIGHT as int) ==> #[trigger] pixel_entry_ok(
                r@,
                TEXTURE_WIDTH as int,
                i,
            ),
{
    generate_input_data_sized(TEXTURE_WIDTH, TEXTURE_HEIGHT)
}

} // verus!
