//! Dispatch sizing, per-frame pass sequencing, and the one-time setup plan.
//!
//! The orchestrator owns the system's authoritative sequencing invariant:
//! within one frame the compute dispatch comes first, the presentation draw
//! comes last, and any transfer copy sits between them, so the result buffer
//! is never read before it is written.  It also sizes the dispatch to the
//! smallest workgroup count that covers every pixel.

use vstd::prelude::*;

verus! {

use vstd::arithmetic::div_mod::lemma_fundamental_div_mod;
use crate::binder::{
    build_group0,
    BindGroupPlan,
    build_group1,
    is_scene_group,
    zero_words,
    Binder,
    BufferPlan,
    BufferUsage,
    BindingKind,
};
use crate::config::{
    mode_flag,
    result_bytes_per_pixel,
    spec_mode_flag,
    spec_result_bytes_per_pixel,
    Config,
    TransferStrategy,
};
use crate::entity::{Panel, Sphere};
use crate::generator::{
    generate_clip_rect,
    generate_input_data,
    generate_lights_scene,
    generate_panel_scene,
    generate_sphere_scene,
    is_demo_lights_scene,
    is_demo_panel_scene,
    is_demo_sphere_scene,
    lemma_lights_scene_deterministic,
    lemma_panel_scene_deterministic,
    lemma_sphere_scene_deterministic,
    pixel_entry_ok,
    ClipRect,
};
use crate::presenter::{cell_vertices, cell_vertex_words, surface_plan, SurfacePlan};
use crate::settings::{
    SAMPLES_PER_PIXEL,
    TEXTURE_HEIGHT,
    TEXTURE_WIDTH,
    THREADS_PER_WORKGROUP,
    WINDOW_HEIGHT,
    WINDOW_TOTAL_PIXEL,
    WINDOW_WIDTH,
};
use crate::words::{round_up_to_align, spec_round_up};

/// The smallest workgroup count whose threads cover every pixel: the
/// dispatch reaches each pixel, and one workgroup fewer would not.  The
/// kernel itself must still bound-check, since the last group may run up to
/// `threads_per_group - 1` threads past the end.
pub fn workgroup_count(pixel_count: u32, threads_per_group: u32) -> (r: u32)
    requires
        1 <= threads_per_group,
    ensures
        (r as int) * (threads_per_group as int) >= pixel_count as int,
        ((r as int) - 1) * (threads_per_group as int) < pixel_count as int,
{
    let p: u64 = pixel_count as u64;
    let t: u64 = threads_per_group as u64;
    let q: u64 = (p + t - 1) / t;
    proof {
        let pi = p as int;
        let ti = t as int;
        let qi = q as int;
        lemma_fundamental_div_mod(pi + ti - 1, ti);
        assert(qi * ti == ti * qi) by (nonlinear_arith);
        assert((qi - 1) * ti == qi * ti - ti) by (nonlinear_arith);
        if p > 0 && q > p {
            assert(qi * ti >= (pi + 1) * ti) by (nonlinear_arith)
                requires
                    qi >= pi + 1,
                    ti >= 1,
            ;
            assert((pi + 1) * ti >= pi + ti) by (nonlinear_arith)
                requires
                    pi >= 1,
                    ti >= 1,
            ;
            assert(false);
        }
        if p == 0 && q >= 1 {
            assert(ti * qi >= ti) by (nonlinear_arith)
                requires
                    qi >= 1,
                    ti >= 1,
            ;
            assert(false);
        }
    }
    q as u32
}

/// One recorded command of a frame.
#[derive(Clone, Copy, Debug, PartialEq, Eq)]
pub enum PassCmd {
    /// Run the compute pipeline over the pixel grid, with the per-pixel I/O
    /// group at index 0 and the scene group at index 1.
    Compute { workgroups: u32 },
    /// Copy the result buffer into the presentation texture, stating the
    /// row pitch and row count exactly.
    CopyToTexture { bytes_per_row: u32, rows_per_image: u32, width: u32, height: u32 },
    /// Draw to the acquired surface image, scissored to the clip rectangle.
    Render { vertex_count: u32, instance_count: u32, clip_rect: ClipRect },
}

/// The frame's ordering invariant: the compute dispatch is first and
/// nothing after it computes; the presentation draw is last and nothing
/// before it draws; any transfer therefore sits between the two.
pub open spec fn well_sequenced(cmds: Seq<PassCmd>) -> bool {
    &&& cmds.len() >= 2
    &&& cmds[0] is Compute
    &&& cmds.last() is Render
    &&& forall|i: int| 0 < i < cmds.len() ==> !((#[trigger] cmds[i]) is Compute)
    &&& forall|i: int| 0 <= i < cmds.len() - 1 ==> !((#[trigger] cmds[i]) is Render)
}

/// The command sequence of one frame under the chosen transfer strategy.
/// The direct-pull path draws one quad instance per pixel straight from the
/// result buffer; the texture-blit path copies the result buffer into the
/// texture — row pitch rounded up to the API's alignment — and draws the
/// full-screen triangle.
pub fn frame_commands(
    strategy: TransferStrategy,
    workgroups: u32,
    width: u32,
    height: u32,
    row_alignment: u32,
    clip_rect: ClipRect,
) -> (r: Vec<PassCmd>)
    requires
        1 <= row_alignment,
        4 * (width as int) + (row_alignment as int) <= u32::MAX,
        (width as int) * (height as int) <= u32::MAX,
    ensures
        well_sequenced(r@),
        match strategy {
            TransferStrategy::DirectPull => r@ =~= seq![
                (PassCmd::Compute { workgroups }),
                (PassCmd::Render {
                    vertex_count: 4,
                    instance_count: ((width as int) * (height as int)) as u32,
                    clip_rect,
                }),
            ],
            TransferStrategy::TextureBlit => r@ =~= seq![
                (PassCmd::Compute { workgroups }),
                (PassCmd::CopyToTexture {
                    bytes_per_row: spec_round_up(4 * (width as int), row_alignment as int) as u32,
                    rows_per_image: height,
                    width,
                    height,
                }),
                (PassCmd::Render { vertex_count: 3, instance_count: 1, clip_rect }),
            ],
        },
{
    let mut r: Vec<PassCmd> = Vec::new();
    r.push(PassCmd::Compute { workgroups });
    match strategy {
        TransferStrategy::DirectPull => {
            let pixels: u32 = ((width as u64) * (height as u64)) as u32;
            r.push(PassCmd::Render { vertex_count: 4, instance_count: pixels, clip_rect });
        },
        TransferStrategy::TextureBlit => {
            let pitch: u32 = round_up_to_align(4 * width, row_alignment);
            r.push(
                PassCmd::CopyToTexture {
                    bytes_per_row: pitch,
                    rows_per_image: height,
                    width,
                    height,
                },
            );
            r.push(PassCmd::Render { vertex_count: 3, instance_count: 1, clip_rect });
        },
    }
    r
}

/// Everything the shell needs to create the GPU resources and run frames:
/// the outcome of the one-time setup, fully planned host-side.
#[derive(Clone, Debug)]
pub struct SetupPlan {
    pub strategy: TransferStrategy,
    pub surface: SurfacePlan,
    pub texture_width: u32,
    pub texture_height: u32,
    pub cell_buffer: BufferPlan,
    pub config: Config,
    pub binder: Binder,
    pub work_group_count: u32,
    pub clip_rect: ClipRect,
}

/// Usage of the pixel-coordinate buffer: read-only storage for the compute
/// pass, vertex-pulled by the direct-pull render path, copyable out.
pub open spec fn input_usage() -> BufferUsage {
    BufferUsage { copy_src: true, copy_dst: false, storage: true, uniform: false, vertex: true }
}

/// Usage of the result buffer: written by compute, copied to the texture,
/// vertex-pulled by the direct-pull render path.
pub open spec fn result_usage() -> BufferUsage {
    BufferUsage { copy_src: true, copy_dst: true, storage: true, uniform: false, vertex: true }
}

/// Usage of the presentation vertex buffer.
pub open spec fn vertex_only_usage() -> BufferUsage {
    BufferUsage { copy_src: false, copy_dst: false, storage: false, uniform: false, vertex: false }
}

/// The setup plan's contract over the scene it was built from: resolution
/// and sampling from the fixed settings, the mode flag encoding the
/// strategy, counts derived from the vectors themselves, both bind groups
/// well-formed and wired as declared, the pixel table correct entry by
/// entry, the result buffer zeroed at its strategy-dependent size, and the
/// dispatch minimally covering every pixel.
pub open spec fn setup_ok(
    s: SetupPlan,
    strategy: TransferStrategy,
    spheres: Seq<Sphere>,
    panels: Seq<Panel>,
    lights: Seq<Panel>,
) -> bool {
    &&& s.strategy == strategy
    &&& s.surface == (SurfacePlan { width: WINDOW_WIDTH, height: WINDOW_HEIGHT })
    &&& s.texture_width == TEXTURE_WIDTH
    &&& s.texture_height == TEXTURE_HEIGHT
    &&& s.cell_buffer.contents_words@ == cell_vertex_words()
    &&& s.cell_buffer.usage == (BufferUsage {
        copy_src: false,
        copy_dst: false,
        storage: false,
        uniform: false,
        vertex: true,
    })
    &&& s.config.mode == spec_mode_flag(strategy)
    &&& s.config.width == WINDOW_WIDTH
    &&& s.config.height == WINDOW_HEIGHT
    &&& s.config.samples_per_pixel == SAMPLES_PER_PIXEL
    &&& s.config.counts_match(spheres, panels, lights)
    &&& s.config.reserved == 0
    &&& s.binder.group0.wf()
    &&& s.binder.group0.bindings@.len() == 2
    &&& s.binder.group0.bindings@[0].kind == (BindingKind::Storage { read_only: true })
    &&& s.binder.group0.bindings@[0].min_binding_size == 8 * WINDOW_TOTAL_PIXEL
    &&& s.binder.group0.bindings@[0].buffer.usage == input_usage()
    &&& s.binder.group0.bindings@[0].buffer.contents_words@.len() == 2 * (
    WINDOW_TOTAL_PIXEL as int)
    &&& forall|i: int|
        0 <= i < WINDOW_TOTAL_PIXEL as int ==> #[trigger] pixel_entry_ok(
            s.binder.group0.bindings@[0].buffer.contents_words@,
            WINDOW_WIDTH as int,
            i,
        )
    &&& s.binder.group0.bindings@[1].kind == (BindingKind::Storage { read_only: false })
    &&& s.binder.group0.bindings@[1].min_binding_size == spec_result_bytes_per_pixel(strategy) * (
    WINDOW_TOTAL_PIXEL as int)
    &&& s.binder.group0.bindings@[1].buffer.usage == result_usage()
    &&& s.binder.group0.bindings@[1].buffer.contents_words@ == zero_words(
        (spec_result_bytes_per_pixel(strategy) / 4 * (WINDOW_TOTAL_PIXEL as int)) as nat,
    )
    &&& s.binder.group1.wf()
    &&& is_scene_group(s.binder.group1, spheres, panels, lights, s.config)
    &&& (s.work_group_count as int) * (THREADS_PER_WORKGROUP as int) >= WINDOW_TOTAL_PIXEL as int
    &&& ((s.work_group_count as int) - 1) * (THREADS_PER_WORKGROUP as int) < WINDOW_TOTAL_PIXEL as int
    &&& s.clip_rect == (ClipRect { x: 0, y: 0, width: WINDOW_WIDTH, height: WINDOW_HEIGHT })
}

/// Plans the one-time setup for a given scene: packs the configuration with
/// counts re-derived from the vectors, builds the pixel table and the
/// zeroed result buffer, wires both bind groups, and sizes the dispatch.
pub fn build_setup(
    strategy: TransferStrategy,
    spheres: &Vec<Sphere>,
    panels: &Vec<Panel>,
    lights: &Vec<Panel>,
) -> (s: SetupPlan)
    requires
        spheres@.len() <= u32::MAX,
        panels@.len() <= u32::MAX,
        lights@.len() <= u32::MAX,
    ensures
        setup_ok(s, strategy, spheres@, panels@, lights@),
{
    let config = Config::from_scene(
        mode_flag(strategy),
        WINDOW_WIDTH,
        WINDOW_HEIGHT,
        SAMPLES_PER_PIXEL,
        spheres,
        panels,
        lights,
    );

    let input_words = generate_input_data();
    let input_buffer = BufferPlan {
        contents_words: input_words,
        usage: BufferUsage {
            copy_src: true,
            copy_dst: false,
            storage: true,
            uniform: false,
            vertex: true,
        },
    };

    let result_words_per_pixel: u32 = result_bytes_per_pixel(strategy) / 4;
    let result_len: usize = (result_words_per_pixel as usize) * (WINDOW_TOTAL_PIXEL as usize);
    let mut result_words: Vec<u32> = Vec::new();
    let mut k: usize = 0;
    while k < result_len
        invariant
            k <= result_len,
            result_words@ =~= zero_words(k as nat),
        decreases result_len - k,
    {
        result_words.push(0);
        proof {
            assert(result_words@ =~= zero_words((k + 1) as nat));
        }
        k = k + 1;
    }
    let result_buffer = BufferPlan {
        contents_words: result_words,
        usage: BufferUsage {
            copy_src: true,
            copy_dst: true,
            storage: true,
            uniform: false,
            vertex: true,
        },
    };

    let group0 = match build_group0(input_buffer, result_buffer, WINDOW_TOTAL_PIXEL, strategy) {
        Ok(g) => g,
        Err(_) => {
            // statically unreachable: the planned buffers match the declared
            // minimum binding sizes exactly
            proof {
                assert(false);
            }
            BindGroupPlan { bindings: Vec::new() }
        },
    };
    let group1 = match build_group1(spheres, panels, lights, &config) {
        Ok(g) => g,
        Err(_) => {
            // statically unreachable: the configuration was packed from these
            // same vectors, so the counts match
            proof {
                assert(false);
            }
            BindGroupPlan { bindings: Vec::new() }
        },
    };

    let cell_buffer = BufferPlan {
        contents_words: cell_vertices(),
        usage: BufferUsage {
            copy_src: false,
            copy_dst: false,
            storage: false,
            uniform: false,
            vertex: true,
        },
    };

    SetupPlan {
        strategy,
        surface: surface_plan(),
        texture_width: TEXTURE_WIDTH,
        texture_height: TEXTURE_HEIGHT,
        cell_buffer,
        config,
        binder: Binder::new(group0, group1),
        work_group_count: workgroup_count(WINDOW_TOTAL_PIXEL, THREADS_PER_WORKGROUP),
        clip_rect: generate_clip_rect(),
    }
}

/// Plans the one-time setup for the fixed demo scene: the host-side part
/// of the render controller's construction.  The scene is unique, so the
/// plan satisfies the setup contract for every vector triple matching the
/// demo scene description; the packed configuration and the dispatch size
/// come out concrete.
pub fn demo_setup(strategy: TransferStrategy) -> (s: SetupPlan)
    ensures
        forall|sp: Seq<Sphere>, pa: Seq<Panel>, li: Seq<Panel>|
            #![trigger is_demo_sphere_scene(sp), is_demo_panel_scene(pa), is_demo_lights_scene(li)]
            is_demo_sphere_scene(sp) && is_demo_panel_scene(pa) && is_demo_lights_scene(li)
                ==> setup_ok(s, strategy, sp, pa, li),
        s.config == (Config {
            mode: spec_mode_flag(strategy),
            width: 600,
            height: 600,
            samples_per_pixel: SAMPLES_PER_PIXEL,
            sphere_count: 1,
            panel_count: 5,
            light_count: 1,
            reserved: 0,
        }),
        s.work_group_count == 5625,
{
    let spheres = generate_sphere_scene();
    let panels = generate_panel_scene();
    let lights = generate_lights_scene();
    let s = build_setup(strategy, &spheres, &panels, &lights);
    proof {
        assert forall|sp: Seq<Sphere>, pa: Seq<Panel>, li: Seq<Panel>|
            is_demo_sphere_scene(sp) && is_demo_panel_scene(pa) && is_demo_lights_scene(
                li,
            ) implies setup_ok(s, strategy, sp, pa, li) by {
            lemma_sphere_scene_deterministic(sp, spheres@);
            lemma_panel_scene_deterministic(pa, panels@);
            lemma_lights_scene_deterministic(li, lights@);
        }
    }
    s
}

} // verus!
