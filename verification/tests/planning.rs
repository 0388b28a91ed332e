//! Planning-level behavior: configuration packing, bind-group wiring,
//! dispatch sizing, and frame sequencing.

use raybox::binder::{
    bind_buffer, build_group1, encode_panel_buffer, encode_sphere_buffer, BindError, BindingKind,
    BufferPlan, BufferUsage,
};
use raybox::config::{mode_flag, Config, TransferStrategy};
use raybox::entity::Sphere;
use raybox::generator::{
    generate_clip_rect, generate_lights_scene, generate_panel_scene, generate_sphere_scene,
    ClipRect,
};
use raybox::orchestrator::{demo_setup, frame_commands, workgroup_count, PassCmd};
use raybox::settings::{SAMPLES_PER_PIXEL, WINDOW_HEIGHT, WINDOW_TOTAL_PIXEL, WINDOW_WIDTH};

fn bits(x: f32) -> u32 {
    x.to_bits()
}

#[test]
fn config_counts_equal_vector_lengths() {
    let spheres = generate_sphere_scene();
    let panels = generate_panel_scene();
    let lights = generate_lights_scene();
    let config = Config::from_scene(0, 600, 600, 1, &spheres, &panels, &lights);
    assert_eq!(config.sphere_count as usize, spheres.len());
    assert_eq!(config.panel_count as usize, panels.len());
    assert_eq!(config.light_count as usize, lights.len());
}

#[test]
fn config_record_for_demo_scene() {
    let setup = demo_setup(TransferStrategy::TextureBlit);
    let c = setup.config;
    assert_eq!(c.mode, 0);
    assert_eq!(c.width, 600);
    assert_eq!(c.height, 600);
    assert_eq!(c.samples_per_pixel, SAMPLES_PER_PIXEL);
    assert_eq!(c.sphere_count, 1);
    assert_eq!(c.panel_count, 5);
    assert_eq!(c.light_count, 1);
    assert_eq!(c.reserved, 0);
    assert_eq!(
        c.raw_data(),
        vec![0, 600, 600, SAMPLES_PER_PIXEL, 1, 5, 1, 0]
    );
    assert_eq!(mode_flag(TransferStrategy::DirectPull), 1);
}

#[test]
fn workgroup_dispatch_covers_pixels_minimally() {
    assert_eq!(workgroup_count(600 * 600, 64), 5625);
    for (pixels, threads) in [(0u32, 64u32), (1, 64), (63, 64), (64, 64), (65, 64), (1, 1), (360_000, 64), (7, 3)] {
        let wc = workgroup_count(pixels, threads) as u64;
        assert!(wc * (threads as u64) >= pixels as u64);
        assert!((wc as i64 - 1) * (threads as i64) < pixels as i64);
    }
}

#[test]
fn bind_errors_for_invalid_sizes() {
    let buffer = BufferPlan {
        contents_words: vec![0u32; 8],
        usage: BufferUsage {
            copy_src: true,
            copy_dst: false,
            storage: false,
            uniform: true,
            vertex: false,
        },
    };
    assert_eq!(
        bind_buffer(0, BindingKind::Uniform, 0, buffer.clone()),
        Err(BindError::ZeroBindingSize)
    );
    assert_eq!(
        bind_buffer(0, BindingKind::Uniform, 33, buffer.clone()),
        Err(BindError::BindingSizeExceedsBuffer)
    );
    let bound = bind_buffer(0, BindingKind::Uniform, 32, buffer).unwrap();
    assert_eq!(bound.min_binding_size, 32);
}

#[test]
fn count_mismatch_is_rejected() {
    let spheres = generate_sphere_scene();
    let panels = generate_panel_scene();
    let lights = generate_lights_scene();
    let mut config = Config::from_scene(0, 600, 600, 1, &spheres, &panels, &lights);
    config.panel_count = 4;
    assert_eq!(
        build_group1(&spheres, &panels, &lights, &config),
        Err(BindError::CountMismatch)
    );
}

#[test]
fn empty_entity_vectors_pad_to_one_record() {
    let no_spheres: Vec<Sphere> = vec![];
    let sphere_words = encode_sphere_buffer(&no_spheres);
    assert_eq!(sphere_words, vec![0u32; 8]);
    let panel_words = encode_panel_buffer(&vec![]);
    assert_eq!(panel_words, vec![0u32; 16]);

    let panels = generate_panel_scene();
    let lights = generate_lights_scene();
    let config = Config::from_scene(0, 600, 600, 1, &no_spheres, &panels, &lights);
    let group = build_group1(&no_spheres, &panels, &lights, &config).unwrap();
    assert_eq!(group.bindings[0].min_binding_size, 32);
    assert_eq!(group.bindings[0].buffer.contents_words, vec![0u32; 8]);
}

#[test]
fn scene_group_wiring() {
    let spheres = generate_sphere_scene();
    let panels = generate_panel_scene();
    let lights = generate_lights_scene();
    let config = Config::from_scene(0, 600, 600, 1, &spheres, &panels, &lights);
    let group = build_group1(&spheres, &panels, &lights, &config).unwrap();
    assert_eq!(group.bindings.len(), 4);
    for (i, b) in group.bindings.iter().enumerate() {
        assert_eq!(b.binding as usize, i);
        assert_eq!(b.min_binding_size as usize, 4 * b.buffer.contents_words.len());
    }
    assert_eq!(group.bindings[0].min_binding_size, 32);
    assert_eq!(group.bindings[1].min_binding_size, 5 * 64);
    assert_eq!(group.bindings[2].min_binding_size, 64);
    assert_eq!(group.bindings[3].min_binding_size, 32);
    assert_eq!(group.bindings[3].buffer.contents_words, config.raw_data());
    assert_eq!(group.bindings[0].buffer.contents_words, spheres[0].raw_data());
}

#[test]
fn rebuilding_scene_group_leaves_io_group_unchanged() {
    let mut setup = demo_setup(TransferStrategy::TextureBlit);
    let group0_before = setup.binder.group0.clone();

    let new_spheres = vec![
        Sphere::new([bits(100.0), bits(100.0), bits(-100.0)], [bits(0.9), 0, 0], bits(30.0)),
        Sphere::new([bits(500.0), bits(80.0), bits(-300.0)], [0, bits(0.9), 0], bits(80.0)),
    ];
    let panels = generate_panel_scene();
    let lights = generate_lights_scene();
    let new_config = Config::from_scene(0, 600, 600, 1, &new_spheres, &panels, &lights);
    let rebuilt = setup.binder.rebuild_group1(&new_spheres, &panels, &lights, &new_config);
    assert_eq!(rebuilt, Ok(()));

    assert_eq!(setup.binder.group0, group0_before);
    assert_eq!(setup.binder.group1.bindings[0].min_binding_size, 64);
}

#[test]
fn io_group_wiring() {
    let setup = demo_setup(TransferStrategy::TextureBlit);
    let g0 = &setup.binder.group0;
    assert_eq!(g0.bindings.len(), 2);
    assert_eq!(g0.bindings[0].kind, BindingKind::Storage { read_only: true });
    assert_eq!(g0.bindings[0].min_binding_size, 8 * WINDOW_TOTAL_PIXEL as u64);
    assert_eq!(
        g0.bindings[0].buffer.contents_words.len(),
        2 * WINDOW_TOTAL_PIXEL as usize
    );
    assert_eq!(g0.bindings[1].kind, BindingKind::Storage { read_only: false });
    assert_eq!(g0.bindings[1].min_binding_size, 4 * WINDOW_TOTAL_PIXEL as u64);
    assert_eq!(
        g0.bindings[1].buffer.contents_words,
        vec![0u32; WINDOW_TOTAL_PIXEL as usize]
    );

    let direct = demo_setup(TransferStrategy::DirectPull);
    let g0 = &direct.binder.group0;
    assert_eq!(g0.bindings[1].min_binding_size, 12 * WINDOW_TOTAL_PIXEL as u64);
    assert_eq!(
        g0.bindings[1].buffer.contents_words.len(),
        3 * WINDOW_TOTAL_PIXEL as usize
    );
}

#[test]
fn demo_setup_surface_and_dispatch() {
    let setup = demo_setup(TransferStrategy::TextureBlit);
    assert_eq!(setup.surface.width, WINDOW_WIDTH);
    assert_eq!(setup.surface.height, WINDOW_HEIGHT);
    assert_eq!(setup.texture_width, 600);
    assert_eq!(setup.texture_height, 600);
    assert_eq!(setup.work_group_count, 5625);
    assert_eq!(
        setup.clip_rect,
        ClipRect { x: 0, y: 0, width: 600, height: 600 }
    );
    let vertices = setup.cell_buffer.contents_words.clone();
    assert_eq!(vertices.len(), 12);
    let floats: Vec<f32> = vertices.iter().copied().map(f32::from_bits).collect();
    assert_eq!(
        floats,
        vec![-1.0, -1.0, 0.0, 0.0, 3.0, -1.0, 2.0, 0.0, -1.0, 3.0, 0.0, 2.0]
    );
}

#[test]
fn frame_sequence_texture_blit() {
    let clip = generate_clip_rect();
    let cmds = frame_commands(TransferStrategy::TextureBlit, 5625, 600, 600, 256, clip);
    assert_eq!(cmds.len(), 3);
    assert_eq!(cmds[0], PassCmd::Compute { workgroups: 5625 });
    assert_eq!(
        cmds[1],
        PassCmd::CopyToTexture { bytes_per_row: 2560, rows_per_image: 600, width: 600, height: 600 }
    );
    assert_eq!(
        cmds[2],
        PassCmd::Render { vertex_count: 3, instance_count: 1, clip_rect: clip }
    );
}

#[test]
fn frame_sequence_direct_pull() {
    let clip = generate_clip_rect();
    let cmds = frame_commands(TransferStrategy::DirectPull, 5625, 600, 600, 1, clip);
    assert_eq!(cmds.len(), 2);
    assert_eq!(cmds[0], PassCmd::Compute { workgroups: 5625 });
    assert_eq!(
        cmds[1],
        PassCmd::Render { vertex_count: 4, instance_count: 360_000, clip_rect: clip }
    );
}

#[test]
fn frame_sequence_orders_compute_before_draw() {
    let clip = generate_clip_rect();
    for strategy in [TransferStrategy::DirectPull, TransferStrategy::TextureBlit] {
        let cmds = frame_commands(strategy, 5625, 600, 600, 256, clip);
        assert!(matches!(cmds[0], PassCmd::Compute { .. }));
        assert!(matches!(cmds[cmds.len() - 1], PassCmd::Render { .. }));
        for c in &cmds[1..] {
            assert!(!matches!(c, PassCmd::Compute { .. }));
        }
        for c in &cmds[..cmds.len() - 1] {
            assert!(!matches!(c, PassCmd::Render { .. }));
        }
    }
}
