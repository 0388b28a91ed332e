//! Encoding-level behavior: entity records, float-bit words, byte layout.

use raybox::entity::{Panel, Sphere, PANEL_RECORD_WORDS, SPHERE_RECORD_WORDS};
use raybox::generator;
use raybox::words::{encode_words_le, f32_bits_of_small, round_up_to_align, F32_ONE, F32_ZERO};

fn bits(x: f32) -> u32 {
    x.to_bits()
}

#[test]
fn sphere_record_length_is_constant() {
    let inputs = [
        ([0.0f32, 0.0, 0.0], [0.0f32, 0.0, 0.0], 0.0f32),
        ([300.0, 60.0, -160.0], [0.0, 0.0, 0.7], 60.0),
        ([f32::MAX, f32::MIN, 1.5e-38], [1e10, -1e10, 0.25], -7.75),
    ];
    for (pos, color, radius) in inputs {
        let s = Sphere::new(
            [bits(pos[0]), bits(pos[1]), bits(pos[2])],
            [bits(color[0]), bits(color[1]), bits(color[2])],
            bits(radius),
        );
        let words = s.raw_data();
        assert_eq!(words.len(), SPHERE_RECORD_WORDS);
        assert_eq!(encode_words_le(&words).len(), 32);
    }
}

#[test]
fn panel_record_length_is_constant() {
    let inputs = [
        ([0.0f32, 0.0, 0.0], [0.0f32, 0.0, 0.0], [0.0f32, 0.0, 0.0], [0.0f32, 0.0, 0.0]),
        ([0.0, 600.0, -600.0], [600.0, 600.0, 0.0], [0.0, -1.0, 0.0], [0.75, 0.75, 0.75]),
        ([1e30, -1e30, 3.25], [0.5, 0.25, 0.125], [0.0, 0.0, 1.0], [7.0, 7.0, 7.0]),
    ];
    for (p0, p1, n, c) in inputs {
        let p = Panel::new(
            [bits(p0[0]), bits(p0[1]), bits(p0[2])],
            [bits(p1[0]), bits(p1[1]), bits(p1[2])],
            [bits(n[0]), bits(n[1]), bits(n[2])],
            [bits(c[0]), bits(c[1]), bits(c[2])],
        );
        let words = p.raw_data();
        assert_eq!(words.len(), PANEL_RECORD_WORDS);
        assert_eq!(encode_words_le(&words).len(), 64);
    }
}

#[test]
fn panel_round_trip() {
    let p0 = [225.0f32, 599.0, -350.0];
    let p1 = [375.0f32, 599.0, -200.0];
    let n = [0.0f32, -1.0, 0.0];
    let c = [7.0f32, 7.0, 7.0];
    let p = Panel::new(
        [bits(p0[0]), bits(p0[1]), bits(p0[2])],
        [bits(p1[0]), bits(p1[1]), bits(p1[2])],
        [bits(n[0]), bits(n[1]), bits(n[2])],
        [bits(c[0]), bits(c[1]), bits(c[2])],
    );
    for i in 0..3 {
        assert_eq!(f32::from_bits(p.points[i]), p0[i]);
        assert_eq!(f32::from_bits(p.points[4 + i]), p1[i]);
        assert_eq!(f32::from_bits(p.normal[i]), n[i]);
        assert_eq!(f32::from_bits(p.color[i]), c[i]);
    }
    assert_eq!(f32::from_bits(p.points[3]), 1.0);
    assert_eq!(f32::from_bits(p.points[7]), 1.0);
    assert_eq!(f32::from_bits(p.normal[3]), 0.0);
}

#[test]
fn sphere_position_padded_with_one() {
    let s = Sphere::new([bits(300.0), bits(60.0), bits(-160.0)], [0, 0, bits(0.7)], bits(60.0));
    assert_eq!(f32::from_bits(s.position[3]), 1.0);
    let words = s.raw_data();
    assert_eq!(words[0], bits(300.0));
    assert_eq!(words[1], bits(60.0));
    assert_eq!(words[2], bits(-160.0));
    assert_eq!(words[3], bits(1.0));
    assert_eq!(words[4], 0);
    assert_eq!(words[5], 0);
    assert_eq!(words[6], bits(0.7));
    assert_eq!(words[7], bits(60.0));
}

#[test]
fn float_bit_constants_match_their_values() {
    assert_eq!(F32_ZERO, bits(0.0));
    assert_eq!(F32_ONE, bits(1.0));
    assert_eq!(generator::FP_0_7, bits(0.7));
    assert_eq!(generator::FP_0_75, bits(0.75));
    assert_eq!(generator::FP_0_12, bits(0.12));
    assert_eq!(generator::FP_0_45, bits(0.45));
    assert_eq!(generator::FP_0_15, bits(0.15));
    assert_eq!(generator::FP_0_65, bits(0.65));
    assert_eq!(generator::FP_0_05, bits(0.05));
    assert_eq!(generator::FP_7, bits(7.0));
    assert_eq!(generator::FP_60, bits(60.0));
    assert_eq!(generator::FP_225, bits(225.0));
    assert_eq!(generator::FP_300, bits(300.0));
    assert_eq!(generator::FP_375, bits(375.0));
    assert_eq!(generator::FP_599, bits(599.0));
    assert_eq!(generator::FP_600, bits(600.0));
    assert_eq!(generator::FP_N1, bits(-1.0));
    assert_eq!(generator::FP_N160, bits(-160.0));
    assert_eq!(generator::FP_N200, bits(-200.0));
    assert_eq!(generator::FP_N350, bits(-350.0));
    assert_eq!(generator::FP_N600, bits(-600.0));
    assert_eq!(raybox::entity::PANEL_RESERVED, bits(-10.0));
    assert_eq!(raybox::presenter::FP_2, bits(2.0));
    assert_eq!(raybox::presenter::FP_3, bits(3.0));
}

#[test]
fn small_int_float_bits_are_exact() {
    for n in 0u32..=600 {
        assert_eq!(f32_bits_of_small(n), (n as f32).to_bits());
    }
    assert_eq!(f32_bits_of_small(0x00FF_FFFF), (16777215.0f32).to_bits());
}

#[test]
fn words_serialize_little_endian() {
    let words = vec![0x1122_3344u32, 1, 0xFFFF_FFFF];
    let bytes = encode_words_le(&words);
    assert_eq!(
        bytes,
        vec![0x44, 0x33, 0x22, 0x11, 0x01, 0x00, 0x00, 0x00, 0xFF, 0xFF, 0xFF, 0xFF]
    );
}

#[test]
fn row_pitch_rounds_up_to_alignment() {
    assert_eq!(round_up_to_align(2400, 256), 2560);
    assert_eq!(round_up_to_align(0, 256), 0);
    assert_eq!(round_up_to_align(1, 256), 256);
    assert_eq!(round_up_to_align(256, 256), 256);
    assert_eq!(round_up_to_align(2400, 1), 2400);
}

#[test]
fn scene_builder_is_deterministic() {
    assert_eq!(generator::generate_sphere_scene(), generator::generate_sphere_scene());
    assert_eq!(generator::generate_panel_scene(), generator::generate_panel_scene());
    assert_eq!(generator::generate_lights_scene(), generator::generate_lights_scene());
    assert_eq!(generator::generate_input_data(), generator::generate_input_data());
}

#[test]
fn demo_scene_content() {
    let spheres = generator::generate_sphere_scene();
    assert_eq!(spheres.len(), 1);
    let s = &spheres[0];
    assert_eq!(s.position.map(f32::from_bits), [300.0, 60.0, -160.0, 1.0]);
    assert_eq!(s.color.map(f32::from_bits), [0.0, 0.0, 0.7]);
    assert_eq!(f32::from_bits(s.radius), 60.0);

    let panels = generator::generate_panel_scene();
    assert_eq!(panels.len(), 5);
    let top = &panels[0];
    assert_eq!(
        top.points.map(f32::from_bits),
        [0.0, 600.0, -600.0, 1.0, 600.0, 600.0, 0.0, 1.0]
    );
    assert_eq!(top.normal.map(f32::from_bits), [0.0, -1.0, 0.0, 0.0]);
    assert_eq!(top.color.map(f32::from_bits), [0.75, 0.75, 0.75]);

    let lights = generator::generate_lights_scene();
    assert_eq!(lights.len(), 1);
    let light = &lights[0];
    assert_eq!(
        light.points.map(f32::from_bits),
        [225.0, 599.0, -350.0, 1.0, 375.0, 599.0, -200.0, 1.0]
    );
    assert_eq!(light.color.map(f32::from_bits), [7.0, 7.0, 7.0]);
}

#[test]
fn pixel_table_entries_row_major() {
    let table = generator::generate_input_data_sized(4, 3);
    assert_eq!(table.len(), 24);
    for i in 0..12usize {
        let col = (i % 4) as f32;
        let row = (i / 4) as f32;
        assert_eq!(f32::from_bits(table[2 * i]), col);
        assert_eq!(f32::from_bits(table[2 * i + 1]), row);
    }
}

#[test]
fn pixel_table_full_resolution() {
    let table = generator::generate_input_data();
    assert_eq!(table.len(), 2 * 600 * 600);
    for i in [0usize, 1, 599, 600, 601, 359_999] {
        let col = (i % 600) as f32;
        let row = (i / 600) as f32;
        assert_eq!(f32::from_bits(table[2 * i]), col);
        assert_eq!(f32::from_bits(table[2 * i + 1]), row);
    }
}
