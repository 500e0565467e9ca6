//! Uniform buffers: construction, overwrite, read-back.

use oceanman::gpu::Gpu;
use oceanman::mat4::{Vec3, Vec4, F32_ONE_BITS};
use oceanman::passes::fxaa::FxaaParams;
use oceanman::resources::{
    LightingUniformData, MaterialUniformData, SceneUniform, SceneUniformData, MAX_LIGHTS,
};
use oceanman::uniform::Uniform;

#[test]
fn uniform_round_trip_through_new_and_update() {
    let mut gpu = Gpu::new();
    let v = FxaaParams::default();
    let mut u: Uniform<FxaaParams> = Uniform::new(&mut gpu, None, v);
    assert_eq!(*u.read_back(), v);

    let v2 = FxaaParams { edge_threshold: 0x3F00_0000, ..v };
    u.update(v2);
    assert_eq!(*u.read_back(), v2);

    let v3 = FxaaParams { search_steps: 0, ..v2 };
    u.update(v3);
    assert_eq!(*u.read_back(), v3);
    assert_ne!(*u.read_back(), v);
}

#[test]
fn scene_uniform_update_touches_only_the_camera_slot() {
    let mut gpu = Gpu::new();
    let zero = SceneUniformData::new();
    let shadow = SceneUniformData::new();
    let mut u = SceneUniform::new(&mut gpu, zero, shadow);
    assert_eq!(u.data_0.camera_position, Vec4 { x: 0, y: 0, z: 0, w: F32_ONE_BITS });

    let moved = SceneUniformData {
        camera_position: Vec4 { x: F32_ONE_BITS, y: 0, z: 0, w: F32_ONE_BITS },
        ..SceneUniformData::new()
    };
    u.update(moved);
    assert_eq!(u.data_0.camera_position.x, F32_ONE_BITS);
    // The shadow slot keeps its value.
    assert_eq!(u.data_1.camera_position, Vec4 { x: 0, y: 0, z: 0, w: F32_ONE_BITS });
}

#[test]
fn lighting_uniform_keeps_the_first_sixteen_lights() {
    let white = Vec3 { x: F32_ONE_BITS, y: F32_ONE_BITS, z: F32_ONE_BITS };
    let mut lights = Vec::new();
    for i in 0..20u32 {
        lights.push((Vec3 { x: i, y: 0, z: 0 }, white));
    }
    let data = LightingUniformData::new(lights);
    assert_eq!(data.count, 16);
    assert_eq!(data.positions.len(), MAX_LIGHTS);
    assert_eq!(data.colors.len(), MAX_LIGHTS);
    for i in 0..16u32 {
        assert_eq!(data.positions[i as usize], Vec4 { x: i, y: 0, z: 0, w: F32_ONE_BITS });
        assert_eq!(data.colors[i as usize].w, F32_ONE_BITS);
    }
}

#[test]
fn lighting_uniform_zeroes_unused_slots() {
    let white = Vec3 { x: F32_ONE_BITS, y: F32_ONE_BITS, z: F32_ONE_BITS };
    let lights = vec![(Vec3 { x: 7, y: 8, z: 9 }, white)];
    let data = LightingUniformData::new(lights);
    assert_eq!(data.count, 1);
    assert_eq!(data.positions[0], Vec4 { x: 7, y: 8, z: 9, w: F32_ONE_BITS });
    for i in 1..MAX_LIGHTS {
        assert_eq!(data.positions[i], Vec4 { x: 0, y: 0, z: 0, w: 0 });
        assert_eq!(data.colors[i], Vec4 { x: 0, y: 0, z: 0, w: 0 });
    }
}

#[test]
fn material_factors_gain_a_unit_fourth_component() {
    let d = MaterialUniformData::new(
        Vec3 { x: 1, y: 2, z: 3 },
        Vec3 { x: 4, y: 5, z: 6 },
        Vec3 { x: 7, y: 8, z: 9 },
    );
    assert_eq!(d.ambient, Vec4 { x: 1, y: 2, z: 3, w: F32_ONE_BITS });
    assert_eq!(d.diffuse, Vec4 { x: 4, y: 5, z: 6, w: F32_ONE_BITS });
    assert_eq!(d.specular, Vec4 { x: 7, y: 8, z: 9, w: F32_ONE_BITS });
}

#[test]
fn fxaa_defaults_match_the_documented_thresholds() {
    let d = FxaaParams::default();
    assert_eq!(d.edge_threshold, (1.0f32 / 3.0).to_bits());
    assert_eq!(d.edge_threshold_min, (1.0f32 / 32.0).to_bits());
    assert_eq!(d.subpix_trim, 0.5f32.to_bits());
    assert_eq!(d.subpix_cap, 1.0f32.to_bits());
    assert_eq!(d.search_steps, 5.0f32.to_bits());
    assert_eq!(d.search_threshold, 0.25f32.to_bits());
}
