//! Scene loading: attribute validation, material indices, transform
//! accumulation down the hierarchy, and vertex serialization.

use oceanman::common::{VertexAttributes, VERTEX_ATTRIBUTES_SIZE};
use oceanman::gpu::Gpu;
use oceanman::loader::{
    expand_rgb_to_rgba, GltfDocument, GltfImage, GltfImageFormat, GltfMaterial, GltfNode,
    GltfPrimitive, Scene, SceneLoadError,
};
use oceanman::mat4::{mat4_identity, Mat4, Quat, Vec2, Vec3, Vec4};
use oceanman::resources::SceneUniformData;
use oceanman::texture::TextureFormat;

fn v3(x: f32, y: f32, z: f32) -> Vec3 {
    Vec3 { x: x.to_bits(), y: y.to_bits(), z: z.to_bits() }
}

fn v2(x: f32, y: f32) -> Vec2 {
    Vec2 { x: x.to_bits(), y: y.to_bits() }
}

fn v4(x: f32, y: f32, z: f32, w: f32) -> Vec4 {
    Vec4 { x: x.to_bits(), y: y.to_bits(), z: z.to_bits(), w: w.to_bits() }
}

fn quat(x: f32, y: f32, z: f32, w: f32) -> Quat {
    Quat { x: x.to_bits(), y: y.to_bits(), z: z.to_bits(), w: w.to_bits() }
}

fn triangle_primitive(material: Option<usize>) -> GltfPrimitive {
    GltfPrimitive {
        material,
        indices: Some(vec![0, 1, 2]),
        positions: Some(vec![v3(0.0, 0.0, 0.0), v3(1.0, 0.0, 0.0), v3(0.0, 1.0, 0.0)]),
        normals: Some(vec![v3(0.0, 0.0, 1.0); 3]),
        uvs: Some(vec![v2(0.0, 0.0), v2(1.0, 0.0), v2(0.0, 1.0)]),
        tangents: None,
    }
}

fn identity_node(primitives: Vec<GltfPrimitive>, children: Vec<GltfNode>) -> GltfNode {
    GltfNode {
        translation: v3(0.0, 0.0, 0.0),
        rotation: quat(0.0, 0.0, 0.0, 1.0),
        scale: v3(1.0, 1.0, 1.0),
        primitives,
        children,
    }
}

fn plain_material() -> GltfMaterial {
    GltfMaterial {
        base_color_factor: v4(1.0, 1.0, 1.0, 1.0),
        roughness_factor: 0.5f32.to_bits(),
        metallic_factor: 0.25f32.to_bits(),
        base_color_image: None,
        normal_image: None,
        metal_roughness_image: None,
    }
}

#[test]
fn loaded_scene_keeps_material_indices_in_range() {
    let mut gpu = Gpu::new();
    let doc = GltfDocument {
        scene_nodes: vec![identity_node(
            vec![triangle_primitive(Some(0)), triangle_primitive(None)],
            vec![],
        )],
        materials: vec![plain_material()],
    };
    let scene = Scene::from_gltf(&mut gpu, &doc, SceneUniformData::new()).unwrap();
    assert_eq!(scene.materials.len(), 1);
    assert_eq!(scene.meshes.len(), 2);
    for mesh in &scene.meshes {
        assert!(mesh.material_index < scene.materials.len());
    }
    assert_eq!(scene.lighting.data.count, 4);
}

#[test]
fn missing_normals_are_a_load_error() {
    let mut gpu = Gpu::new();
    let mut prim = triangle_primitive(Some(0));
    prim.normals = None;
    let doc = GltfDocument {
        scene_nodes: vec![identity_node(vec![prim], vec![])],
        materials: vec![plain_material()],
    };
    let r = Scene::from_gltf(&mut gpu, &doc, SceneUniformData::new());
    assert!(matches!(r, Err(SceneLoadError::MissingAttribute)));
}

#[test]
fn out_of_range_material_index_is_a_load_error() {
    let mut gpu = Gpu::new();
    let doc = GltfDocument {
        scene_nodes: vec![identity_node(vec![triangle_primitive(Some(3))], vec![])],
        materials: vec![plain_material()],
    };
    let r = Scene::from_gltf(&mut gpu, &doc, SceneUniformData::new());
    assert!(matches!(r, Err(SceneLoadError::MaterialIndexOutOfRange)));
}

#[test]
fn unsupported_image_layout_is_a_load_error() {
    let mut gpu = Gpu::new();
    let mut material = plain_material();
    material.base_color_image = Some(GltfImage {
        format: GltfImageFormat::Unsupported,
        width: 1,
        height: 1,
        pixels: vec![0, 0, 0, 0],
    });
    let doc = GltfDocument {
        scene_nodes: vec![identity_node(vec![triangle_primitive(Some(0))], vec![])],
        materials: vec![material],
    };
    let r = Scene::from_gltf(&mut gpu, &doc, SceneUniformData::new());
    assert!(matches!(r, Err(SceneLoadError::UnsupportedImageFormat)));
}

#[test]
fn rgb_images_expand_to_opaque_rgba() {
    let out = expand_rgb_to_rgba(&vec![1, 2, 3, 4, 5, 6]);
    assert_eq!(out, vec![1, 2, 3, 255, 4, 5, 6, 255]);
}

#[test]
fn rgb_material_image_is_accepted() {
    let mut gpu = Gpu::new();
    let mut material = plain_material();
    material.base_color_image = Some(GltfImage {
        format: GltfImageFormat::R8G8B8,
        width: 2,
        height: 1,
        pixels: vec![10, 20, 30, 40, 50, 60],
    });
    let doc = GltfDocument {
        scene_nodes: vec![identity_node(vec![triangle_primitive(Some(0))], vec![])],
        materials: vec![material],
    };
    let scene = Scene::from_gltf(&mut gpu, &doc, SceneUniformData::new()).unwrap();
    assert_eq!(scene.materials[0].diffuse_texture.width, 2);
    assert_eq!(scene.materials[0].diffuse_texture.height, 1);
}

/// Replicates the loader's handedness fix on the way into `glam`.
fn expected_local(translation: [f32; 3], rotation: [f32; 4], scale: [f32; 3]) -> glam::Mat4 {
    glam::Mat4::from_scale_rotation_translation(
        glam::Vec3::from_array(scale),
        glam::Quat::from_array([rotation[0], rotation[1], -rotation[2], -rotation[3]]),
        glam::Vec3::new(translation[0], translation[1], -translation[2]),
    )
}

fn mat_to_floats(m: &Mat4) -> [f32; 16] {
    let mut out = [0.0f32; 16];
    for (i, bits) in m.e.iter().enumerate() {
        out[i] = f32::from_bits(*bits);
    }
    out
}

#[test]
fn child_world_transform_is_parent_times_local() {
    let mut gpu = Gpu::new();
    let child = GltfNode {
        translation: v3(0.5, -1.0, 2.0),
        rotation: quat(0.0, 0.3826834, 0.0, 0.9238795),
        scale: v3(2.0, 2.0, 2.0),
        primitives: vec![triangle_primitive(Some(0))],
        children: vec![],
    };
    let parent = GltfNode {
        translation: v3(1.0, 2.0, 3.0),
        rotation: quat(0.0, 0.0, 0.0, 1.0),
        scale: v3(1.0, 1.0, 1.0),
        primitives: vec![triangle_primitive(Some(0))],
        children: vec![child],
    };
    let meshes = Scene::load_mesh(&mut gpu, &parent, mat4_identity(), 1).unwrap();
    assert_eq!(meshes.len(), 2);

    let p = expected_local([1.0, 2.0, 3.0], [0.0, 0.0, 0.0, 1.0], [1.0, 1.0, 1.0]);
    let c = expected_local([0.5, -1.0, 2.0], [0.0, 0.3826834, 0.0, 0.9238795], [2.0, 2.0, 2.0]);
    let expected_parent = glam::Mat4::IDENTITY * p;
    let expected_child = expected_parent * c;

    let got_parent = mat_to_floats(&meshes[0].uniform_data.world);
    let got_child = mat_to_floats(&meshes[1].uniform_data.world);
    for (got, want) in got_parent.iter().zip(expected_parent.to_cols_array().iter()) {
        assert!((got - want).abs() < 1e-5);
    }
    for (got, want) in got_child.iter().zip(expected_child.to_cols_array().iter()) {
        assert!((got - want).abs() < 1e-5);
    }
}

#[test]
fn vertices_are_interleaved_flipped_and_serialized() {
    let mut gpu = Gpu::new();
    let prim = GltfPrimitive {
        material: Some(0),
        indices: Some(vec![0]),
        positions: Some(vec![v3(1.0, 2.0, 3.0)]),
        normals: Some(vec![v3(0.0, 1.0, 0.5)]),
        uvs: Some(vec![v2(0.25, 0.75)]),
        tangents: None,
    };
    let node = identity_node(vec![prim], vec![]);
    let meshes = Scene::load_mesh(&mut gpu, &node, mat4_identity(), 1).unwrap();
    let mesh = &meshes[0];
    assert_eq!(mesh.vertex_count, 1);
    assert_eq!(mesh.index_count, 1);
    assert_eq!(mesh.vertex_buffer.contents.len() as u64, VERTEX_ATTRIBUTES_SIZE);

    let mut expected: Vec<u8> = Vec::new();
    for value in [1.0f32, 2.0, -3.0, 0.0, 1.0, -0.5, 0.25, 0.75, 0.0, 0.0, 0.0] {
        expected.extend_from_slice(&value.to_bits().to_le_bytes());
    }
    assert_eq!(mesh.vertex_buffer.contents, expected);
    assert_eq!(mesh.index_buffer.contents, vec![0, 0, 0, 0]);
}

#[test]
fn interleaving_stops_at_the_shortest_channel() {
    let mut gpu = Gpu::new();
    let prim = GltfPrimitive {
        material: Some(0),
        indices: Some(vec![0, 1]),
        positions: Some(vec![v3(0.0, 0.0, 0.0), v3(1.0, 0.0, 0.0), v3(2.0, 0.0, 0.0)]),
        normals: Some(vec![v3(0.0, 1.0, 0.0), v3(0.0, 1.0, 0.0)]),
        uvs: Some(vec![v2(0.0, 0.0), v2(1.0, 1.0), v2(0.5, 0.5)]),
        tangents: None,
    };
    let node = identity_node(vec![prim], vec![]);
    let meshes = Scene::load_mesh(&mut gpu, &node, mat4_identity(), 1).unwrap();
    assert_eq!(meshes[0].vertex_count, 2);
}

#[test]
fn empty_scene_still_carries_uniforms() {
    let mut gpu = Gpu::new();
    let scene = Scene::new(&mut gpu, SceneUniformData::new());
    assert_eq!(scene.meshes.len(), 0);
    assert_eq!(scene.materials.len(), 0);
    assert_eq!(scene.lighting.data.count, 4);
}

#[test]
fn vertex_layout_matches_the_interleaved_struct() {
    let layout = VertexAttributes::buffer_layout();
    assert_eq!(layout.array_stride, 44);
    let offsets: Vec<u64> = layout.attributes.iter().map(|a| a.offset).collect();
    assert_eq!(offsets, vec![0, 12, 24, 32]);
    let locations: Vec<u32> = layout.attributes.iter().map(|a| a.shader_location).collect();
    assert_eq!(locations, vec![0, 1, 2, 3]);
}

#[test]
fn document_limit_check_accepts_ordinary_documents() {
    let doc = GltfDocument {
        scene_nodes: vec![identity_node(vec![triangle_primitive(Some(0))], vec![])],
        materials: vec![plain_material()],
    };
    assert!(Scene::document_within_limits(&doc));
}

#[test]
fn document_limit_check_rejects_inconsistent_images() {
    let mut material = plain_material();
    material.base_color_image = Some(GltfImage {
        format: GltfImageFormat::R8G8B8A8,
        width: 2,
        height: 2,
        // 2x2 RGBA needs 16 bytes; this buffer disagrees with the extent.
        pixels: vec![0u8; 12],
    });
    let doc = GltfDocument { scene_nodes: vec![], materials: vec![material] };
    assert!(!Scene::document_within_limits(&doc));
}

#[test]
fn loaded_meshes_carry_their_source_counts() {
    let mut gpu = Gpu::new();
    let doc = GltfDocument {
        scene_nodes: vec![identity_node(vec![triangle_primitive(Some(0))], vec![])],
        materials: vec![plain_material()],
    };
    let scene = Scene::from_gltf(&mut gpu, &doc, SceneUniformData::new()).unwrap();
    assert_eq!(scene.meshes.len(), 1);
    assert_eq!(scene.meshes[0].vertex_count, 3);
    assert_eq!(scene.meshes[0].index_count, 3);
    assert_eq!(scene.meshes[0].vertex_buffer.contents.len() as u64, 3 * VERTEX_ATTRIBUTES_SIZE);
    assert_eq!(scene.meshes[0].index_buffer.contents.len(), 12);
}

#[test]
fn material_fallback_textures_are_single_texels() {
    let mut gpu = Gpu::new();
    let doc = GltfDocument {
        scene_nodes: vec![identity_node(vec![triangle_primitive(Some(0))], vec![])],
        materials: vec![plain_material()],
    };
    let scene = Scene::from_gltf(&mut gpu, &doc, SceneUniformData::new()).unwrap();
    let material = &scene.materials[0];
    assert_eq!(material.diffuse_texture.format, TextureFormat::Rgba8UnormSrgb);
    assert_eq!(material.normal_texture.format, TextureFormat::Rgba8Unorm);
    assert_eq!(material.metal_roughness_texture.format, TextureFormat::Rgba8Unorm);
    for t in [
        &material.diffuse_texture,
        &material.normal_texture,
        &material.metal_roughness_texture,
    ] {
        assert_eq!((t.width, t.height), (1, 1));
    }
}

#[test]
fn fallback_texels_are_carried_for_upload() {
    let mut gpu = Gpu::new();
    let doc = GltfDocument {
        scene_nodes: vec![identity_node(vec![triangle_primitive(Some(0))], vec![])],
        materials: vec![plain_material()],
    };
    let scene = Scene::from_gltf(&mut gpu, &doc, SceneUniformData::new()).unwrap();
    let material = &scene.materials[0];
    assert_eq!(material.diffuse_texture.contents, vec![255, 255, 255, 255]);
    assert_eq!(material.normal_texture.contents, vec![128, 128, 255, 255]);
    assert_eq!(material.metal_roughness_texture.contents, vec![255, 128, 128, 255]);
}

#[test]
fn rgb_image_texels_are_expanded_and_carried() {
    let mut gpu = Gpu::new();
    let mut material = plain_material();
    material.base_color_image = Some(GltfImage {
        format: GltfImageFormat::R8G8B8,
        width: 2,
        height: 1,
        pixels: vec![10, 20, 30, 40, 50, 60],
    });
    let doc = GltfDocument {
        scene_nodes: vec![identity_node(vec![triangle_primitive(Some(0))], vec![])],
        materials: vec![material],
    };
    let scene = Scene::from_gltf(&mut gpu, &doc, SceneUniformData::new()).unwrap();
    assert_eq!(
        scene.materials[0].diffuse_texture.contents,
        vec![10, 20, 30, 255, 40, 50, 60, 255]
    );
}

#[test]
fn releasing_a_scene_frees_every_material_texture() {
    let mut gpu = Gpu::new();
    let doc = GltfDocument {
        scene_nodes: vec![identity_node(vec![triangle_primitive(Some(0))], vec![])],
        materials: vec![plain_material(), plain_material()],
    };
    let scene = Scene::from_gltf(&mut gpu, &doc, SceneUniformData::new()).unwrap();
    assert_eq!(gpu.live_texture_count(), 6);
    scene.release(&mut gpu);
    assert_eq!(gpu.live_texture_count(), 0);
}

#[test]
fn failed_load_releases_the_partially_built_materials() {
    let mut gpu = Gpu::new();
    let mut bad = plain_material();
    bad.normal_image = Some(GltfImage {
        format: GltfImageFormat::Unsupported,
        width: 1,
        height: 1,
        pixels: vec![0, 0, 0, 0],
    });
    let doc = GltfDocument {
        scene_nodes: vec![identity_node(vec![triangle_primitive(Some(0))], vec![])],
        // A good material first, then one whose normal map is refused
        // after its albedo texture was already created.
        materials: vec![plain_material(), bad],
    };
    let r = Scene::from_gltf(&mut gpu, &doc, SceneUniformData::new());
    assert!(matches!(r, Err(SceneLoadError::UnsupportedImageFormat)));
    assert_eq!(gpu.live_texture_count(), 0);
}
