//! Binding-order checks: each pass's bind-group layout, inspected entry by
//! entry against the resource list its shader expects.

use oceanman::gbuffers::GBuffers;
use oceanman::gpu::Gpu;
use oceanman::passes::compose::IBL;
use oceanman::passes::fxaa::{Fxaa, FxaaParams};
use oceanman::passes::skybox::Skybox;
use oceanman::passes::ssao::SSAO;
use oceanman::passes::tonemapping::Tonemapping;
use oceanman::resource_manager::{
    BindGroupDesc, BindGroupLayoutDesc, BindingResource, BindingType, ResourceManager, SamplerType,
    ShaderStages, TextureSampleType, TextureViewDimension,
};
use oceanman::resources::{
    LightingUniform, Material, Mesh, SceneUniform, LIGHTING_UNIFORM_SIZE, MESH_UNIFORM_SIZE,
    SCENE_UNIFORM_SIZE,
};
use oceanman::uniform::Uniform;

#[test]
fn gbuffers_layout_is_depth_then_five_float_textures() {
    let mut gpu = Gpu::new();
    let layout = GBuffers::bind_group_layout(&mut gpu);
    assert_eq!(layout.entries.len(), 6);
    for (i, e) in layout.entries.iter().enumerate() {
        assert_eq!(e.binding, i as u32);
        assert_eq!(e.visibility, ShaderStages::Fragment);
        let expected = if i == 0 { TextureSampleType::Depth } else { TextureSampleType::Float };
        assert!(matches!(
            e.ty,
            BindingType::Texture { sample_type, view_dimension: TextureViewDimension::D2 }
                if sample_type == expected
        ));
    }
}

#[test]
fn material_layout_interleaves_textures_and_samplers_after_the_buffer() {
    let mut gpu = Gpu::new();
    let layout = Material::bind_group_layout(&mut gpu);
    assert_eq!(layout.entries.len(), 7);
    assert!(matches!(layout.entries[0].ty, BindingType::Buffer { min_binding_size: None }));
    assert_eq!(layout.entries[0].visibility, ShaderStages::All);
    for i in [1usize, 3, 5] {
        assert!(matches!(layout.entries[i].ty, BindingType::Texture { .. }));
        assert_eq!(layout.entries[i].binding, i as u32);
    }
    for i in [2usize, 4, 6] {
        assert!(matches!(layout.entries[i].ty, BindingType::Sampler(SamplerType::Filtering)));
        assert_eq!(layout.entries[i].binding, i as u32);
    }
}

#[test]
fn uniform_layouts_carry_their_byte_sizes() {
    let mut gpu = Gpu::new();
    let scene = SceneUniform::bind_group_layout(&mut gpu);
    assert_eq!(scene.entries.len(), 2);
    for e in &scene.entries {
        assert!(matches!(
            e.ty,
            BindingType::Buffer { min_binding_size: Some(n) } if n == SCENE_UNIFORM_SIZE
        ));
    }
    let lighting = LightingUniform::bind_group_layout(&mut gpu);
    assert!(matches!(
        lighting.entries[0].ty,
        BindingType::Buffer { min_binding_size: Some(n) } if n == LIGHTING_UNIFORM_SIZE
    ));
    let mesh = Mesh::bind_group_layout(&mut gpu);
    assert!(matches!(
        mesh.entries[0].ty,
        BindingType::Buffer { min_binding_size: Some(n) } if n == MESH_UNIFORM_SIZE
    ));
    let fxaa_uniform = Uniform::<FxaaParams>::bind_group_layout(&mut gpu);
    assert!(matches!(
        fxaa_uniform.entries[0].ty,
        BindingType::Buffer { min_binding_size: Some(32) }
    ));
}

#[test]
fn ssao_layout_reads_depth_normal_kernel_noise() {
    let mut gpu = Gpu::new();
    let layout = SSAO::textures_bind_group_layout(&mut gpu);
    assert_eq!(layout.entries.len(), 4);
    assert!(matches!(
        layout.entries[0].ty,
        BindingType::Texture { sample_type: TextureSampleType::Depth, .. }
    ));
    for i in 1..4 {
        assert!(matches!(
            layout.entries[i].ty,
            BindingType::Texture { sample_type: TextureSampleType::Float, .. }
        ));
    }
}

#[test]
fn ibl_layout_is_lookup_two_cubemaps_and_a_sampler() {
    let mut gpu = Gpu::new();
    let layout = IBL::bind_group_layout(&mut gpu);
    assert_eq!(layout.entries.len(), 4);
    assert!(matches!(
        layout.entries[0].ty,
        BindingType::Texture { view_dimension: TextureViewDimension::D2, .. }
    ));
    assert!(matches!(
        layout.entries[1].ty,
        BindingType::Texture { view_dimension: TextureViewDimension::Cube, .. }
    ));
    assert!(matches!(
        layout.entries[2].ty,
        BindingType::Texture { view_dimension: TextureViewDimension::Cube, .. }
    ));
    assert!(matches!(layout.entries[3].ty, BindingType::Sampler(SamplerType::Filtering)));
}

#[test]
fn skybox_tonemapping_and_fxaa_layouts() {
    let mut gpu = Gpu::new();
    let skybox = Skybox::cubemap_bind_group_layout(&mut gpu);
    assert_eq!(skybox.entries.len(), 2);
    assert!(matches!(
        skybox.entries[0].ty,
        BindingType::Texture { view_dimension: TextureViewDimension::Cube, .. }
    ));
    assert!(matches!(skybox.entries[1].ty, BindingType::Sampler(SamplerType::Filtering)));

    let tonemapping = Tonemapping::texture_bind_group_layout(&mut gpu);
    assert_eq!(tonemapping.entries.len(), 1);
    assert!(matches!(tonemapping.entries[0].ty, BindingType::Texture { .. }));

    let fxaa = Fxaa::bind_group_layout(&mut gpu);
    assert_eq!(fxaa.entries.len(), 3);
    assert!(matches!(fxaa.entries[0].ty, BindingType::Buffer { .. }));
    assert!(matches!(fxaa.entries[1].ty, BindingType::Texture { .. }));
    assert!(matches!(fxaa.entries[2].ty, BindingType::Sampler(SamplerType::Filtering)));
}

#[test]
fn layout_expansion_numbers_bindings_consecutively() {
    let mut gpu = Gpu::new();
    let rm = ResourceManager::new();
    let layout = rm.create_bind_group_layout(
        &mut gpu,
        &BindGroupLayoutDesc {
            debug: None,
            visibility: ShaderStages::Fragment,
            textures: vec![
                (TextureSampleType::Depth, TextureViewDimension::D2),
                (TextureSampleType::Float, TextureViewDimension::Cube),
            ],
            buffers: vec![0, 64],
            samplers: vec![SamplerType::Comparison],
        },
    );
    assert_eq!(layout.entries.len(), 5);
    for (i, e) in layout.entries.iter().enumerate() {
        assert_eq!(e.binding, i as u32);
    }
    assert!(matches!(
        layout.entries[0].ty,
        BindingType::Texture { sample_type: TextureSampleType::Depth, .. }
    ));
    assert!(matches!(
        layout.entries[1].ty,
        BindingType::Texture { view_dimension: TextureViewDimension::Cube, .. }
    ));
    // A zero minimum size means no constraint.
    assert!(matches!(layout.entries[2].ty, BindingType::Buffer { min_binding_size: None }));
    assert!(matches!(layout.entries[3].ty, BindingType::Buffer { min_binding_size: Some(64) }));
    assert!(matches!(layout.entries[4].ty, BindingType::Sampler(SamplerType::Comparison)));
}

#[test]
fn bind_group_fills_slots_in_layout_order() {
    let mut gpu = Gpu::new();
    let rm = ResourceManager::new();
    let layout = rm.create_bind_group_layout(
        &mut gpu,
        &BindGroupLayoutDesc {
            debug: None,
            visibility: ShaderStages::All,
            textures: vec![(TextureSampleType::Float, TextureViewDimension::D2)],
            buffers: vec![16],
            samplers: vec![SamplerType::Filtering],
        },
    );
    let group = rm.create_bind_group(
        &mut gpu,
        BindGroupDesc {
            debug: None,
            layout,
            textures: vec![101],
            buffers: vec![202],
            samplers: vec![303],
        },
    );
    assert_eq!(group.entries.len(), 3);
    assert_eq!(group.entries[0].resource, BindingResource::TextureView(101));
    assert_eq!(group.entries[1].resource, BindingResource::Buffer(202));
    assert_eq!(group.entries[2].resource, BindingResource::Sampler(303));
    assert_eq!(group.entries[2].binding, 2);
}
