//! Render-pipeline descriptions.
//!
//! A pipeline is immutable once built: its shader module, its bind-group
//! layouts in group order, its vertex-buffer layouts, its color targets and
//! its depth-stencil state. The descriptor stays beside the handle so every
//! pass can state — and the binding-order law can check — exactly which
//! layouts its pipeline was built against. The two free functions build the
//! forward-path pipelines: a depth-only shadow pipeline and a full mesh
//! pipeline.

use vstd::prelude::*;

use crate::common::{spec_vertex_attribute_descs, VertexAttributes, VertexBufferLayoutDesc,
    VERTEX_ATTRIBUTES_SIZE};
use crate::gpu::Gpu;
use crate::resource_manager::{BindGroupLayout, CompareFunction};
use crate::resources::{
    spec_lighting_uniform_layout_entries, spec_material_layout_entries,
    spec_scene_uniform_layout_entries, LightingUniform, Material, Mesh, MeshUniformData,
    SceneUniform,
};
use crate::texture::TextureFormat;
use crate::uniform::spec_uniform_layout_entry;

verus! {

/// A validated shader module.
#[derive(Clone, Copy, PartialEq, Eq, Structural, Debug)]
pub struct ShaderModule {
    pub id: u64,
}

/// Blend state of a color target; the renderer only ever replaces.
#[derive(Clone, Copy, PartialEq, Eq, Structural, Debug)]
pub enum BlendStateKind {
    Replace,
}

/// One color target of a pipeline.
#[derive(Clone, Copy, PartialEq, Eq, Structural, Debug)]
pub struct ColorTargetDesc {
    pub format: TextureFormat,
    pub blend: Option<BlendStateKind>,
}

/// Depth-stencil state of a pipeline.
#[derive(Clone, Copy, PartialEq, Eq, Structural, Debug)]
pub struct DepthStencilDesc {
    pub format: TextureFormat,
    pub depth_write_enabled: bool,
    pub depth_compare: CompareFunction,
}

/// Everything a pipeline is built from.
pub struct RenderPipelineDesc {
    pub label: Option<&'static str>,
    pub bind_group_layouts: Vec<BindGroupLayout>,
    pub shader: u64,
    pub vertex_buffers: Vec<VertexBufferLayoutDesc>,
    pub color_targets: Vec<ColorTargetDesc>,
    pub depth_stencil: Option<DepthStencilDesc>,
}

/// A live pipeline and its descriptor.
pub struct RenderPipeline {
    pub id: u64,
    pub desc: RenderPipelineDesc,
}

/// Create a pipeline from its descriptor.
pub fn create_render_pipeline(gpu: &mut Gpu, desc: RenderPipelineDesc) -> (p: RenderPipeline)
    requires
        old(gpu).wf(),
        old(gpu).spec_next_id() < u64::MAX,
    ensures
        final(gpu).wf(),
        final(gpu).spec_live_textures() == old(gpu).spec_live_textures(),
        final(gpu).alive() == old(gpu).alive(),
        final(gpu).spec_next_id() == old(gpu).spec_next_id() + 1,
        p.desc == desc,
{
    let id = gpu.fresh_id();
    RenderPipeline { id, desc }
}

/// Depth-only pipeline for rendering the scene from a light: scene and
/// mesh bind groups, the interleaved vertex layout, no color target, depth
/// test `Less` with writes on.
pub fn shadow_pipeline(gpu: &mut Gpu, shader: &ShaderModule) -> (p: RenderPipeline)
    requires
        old(gpu).wf(),
        old(gpu).spec_next_id() + 3 < u64::MAX,
    ensures
        final(gpu).wf(),
        final(gpu).spec_live_textures() == old(gpu).spec_live_textures(),
        final(gpu).alive() == old(gpu).alive(),
        old(gpu).spec_next_id() <= final(gpu).spec_next_id() <= old(gpu).spec_next_id() + 3,
        p.desc.shader == shader.id,
        p.desc.bind_group_layouts@.len() == 2,
        p.desc.bind_group_layouts@[0].entries@ == spec_scene_uniform_layout_entries(),
        p.desc.bind_group_layouts@[1].entries@ == seq![
            spec_uniform_layout_entry::<MeshUniformData>(0),
        ],
        p.desc.vertex_buffers@.len() == 1,
        p.desc.vertex_buffers@[0].array_stride == VERTEX_ATTRIBUTES_SIZE,
        p.desc.vertex_buffers@[0].attributes@ == spec_vertex_attribute_descs(),
        p.desc.color_targets@.len() == 0,
        p.desc.depth_stencil == Some(
            DepthStencilDesc {
                format: TextureFormat::Depth32Float,
                depth_write_enabled: true,
                depth_compare: CompareFunction::Less,
            },
        ),
{
    let scene_layout = SceneUniform::bind_group_layout(gpu);
    let mesh_layout = Mesh::bind_group_layout(gpu);
    let mut bind_group_layouts: Vec<BindGroupLayout> = Vec::new();
    bind_group_layouts.push(scene_layout);
    bind_group_layouts.push(mesh_layout);
    let mut vertex_buffers: Vec<VertexBufferLayoutDesc> = Vec::new();
    vertex_buffers.push(VertexAttributes::buffer_layout());
    create_render_pipeline(
        gpu,
        RenderPipelineDesc {
            label: Some("Shadow pipeline"),
            bind_group_layouts,
            shader: shader.id,
            vertex_buffers,
            color_targets: Vec::new(),
            depth_stencil: Some(
                DepthStencilDesc {
                    format: TextureFormat::Depth32Float,
                    depth_write_enabled: true,
                    depth_compare: CompareFunction::Less,
                },
            ),
        },
    )
}

/// Forward mesh pipeline: scene, lighting, material and mesh bind groups,
/// the interleaved vertex layout, one surface-format target with replace
/// blending, depth test `Less` with writes on.
pub fn mesh_pipeline(gpu: &mut Gpu, surface_format: TextureFormat, shader: &ShaderModule) -> (p:
    RenderPipeline)
    requires
        old(gpu).wf(),
        old(gpu).spec_next_id() + 5 < u64::MAX,
    ensures
        final(gpu).wf(),
        final(gpu).spec_live_textures() == old(gpu).spec_live_textures(),
        final(gpu).alive() == old(gpu).alive(),
        old(gpu).spec_next_id() <= final(gpu).spec_next_id() <= old(gpu).spec_next_id() + 5,
        p.desc.shader == shader.id,
        p.desc.bind_group_layouts@.len() == 4,
        p.desc.bind_group_layouts@[0].entries@ == spec_scene_uniform_layout_entries(),
        p.desc.bind_group_layouts@[1].entries@ == spec_lighting_uniform_layout_entries(),
        p.desc.bind_group_layouts@[2].entries@ == spec_material_layout_entries(),
        p.desc.bind_group_layouts@[3].entries@ == seq![
            spec_uniform_layout_entry::<MeshUniformData>(0),
        ],
        p.desc.vertex_buffers@.len() == 1,
        p.desc.vertex_buffers@[0].array_stride == VERTEX_ATTRIBUTES_SIZE,
        p.desc.vertex_buffers@[0].attributes@ == spec_vertex_attribute_descs(),
        p.desc.color_targets@ == seq![
            ColorTargetDesc { format: surface_format, blend: Some(BlendStateKind::Replace) },
        ],
        p.desc.depth_stencil == Some(
            DepthStencilDesc {
                format: TextureFormat::Depth32Float,
                depth_write_enabled: true,
                depth_compare: CompareFunction::Less,
            },
        ),
{
    let scene_layout = SceneUniform::bind_group_layout(gpu);
    let lighting_layout = LightingUniform::bind_group_layout(gpu);
    let material_layout = Material::bind_group_layout(gpu);
    let mesh_layout = Mesh::bind_group_layout(gpu);
    let mut bind_group_layouts: Vec<BindGroupLayout> = Vec::new();
    bind_group_layouts.push(scene_layout);
    bind_group_layouts.push(lighting_layout);
    bind_group_layouts.push(material_layout);
    bind_group_layouts.push(mesh_layout);
    let mut vertex_buffers: Vec<VertexBufferLayoutDesc> = Vec::new();
    vertex_buffers.push(VertexAttributes::buffer_layout());
    let mut color_targets: Vec<ColorTargetDesc> = Vec::new();
    color_targets.push(ColorTargetDesc { format: surface_format, blend: Some(BlendStateKind::Replace) });
    assert(color_targets@ =~= seq![
        ColorTargetDesc { format: surface_format, blend: Some(BlendStateKind::Replace) },
    ]);
    create_render_pipeline(
        gpu,
        RenderPipelineDesc {
            label: Some("Mesh pipeline"),
            bind_group_layouts,
            shader: shader.id,
            vertex_buffers,
            color_targets,
            depth_stencil: Some(
                DepthStencilDesc {
                    format: TextureFormat::Depth32Float,
                    depth_write_enabled: true,
                    depth_compare: CompareFunction::Less,
                },
            ),
        },
    )
}

} // verus!
