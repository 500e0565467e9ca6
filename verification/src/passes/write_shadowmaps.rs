//! The shadow pass: scene depth from the light's point of view.
//!
//! Depth-only — vertex stage only, depth test `Less` with writes on. Per
//! frame it clears the shadow map to far depth (1.0) and draws every mesh
//! with just its buffers and transform bind set; no material binding is
//! needed.

use vstd::prelude::*;

use crate::gpu::Gpu;
use crate::loader::{spec_meshes_materials_in_range, Scene};
use crate::mat4::F32_ONE_BITS;
use crate::passes::{
    scene_mesh_draws, spec_scene_draws, CommandEncoder, DepthAttachment, LoadOp, PassKind,
    PassRecord,
};
use crate::pipelines::{
    create_render_pipeline, DepthStencilDesc, RenderPipeline, RenderPipelineDesc, ShaderModule,
};
use crate::common::{spec_vertex_attribute_descs, VertexAttributes, VertexBufferLayoutDesc,
    VERTEX_ATTRIBUTES_SIZE};
use crate::resource_manager::{BindGroupLayout, CompareFunction};
use crate::resources::{Mesh, MeshUniformData};
use crate::shadowmap::{ShadowData, Shadows};
use crate::texture::TextureFormat;
use crate::uniform::{spec_uniform_layout_entry, Uniform};

verus! {

/// The pass object: one depth-only pipeline.
pub struct WriteShadowmaps {
    pub pipeline: RenderPipeline,
}

/// The pipeline the shadow shader expects: the light uniform at group 0,
/// the mesh transform at group 1, the interleaved vertex layout, no color
/// target, depth `Less` with writes on.
pub open spec fn spec_shadow_pipeline_ok(p: RenderPipeline, shader: u64) -> bool {
    &&& p.desc.shader == shader
    &&& p.desc.bind_group_layouts@.len() == 2
    &&& p.desc.bind_group_layouts@[0].entries@ == seq![spec_uniform_layout_entry::<ShadowData>(0)]
    &&& p.desc.bind_group_layouts@[1].entries@ == seq![
        spec_uniform_layout_entry::<MeshUniformData>(0),
    ]
    &&& p.desc.vertex_buffers@.len() == 1
    &&& p.desc.vertex_buffers@[0].array_stride == VERTEX_ATTRIBUTES_SIZE
    &&& p.desc.vertex_buffers@[0].attributes@ == spec_vertex_attribute_descs()
    &&& p.desc.color_targets@.len() == 0
    &&& p.desc.depth_stencil == Some(
        DepthStencilDesc {
            format: TextureFormat::Depth32Float,
            depth_write_enabled: true,
            depth_compare: CompareFunction::Less,
        },
    )
}

/// What one encoded shadow pass does: clear the shadow map to far depth
/// and draw every mesh without material bindings.
pub open spec fn spec_shadow_pass_record(
    rec: PassRecord,
    scene: Scene,
    shadows: Shadows,
    pipeline: u64,
) -> bool {
    &&& rec.kind == PassKind::WriteShadowmaps
    &&& rec.color_attachments@.len() == 0
    &&& rec.depth_attachment == Some(
        DepthAttachment { view: shadows.shadowmap.texture.view, load: LoadOp::Clear(F32_ONE_BITS) },
    )
    &&& rec.pipeline == pipeline
    &&& rec.bind_groups@ == seq![shadows.uniform.bind_group.id]
    &&& rec.reads@.len() == 0
    &&& rec.mesh_draws@ == spec_scene_draws(scene.meshes@, scene.materials@, false)
    &&& rec.fullscreen_vertices == 0
}

impl WriteShadowmaps {
    pub fn new(gpu: &mut Gpu, shader: &ShaderModule) -> (s: WriteShadowmaps)
        requires
            old(gpu).wf(),
            old(gpu).spec_next_id() + 3 < u64::MAX,
        ensures
            final(gpu).wf(),
            final(gpu).spec_live_textures() == old(gpu).spec_live_textures(),
            final(gpu).alive() == old(gpu).alive(),
            old(gpu).spec_next_id() <= final(gpu).spec_next_id() <= old(gpu).spec_next_id() + 3,
            spec_shadow_pipeline_ok(s.pipeline, shader.id),
    {
        let pipeline = WriteShadowmaps::pipeline(gpu, shader);
        WriteShadowmaps { pipeline }
    }

    pub fn pipeline(gpu: &mut Gpu, shader: &ShaderModule) -> (p: RenderPipeline)
        requires
            old(gpu).wf(),
            old(gpu).spec_next_id() + 3 < u64::MAX,
        ensures
            final(gpu).wf(),
            final(gpu).spec_live_textures() == old(gpu).spec_live_textures(),
            final(gpu).alive() == old(gpu).alive(),
            old(gpu).spec_next_id() <= final(gpu).spec_next_id() <= old(gpu).spec_next_id() + 3,
            spec_shadow_pipeline_ok(p, shader.id),
    {
        let light_layout = Uniform::<ShadowData>::bind_group_layout(gpu);
        let mesh_layout = Mesh::bind_group_layout(gpu);
        let mut bind_group_layouts: Vec<BindGroupLayout> = Vec::new();
        bind_group_layouts.push(light_layout);
        bind_group_layouts.push(mesh_layout);
        let mut vertex_buffers: Vec<VertexBufferLayoutDesc> = Vec::new();
        vertex_buffers.push(VertexAttributes::buffer_layout());
        create_render_pipeline(
            gpu,
            RenderPipelineDesc {
                label: Some("Write shadowmaps pipeline"),
                bind_group_layouts,
                shader: shader.id,
                vertex_buffers,
                color_targets: Vec::new(),
                depth_stencil: Some(
                    DepthStencilDesc {
                        format: TextureFormat::Depth32Float,
                        depth_write_enabled: true,
                        depth_compare: CompareFunction::Less,
                    },
                ),
            },
        )
    }

    /// Encode the shadow pass into the frame's command buffer.
    pub fn pass(&self, scene: &Scene, shadows: &Shadows, encoder: &mut CommandEncoder)
        requires
            spec_meshes_materials_in_range(scene.meshes@, scene.materials@.len() as int),
            old(encoder).passes@.len() < usize::MAX,
        ensures
            final(encoder).passes@.len() == old(encoder).passes@.len() + 1,
            final(encoder).passes@.drop_last() == old(encoder).passes@,
            spec_shadow_pass_record(
                final(encoder).passes@.last(),
                *scene,
                *shadows,
                self.pipeline.id,
            ),
    {
        let mesh_draws = scene_mesh_draws(scene, false);
        let mut bind_groups: Vec<u64> = Vec::new();
        bind_groups.push(shadows.uniform.bind_group.id);
        assert(bind_groups@ =~= seq![shadows.uniform.bind_group.id]);
        let rec = PassRecord {
            kind: PassKind::WriteShadowmaps,
            color_attachments: Vec::new(),
            depth_attachment: Some(
                DepthAttachment {
                    view: shadows.shadowmap.texture.view,
                    load: LoadOp::Clear(F32_ONE_BITS),
                },
            ),
            pipeline: self.pipeline.id,
            bind_groups,
            reads: Vec::new(),
            mesh_draws,
            fullscreen_vertices: 0,
        };
        encoder.passes.push(rec);
        assert(encoder.passes@.drop_last() =~= old(encoder).passes@);
    }
}

} // verus!
