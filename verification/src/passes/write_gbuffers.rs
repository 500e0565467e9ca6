//! The geometry pass: rasterize every mesh's surface attributes into the
//! G-buffer targets.
//!
//! One pipeline with three simultaneous color outputs plus depth. The pass
//! clears all targets, binds the camera uniform once, and issues one
//! indexed draw per mesh with that mesh's material and transform bind sets.
//! Meshes may be drawn in any order: opaque surfaces write disjoint
//! depth-tested fragments, so order affects only early-depth performance,
//! never the result.

use vstd::prelude::*;

use crate::common::{spec_vertex_attribute_descs, VertexAttributes, VertexBufferLayoutDesc,
    VERTEX_ATTRIBUTES_SIZE};
use crate::gbuffers::GBuffers;
use crate::gpu::Gpu;
use crate::loader::{spec_meshes_materials_in_range, Scene};
use crate::mat4::F32_ONE_BITS;
use crate::passes::{
    scene_mesh_draws, spec_scene_draws, ColorAttachment, CommandEncoder, DepthAttachment, LoadOp,
    PassKind, PassRecord, ReloadableShaders, SurfaceConfig,
};
use crate::pipelines::{
    create_render_pipeline, BlendStateKind, ColorTargetDesc, DepthStencilDesc, RenderPipeline,
    RenderPipelineDesc, ShaderModule,
};
use crate::resource_manager::{BindGroupLayout, CompareFunction};
use crate::resources::{
    spec_material_layout_entries, spec_scene_uniform_layout_entries, Material, Mesh,
    MeshUniformData, SceneUniform,
};
use crate::texture::TextureFormat;
use crate::uniform::spec_uniform_layout_entry;

verus! {

/// The pass object: one multi-target pipeline.
pub struct WriteGBuffers {
    pub pipeline: RenderPipeline,
}

/// The pipeline the geometry shader expects: scene uniform at group 0,
/// material at group 1, mesh transform at group 2; the interleaved vertex
/// layout; albedo, normal and material color targets with replace blending;
/// depth `Less` with writes on.
pub open spec fn spec_write_gbuffers_pipeline_ok(p: RenderPipeline, shader: u64) -> bool {
    &&& p.desc.shader == shader
    &&& p.desc.bind_group_layouts@.len() == 3
    &&& p.desc.bind_group_layouts@[0].entries@ == spec_scene_uniform_layout_entries()
    &&& p.desc.bind_group_layouts@[1].entries@ == spec_material_layout_entries()
    &&& p.desc.bind_group_layouts@[2].entries@ == seq![
        spec_uniform_layout_entry::<MeshUniformData>(0),
    ]
    &&& p.desc.vertex_buffers@.len() == 1
    &&& p.desc.vertex_buffers@[0].array_stride == VERTEX_ATTRIBUTES_SIZE
    &&& p.desc.vertex_buffers@[0].attributes@ == spec_vertex_attribute_descs()
    &&& p.desc.color_targets@ == seq![
        ColorTargetDesc {
            format: TextureFormat::Rgba8UnormSrgb,
            blend: Some(BlendStateKind::Replace),
        },
        ColorTargetDesc { format: TextureFormat::Rgba8Unorm, blend: Some(BlendStateKind::Replace) },
        ColorTargetDesc { format: TextureFormat::Rgba8Unorm, blend: Some(BlendStateKind::Replace) },
    ]
    &&& p.desc.depth_stencil == Some(
        DepthStencilDesc {
            format: TextureFormat::Depth32Float,
            depth_write_enabled: true,
            depth_compare: CompareFunction::Less,
        },
    )
}

/// What one encoded geometry pass does: clear the three color targets and
/// the depth target, bind the camera once, and draw every mesh with its
/// material and transform sets.
pub open spec fn spec_write_gbuffers_pass_record(
    rec: PassRecord,
    scene: Scene,
    gbuffers: GBuffers,
    pipeline: u64,
) -> bool {
    &&& rec.kind == PassKind::WriteGBuffers
    &&& rec.color_attachments@ == seq![
        ColorAttachment { view: gbuffers.albedo.view, load: LoadOp::Clear(0u32) },
        ColorAttachment { view: gbuffers.normal.view, load: LoadOp::Clear(0u32) },
        ColorAttachment { view: gbuffers.material.view, load: LoadOp::Clear(0u32) },
    ]
    &&& rec.depth_attachment == Some(
        DepthAttachment { view: gbuffers.depth.view, load: LoadOp::Clear(F32_ONE_BITS) },
    )
    &&& rec.pipeline == pipeline
    &&& rec.bind_groups@ == seq![scene.scene.uniform_bind_group.id]
    &&& rec.reads@.len() == 0
    &&& rec.mesh_draws@ == spec_scene_draws(scene.meshes@, scene.materials@, true)
    &&& rec.fullscreen_vertices == 0
}

impl WriteGBuffers {
    pub fn new(gpu: &mut Gpu, shader: &ShaderModule) -> (s: WriteGBuffers)
        requires
            old(gpu).wf(),
            old(gpu).spec_next_id() + 4 < u64::MAX,
        ensures
            final(gpu).wf(),
            final(gpu).spec_live_textures() == old(gpu).spec_live_textures(),
            final(gpu).alive() == old(gpu).alive(),
            old(gpu).spec_next_id() <= final(gpu).spec_next_id() <= old(gpu).spec_next_id() + 4,
            spec_write_gbuffers_pipeline_ok(s.pipeline, shader.id),
    {
        let pipeline = WriteGBuffers::pipeline(gpu, shader);
        WriteGBuffers { pipeline }
    }

    pub fn pipeline(gpu: &mut Gpu, shader: &ShaderModule) -> (p: RenderPipeline)
        requires
            old(gpu).wf(),
            old(gpu).spec_next_id() + 4 < u64::MAX,
        ensures
            final(gpu).wf(),
            final(gpu).spec_live_textures() == old(gpu).spec_live_textures(),
            final(gpu).alive() == old(gpu).alive(),
            old(gpu).spec_next_id() <= final(gpu).spec_next_id() <= old(gpu).spec_next_id() + 4,
            spec_write_gbuffers_pipeline_ok(p, shader.id),
    {
        let scene_layout = SceneUniform::bind_group_layout(gpu);
        let material_layout = Material::bind_group_layout(gpu);
        let mesh_layout = Mesh::bind_group_layout(gpu);
        let mut bind_group_layouts: Vec<BindGroupLayout> = Vec::new();
        bind_group_layouts.push(scene_layout);
        bind_group_layouts.push(material_layout);
        bind_group_layouts.push(mesh_layout);
        let mut vertex_buffers: Vec<VertexBufferLayoutDesc> = Vec::new();
        vertex_buffers.push(VertexAttributes::buffer_layout());
        let mut color_targets: Vec<ColorTargetDesc> = Vec::new();
        color_targets.push(
            ColorTargetDesc {
                format: TextureFormat::Rgba8UnormSrgb,
                blend: Some(BlendStateKind::Replace),
            },
        );
        color_targets.push(
            ColorTargetDesc {
                format: TextureFormat::Rgba8Unorm,
                blend: Some(BlendStateKind::Replace),
            },
        );
        color_targets.push(
            ColorTargetDesc {
                format: TextureFormat::Rgba8Unorm,
                blend: Some(BlendStateKind::Replace),
            },
        );
        assert(color_targets@ =~= seq![
            ColorTargetDesc {
                format: TextureFormat::Rgba8UnormSrgb,
                blend: Some(BlendStateKind::Replace),
            },
            ColorTargetDesc {
                format: TextureFormat::Rgba8Unorm,
                blend: Some(BlendStateKind::Replace),
            },
            ColorTargetDesc {
                format: TextureFormat::Rgba8Unorm,
                blend: Some(BlendStateKind::Replace),
            },
        ]);
        create_render_pipeline(
            gpu,
            RenderPipelineDesc {
                label: Some("Write gbuffers pipeline"),
                bind_group_layouts,
                shader: shader.id,
                vertex_buffers,
                color_targets,
                depth_stencil: Some(
                    DepthStencilDesc {
                        format: TextureFormat::Depth32Float,
                        depth_write_enabled: true,
                        depth_compare: CompareFunction::Less,
                    },
                ),
            },
        )
    }

    /// Encode the geometry pass into the frame's command buffer.
    pub fn pass(&self, scene: &Scene, gbuffers: &GBuffers, encoder: &mut CommandEncoder)
        requires
            spec_meshes_materials_in_range(scene.meshes@, scene.materials@.len() as int),
            old(encoder).passes@.len() < usize::MAX,
        ensures
            final(encoder).passes@.len() == old(encoder).passes@.len() + 1,
            final(encoder).passes@.drop_last() == old(encoder).passes@,
            spec_write_gbuffers_pass_record(
                final(encoder).passes@.last(),
                *scene,
                *gbuffers,
                self.pipeline.id,
            ),
    {
        let mesh_draws = scene_mesh_draws(scene, true);
        let mut color_attachments: Vec<ColorAttachment> = Vec::new();
        color_attachments.push(ColorAttachment { view: gbuffers.albedo.view, load: LoadOp::Clear(0) });
        color_attachments.push(ColorAttachment { view: gbuffers.normal.view, load: LoadOp::Clear(0) });
        color_attachments.push(
            ColorAttachment { view: gbuffers.material.view, load: LoadOp::Clear(0) },
        );
        assert(color_attachments@ =~= seq![
            ColorAttachment { view: gbuffers.albedo.view, load: LoadOp::Clear(0u32) },
            ColorAttachment { view: gbuffers.normal.view, load: LoadOp::Clear(0u32) },
            ColorAttachment { view: gbuffers.material.view, load: LoadOp::Clear(0u32) },
        ]);
        let mut bind_groups: Vec<u64> = Vec::new();
        bind_groups.push(scene.scene.uniform_bind_group.id);
        assert(bind_groups@ =~= seq![scene.scene.uniform_bind_group.id]);
        let rec = PassRecord {
            kind: PassKind::WriteGBuffers,
            color_attachments,
            depth_attachment: Some(
                DepthAttachment { view: gbuffers.depth.view, load: LoadOp::Clear(F32_ONE_BITS) },
            ),
            pipeline: self.pipeline.id,
            bind_groups,
            reads: Vec::new(),
            mesh_draws,
            fullscreen_vertices: 0,
        };
        encoder.passes.push(rec);
        assert(encoder.passes@.drop_last() =~= old(encoder).passes@);
    }
}

impl ReloadableShaders for WriteGBuffers {
    open spec fn spec_reload_ok(
        pre: WriteGBuffers,
        post: WriteGBuffers,
        config: SurfaceConfig,
        shader: ShaderModule,
    ) -> bool {
        spec_write_gbuffers_pipeline_ok(post.pipeline, shader.id)
    }

    fn available_shaders() -> (shaders: Vec<&'static str>) {
        let mut shaders: Vec<&'static str> = Vec::new();
        shaders.push("shaders/write_gbuffers.wgsl");
        shaders
    }

    fn reload(
        &mut self,
        gpu: &mut Gpu,
        config: &SurfaceConfig,
        index: usize,
        shader_module: ShaderModule,
    ) {
        self.pipeline = WriteGBuffers::pipeline(gpu, &shader_module);
    }
}

} // verus!
