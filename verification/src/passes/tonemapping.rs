//! The tonemapping pass: map the HDR compose output into display range.
//!
//! A fullscreen pass reading one texture and writing either the surface or
//! an intermediate target when anti-aliasing runs downstream; purely a
//! format and range mapping with no state beyond its input bind set.

use vstd::prelude::*;

use crate::gpu::Gpu;
use crate::passes::{
    ColorAttachment, CommandEncoder, LoadOp, PassKind, PassRecord, ReloadableShaders, SurfaceConfig,
};
use crate::pipelines::{
    create_render_pipeline, ColorTargetDesc, RenderPipeline, RenderPipelineDesc, ShaderModule,
};
use crate::resource_manager::{
    BindGroup, BindGroupEntry, BindGroupLayout, BindGroupLayoutEntry, BindingResource, BindingType,
    ShaderStages, TextureSampleType, TextureViewDimension,
};
use crate::texture::Texture;

verus! {

/// The single-texture layout the tonemap shader expects.
pub open spec fn spec_tonemapping_layout_entries() -> Seq<BindGroupLayoutEntry> {
    seq![
        BindGroupLayoutEntry {
            binding: 0u32,
            visibility: ShaderStages::Fragment,
            ty: BindingType::Texture {
                sample_type: TextureSampleType::Float,
                view_dimension: TextureViewDimension::D2,
            },
        },
    ]
}

/// The pipeline the tonemap shader expects: its input texture at group 0
/// and one surface-format target; no vertex buffer, no depth.
pub open spec fn spec_tonemapping_pipeline_ok(
    p: RenderPipeline,
    config: SurfaceConfig,
    shader: u64,
) -> bool {
    &&& p.desc.shader == shader
    &&& p.desc.bind_group_layouts@.len() == 1
    &&& p.desc.bind_group_layouts@[0].entries@ == spec_tonemapping_layout_entries()
    &&& p.desc.vertex_buffers@.len() == 0
    &&& p.desc.color_targets@ == seq![ColorTargetDesc { format: config.format, blend: None }]
    &&& p.desc.depth_stencil is None
}

/// What one encoded tonemap pass does: clear the chosen target and draw a
/// fullscreen triangle pair sampling the HDR input.
pub open spec fn spec_tonemapping_pass_record(
    rec: PassRecord,
    input_view: u64,
    bind_group: u64,
    output: u64,
    pipeline: u64,
) -> bool {
    &&& rec.kind == PassKind::Tonemapping
    &&& rec.color_attachments@ == seq![ColorAttachment { view: output, load: LoadOp::Clear(0u32) }]
    &&& rec.depth_attachment is None
    &&& rec.pipeline == pipeline
    &&& rec.bind_groups@ == seq![bind_group]
    &&& rec.reads@ == seq![input_view]
    &&& rec.mesh_draws@.len() == 0
    &&& rec.fullscreen_vertices == 6
}

/// The pass object: its pipeline and the bind set over its input texture.
pub struct Tonemapping {
    pub pipeline: RenderPipeline,
    pub texture_bind_group: BindGroup,
    pub input_view: u64,
}

impl Tonemapping {
    pub fn new(gpu: &mut Gpu, config: &SurfaceConfig, texture: &Texture, shader: &ShaderModule)
        -> (s: Tonemapping)
        requires
            old(gpu).wf(),
            old(gpu).spec_next_id() + 4 < u64::MAX,
        ensures
            final(gpu).wf(),
            final(gpu).spec_live_textures() == old(gpu).spec_live_textures(),
            final(gpu).alive() == old(gpu).alive(),
            old(gpu).spec_next_id() <= final(gpu).spec_next_id() <= old(gpu).spec_next_id() + 4,
            spec_tonemapping_pipeline_ok(s.pipeline, *config, shader.id),
            s.input_view == texture.view,
            s.texture_bind_group.entries@ == seq![
                BindGroupEntry { binding: 0u32, resource: BindingResource::TextureView(texture.view) },
            ],
    {
        let pipeline = Tonemapping::pipeline(gpu, config, shader);
        let bind_group_id = gpu.fresh_id();
        let mut entries: Vec<BindGroupEntry> = Vec::new();
        entries.push(
            BindGroupEntry { binding: 0, resource: BindingResource::TextureView(texture.view) },
        );
        assert(entries@ =~= seq![
            BindGroupEntry { binding: 0u32, resource: BindingResource::TextureView(texture.view) },
        ]);
        Tonemapping {
            pipeline,
            texture_bind_group: BindGroup { id: bind_group_id, entries },
            input_view: texture.view,
        }
    }

    pub fn texture_bind_group_layout(gpu: &mut Gpu) -> (layout: BindGroupLayout)
        requires
            old(gpu).wf(),
            old(gpu).spec_next_id() < u64::MAX,
        ensures
            final(gpu).wf(),
            final(gpu).spec_live_textures() == old(gpu).spec_live_textures(),
            final(gpu).alive() == old(gpu).alive(),
            final(gpu).spec_next_id() == old(gpu).spec_next_id() + 1,
            layout.entries@ == spec_tonemapping_layout_entries(),
    {
        let id = gpu.fresh_id();
        let mut entries: Vec<BindGroupLayoutEntry> = Vec::new();
        entries.push(
            BindGroupLayoutEntry {
                binding: 0,
                visibility: ShaderStages::Fragment,
                ty: BindingType::Texture {
                    sample_type: TextureSampleType::Float,
                    view_dimension: TextureViewDimension::D2,
                },
            },
        );
        assert(entries@ =~= spec_tonemapping_layout_entries());
        BindGroupLayout { id, entries }
    }

    pub fn pipeline(gpu: &mut Gpu, config: &SurfaceConfig, shader: &ShaderModule) -> (p:
        RenderPipeline)
        requires
            old(gpu).wf(),
            old(gpu).spec_next_id() + 2 < u64::MAX,
        ensures
            final(gpu).wf(),
            final(gpu).spec_live_textures() == old(gpu).spec_live_textures(),
            final(gpu).alive() == old(gpu).alive(),
            old(gpu).spec_next_id() <= final(gpu).spec_next_id() <= old(gpu).spec_next_id() + 2,
            spec_tonemapping_pipeline_ok(p, *config, shader.id),
    {
        let layout = Tonemapping::texture_bind_group_layout(gpu);
        let mut bind_group_layouts: Vec<BindGroupLayout> = Vec::new();
        bind_group_layouts.push(layout);
        let mut color_targets: Vec<ColorTargetDesc> = Vec::new();
        color_targets.push(ColorTargetDesc { format: config.format, blend: None });
        assert(color_targets@ =~= seq![ColorTargetDesc { format: config.format, blend: None }]);
        create_render_pipeline(
            gpu,
            RenderPipelineDesc {
                label: Some("Tonemap pipeline"),
                bind_group_layouts,
                shader: shader.id,
                vertex_buffers: Vec::new(),
                color_targets,
                depth_stencil: None,
            },
        )
    }

    /// Encode the tonemap pass into the frame's command buffer.
    pub fn pass(&self, output: u64, encoder: &mut CommandEncoder)
        requires
            old(encoder).passes@.len() < usize::MAX,
        ensures
            final(encoder).passes@.len() == old(encoder).passes@.len() + 1,
            final(encoder).passes@.drop_last() == old(encoder).passes@,
            spec_tonemapping_pass_record(
                final(encoder).passes@.last(),
                self.input_view,
                self.texture_bind_group.id,
                output,
                self.pipeline.id,
            ),
    {
        let mut color_attachments: Vec<ColorAttachment> = Vec::new();
        color_attachments.push(ColorAttachment { view: output, load: LoadOp::Clear(0) });
        assert(color_attachments@ =~= seq![
            ColorAttachment { view: output, load: LoadOp::Clear(0u32) },
        ]);
        let mut bind_groups: Vec<u64> = Vec::new();
        bind_groups.push(self.texture_bind_group.id);
        assert(bind_groups@ =~= seq![self.texture_bind_group.id]);
        let mut reads: Vec<u64> = Vec::new();
        reads.push(self.input_view);
        assert(reads@ =~= seq![self.input_view]);
        let rec = PassRecord {
            kind: PassKind::Tonemapping,
            color_attachments,
            depth_attachment: None,
            pipeline: self.pipeline.id,
            bind_groups,
            reads,
            mesh_draws: Vec::new(),
            fullscreen_vertices: 6,
        };
        encoder.passes.push(rec);
        assert(encoder.passes@.drop_last() =~= old(encoder).passes@);
    }
}

impl ReloadableShaders for Tonemapping {
    open spec fn spec_reload_ok(
        pre: Tonemapping,
        post: Tonemapping,
        config: SurfaceConfig,
        shader: ShaderModule,
    ) -> bool {
        &&& spec_tonemapping_pipeline_ok(post.pipeline, config, shader.id)
        &&& post.texture_bind_group == pre.texture_bind_group
        &&& post.input_view == pre.input_view
    }

    fn available_shaders() -> (shaders: Vec<&'static str>) {
        let mut shaders: Vec<&'static str> = Vec::new();
        shaders.push("shaders/tonemapping.wgsl");
        shaders
    }

    fn reload(
        &mut self,
        gpu: &mut Gpu,
        config: &SurfaceConfig,
        index: usize,
        shader_module: ShaderModule,
    ) {
        self.pipeline = Tonemapping::pipeline(gpu, config, &shader_module);
    }
}

/// Binding order of the tonemap pass's bind set: one texture view at
/// binding 0, matching the single-texture layout its shader declares.
pub proof fn lemma_tonemapping_binding_order(input_view: u64)
    ensures
        crate::resource_manager::spec_entries_class_match(
            spec_tonemapping_layout_entries(),
            seq![
                BindGroupEntry {
                    binding: 0u32,
                    resource: BindingResource::TextureView(input_view),
                },
            ],
        ),
{
}

} // verus!
