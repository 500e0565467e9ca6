//! The anti-aliasing pass: screen-space edge smoothing over the tonemapped
//! image.
//!
//! A fullscreen pass with a small block of tunable edge and subpixel
//! thresholds, reading the LDR input and writing the final color to the
//! surface. The orchestrator decides per frame whether the tonemap output
//! routes through it.

use vstd::prelude::*;

use crate::gpu::Gpu;
use crate::passes::{
    ColorAttachment, CommandEncoder, LoadOp, PassKind, PassRecord, ReloadableShaders, SurfaceConfig,
};
use crate::pipelines::{
    create_render_pipeline, ColorTargetDesc, RenderPipeline, RenderPipelineDesc, ShaderModule,
};
use crate::resource_manager::{
    BindGroup, BindGroupEntry, BindGroupLayout, BindGroupLayoutEntry, BindingResource, BindingType,
    SamplerType, ShaderStages, TextureSampleType, TextureViewDimension,
};
use crate::texture::{Sampler, Texture};
use crate::uniform::{spec_uniform_layout_entry, Uniform, UniformData};

verus! {

/// Byte size of [`FxaaParams`]: eight 32-bit values.
pub const FXAA_UNIFORM_SIZE: u64 = 32;

/// Bit pattern of `1.0f32 / 3.0f32`.
pub const F32_THIRD_BITS: u32 = 0x3EAA_AAAB;

/// Bit pattern of `1.0f32 / 32.0f32`.
pub const F32_THIRTY_SECOND_BITS: u32 = 0x3D00_0000;

/// Bit pattern of `0.5f32`.
pub const F32_HALF_BITS: u32 = 0x3F00_0000;

/// Bit pattern of `0.25f32`.
pub const F32_QUARTER_BITS: u32 = 0x3E80_0000;

/// Bit pattern of `5.0f32`.
pub const F32_FIVE_BITS: u32 = 0x40A0_0000;

/// The tunable thresholds, as `f32` bit patterns.
#[derive(Clone, Copy, PartialEq, Eq, Structural, Debug)]
pub struct FxaaParams {
    pub edge_threshold: u32,
    pub edge_threshold_min: u32,
    pub subpix: u32,
    pub subpix_trim: u32,
    pub subpix_cap: u32,
    pub search_steps: u32,
    pub search_acceleration: u32,
    pub search_threshold: u32,
}

impl UniformData for FxaaParams {
    open spec fn spec_size() -> u64 {
        FXAA_UNIFORM_SIZE
    }

    fn size() -> u64 {
        FXAA_UNIFORM_SIZE
    }
}

/// The stock thresholds: edge threshold 1/3 with minimum 1/32, subpixel
/// trim 1/2 with cap 1, five search steps.
pub open spec fn spec_fxaa_default_params() -> FxaaParams {
    FxaaParams {
        edge_threshold: F32_THIRD_BITS,
        edge_threshold_min: F32_THIRTY_SECOND_BITS,
        subpix: 0u32,
        subpix_trim: F32_HALF_BITS,
        subpix_cap: crate::mat4::F32_ONE_BITS,
        search_steps: F32_FIVE_BITS,
        search_acceleration: crate::mat4::F32_ONE_BITS,
        search_threshold: F32_QUARTER_BITS,
    }
}

impl Default for FxaaParams {
    /// The stock thresholds.
    fn default() -> (d: FxaaParams)
        ensures
            d == spec_fxaa_default_params(),
    {
        FxaaParams {
            edge_threshold: F32_THIRD_BITS,
            edge_threshold_min: F32_THIRTY_SECOND_BITS,
            subpix: 0,
            subpix_trim: F32_HALF_BITS,
            subpix_cap: crate::mat4::F32_ONE_BITS,
            search_steps: F32_FIVE_BITS,
            search_acceleration: crate::mat4::F32_ONE_BITS,
            search_threshold: F32_QUARTER_BITS,
        }
    }
}

/// The layout the anti-aliasing shader expects: its parameter block, the
/// LDR input texture, and a filtering sampler.
pub open spec fn spec_fxaa_layout_entries() -> Seq<BindGroupLayoutEntry> {
    seq![
        spec_uniform_layout_entry::<FxaaParams>(0),
        BindGroupLayoutEntry {
            binding: 1u32,
            visibility: ShaderStages::Fragment,
            ty: BindingType::Texture {
                sample_type: TextureSampleType::Float,
                view_dimension: TextureViewDimension::D2,
            },
        },
        BindGroupLayoutEntry {
            binding: 2u32,
            visibility: ShaderStages::Fragment,
            ty: BindingType::Sampler(SamplerType::Filtering),
        },
    ]
}

/// The pipeline the anti-aliasing shader expects: the mixed bind set at
/// group 0 and one surface-format target; no vertex buffer, no depth.
pub open spec fn spec_fxaa_pipeline_ok(p: RenderPipeline, config: SurfaceConfig, shader: u64) -> bool {
    &&& p.desc.shader == shader
    &&& p.desc.bind_group_layouts@.len() == 1
    &&& p.desc.bind_group_layouts@[0].entries@ == spec_fxaa_layout_entries()
    &&& p.desc.vertex_buffers@.len() == 0
    &&& p.desc.color_targets@ == seq![ColorTargetDesc { format: config.format, blend: None }]
    &&& p.desc.depth_stencil is None
}

/// What one encoded anti-aliasing pass does.
pub open spec fn spec_fxaa_pass_record(
    rec: PassRecord,
    input_view: u64,
    bind_group: u64,
    output: u64,
    pipeline: u64,
) -> bool {
    &&& rec.kind == PassKind::Fxaa
    &&& rec.color_attachments@ == seq![ColorAttachment { view: output, load: LoadOp::Clear(0u32) }]
    &&& rec.depth_attachment is None
    &&& rec.pipeline == pipeline
    &&& rec.bind_groups@ == seq![bind_group]
    &&& rec.reads@ == seq![input_view]
    &&& rec.mesh_draws@.len() == 0
    &&& rec.fullscreen_vertices == 6
}

/// The pass object: its parameter uniform, sampler, bind set and pipeline.
pub struct Fxaa {
    pub uniform: Uniform<FxaaParams>,
    pub sampler: Sampler,
    pub bind_group: BindGroup,
    pub pipeline: RenderPipeline,
    pub input_view: u64,
}

impl Fxaa {
    pub fn new(gpu: &mut Gpu, config: &SurfaceConfig, input_texture: &Texture, shader: &ShaderModule)
        -> (s: Fxaa)
        requires
            old(gpu).wf(),
            old(gpu).spec_next_id() + 8 < u64::MAX,
        ensures
            final(gpu).wf(),
            final(gpu).spec_live_textures() == old(gpu).spec_live_textures(),
            final(gpu).alive() == old(gpu).alive(),
            old(gpu).spec_next_id() <= final(gpu).spec_next_id() <= old(gpu).spec_next_id() + 8,
            spec_fxaa_pipeline_ok(s.pipeline, *config, shader.id),
            s.input_view == input_texture.view,
            s.uniform.data == spec_fxaa_default_params(),
            s.bind_group.entries@ == seq![
                BindGroupEntry {
                    binding: 0u32,
                    resource: BindingResource::Buffer(s.uniform.buffer),
                },
                BindGroupEntry {
                    binding: 1u32,
                    resource: BindingResource::TextureView(input_texture.view),
                },
                BindGroupEntry { binding: 2u32, resource: BindingResource::Sampler(s.sampler.sampler) },
            ],
    {
        let uniform: Uniform<FxaaParams> = Uniform::new(gpu, None, FxaaParams::default());
        let sampler = Sampler::diffuse_texture_sampler(gpu);
        let pipeline = Fxaa::pipeline(gpu, config, shader);
        let bind_group_id = gpu.fresh_id();
        let mut entries: Vec<BindGroupEntry> = Vec::new();
        entries.push(uniform.bind_group_entry(0));
        entries.push(
            BindGroupEntry {
                binding: 1,
                resource: BindingResource::TextureView(input_texture.view),
            },
        );
        entries.push(BindGroupEntry { binding: 2, resource: BindingResource::Sampler(sampler.sampler) });
        assert(entries@ =~= seq![
            BindGroupEntry { binding: 0u32, resource: BindingResource::Buffer(uniform.buffer) },
            BindGroupEntry {
                binding: 1u32,
                resource: BindingResource::TextureView(input_texture.view),
            },
            BindGroupEntry { binding: 2u32, resource: BindingResource::Sampler(sampler.sampler) },
        ]);
        Fxaa {
            uniform,
            sampler,
            bind_group: BindGroup { id: bind_group_id, entries },
            pipeline,
            input_view: input_texture.view,
        }
    }

    pub fn bind_group_layout(gpu: &mut Gpu) -> (layout: BindGroupLayout)
        requires
            old(gpu).wf(),
            old(gpu).spec_next_id() < u64::MAX,
        ensures
            final(gpu).wf(),
            final(gpu).spec_live_textures() == old(gpu).spec_live_textures(),
            final(gpu).alive() == old(gpu).alive(),
            final(gpu).spec_next_id() == old(gpu).spec_next_id() + 1,
            layout.entries@ == spec_fxaa_layout_entries(),
    {
        let id = gpu.fresh_id();
        let mut entries: Vec<BindGroupLayoutEntry> = Vec::new();
        entries.push(Uniform::<FxaaParams>::bind_group_layout_entry(0));
        entries.push(
            BindGroupLayoutEntry {
                binding: 1,
                visibility: ShaderStages::Fragment,
                ty: BindingType::Texture {
                    sample_type: TextureSampleType::Float,
                    view_dimension: TextureViewDimension::D2,
                },
            },
        );
        entries.push(
            BindGroupLayoutEntry {
                binding: 2,
                visibility: ShaderStages::Fragment,
                ty: BindingType::Sampler(SamplerType::Filtering),
            },
        );
        assert(entries@ =~= spec_fxaa_layout_entries());
        BindGroupLayout { id, entries }
    }

    pub fn pipeline(gpu: &mut Gpu, config: &SurfaceConfig, shader: &ShaderModule) -> (p:
        RenderPipeline)
        requires
            old(gpu).wf(),
            old(gpu).spec_next_id() + 2 < u64::MAX,
        ensures
            final(gpu).wf(),
            final(gpu).spec_live_textures() == old(gpu).spec_live_textures(),
            final(gpu).alive() == old(gpu).alive(),
            old(gpu).spec_next_id() <= final(gpu).spec_next_id() <= old(gpu).spec_next_id() + 2,
            spec_fxaa_pipeline_ok(p, *config, shader.id),
    {
        let layout = Fxaa::bind_group_layout(gpu);
        let mut bind_group_layouts: Vec<BindGroupLayout> = Vec::new();
        bind_group_layouts.push(layout);
        let mut color_targets: Vec<ColorTargetDesc> = Vec::new();
        color_targets.push(ColorTargetDesc { format: config.format, blend: None });
        assert(color_targets@ =~= seq![ColorTargetDesc { format: config.format, blend: None }]);
        create_render_pipeline(
            gpu,
            RenderPipelineDesc {
                label: Some("Fxaa pipeline"),
                bind_group_layouts,
                shader: shader.id,
                vertex_buffers: Vec::new(),
                color_targets,
                depth_stencil: None,
            },
        )
    }

    /// Encode the anti-aliasing pass into the frame's command buffer.
    pub fn pass(&self, output: u64, encoder: &mut CommandEncoder)
        requires
            old(encoder).passes@.len() < usize::MAX,
        ensures
            final(encoder).passes@.len() == old(encoder).passes@.len() + 1,
            final(encoder).passes@.drop_last() == old(encoder).passes@,
            spec_fxaa_pass_record(
                final(encoder).passes@.last(),
                self.input_view,
                self.bind_group.id,
                output,
                self.pipeline.id,
            ),
    {
        let mut color_attachments: Vec<ColorAttachment> = Vec::new();
        color_attachments.push(ColorAttachment { view: output, load: LoadOp::Clear(0) });
        assert(color_attachments@ =~= seq![
            ColorAttachment { view: output, load: LoadOp::Clear(0u32) },
        ]);
        let mut bind_groups: Vec<u64> = Vec::new();
        bind_groups.push(self.bind_group.id);
        assert(bind_groups@ =~= seq![self.bind_group.id]);
        let mut reads: Vec<u64> = Vec::new();
        reads.push(self.input_view);
        assert(reads@ =~= seq![self.input_view]);
        let rec = PassRecord {
            kind: PassKind::Fxaa,
            color_attachments,
            depth_attachment: None,
            pipeline: self.pipeline.id,
            bind_groups,
            reads,
            mesh_draws: Vec::new(),
            fullscreen_vertices: 6,
        };
        encoder.passes.push(rec);
        assert(encoder.passes@.drop_last() =~= old(encoder).passes@);
    }
}

impl ReloadableShaders for Fxaa {
    open spec fn spec_reload_ok(pre: Fxaa, post: Fxaa, config: SurfaceConfig, shader: ShaderModule) -> bool {
        &&& spec_fxaa_pipeline_ok(post.pipeline, config, shader.id)
        &&& post.uniform == pre.uniform
        &&& post.sampler == pre.sampler
        &&& post.bind_group == pre.bind_group
        &&& post.input_view == pre.input_view
    }

    fn available_shaders() -> (shaders: Vec<&'static str>) {
        let mut shaders: Vec<&'static str> = Vec::new();
        shaders.push("shaders/fxaa.wgsl");
        shaders
    }

    fn reload(
        &mut self,
        gpu: &mut Gpu,
        config: &SurfaceConfig,
        index: usize,
        shader_module: ShaderModule,
    ) {
        self.pipeline = Fxaa::pipeline(gpu, config, &shader_module);
    }
}

/// Binding order of the anti-aliasing pass's bind set: the parameter
/// buffer, the input texture, then the sampler, matching the layout its
/// shader declares.
pub proof fn lemma_fxaa_binding_order(buffer: u64, input_view: u64, sampler: u64)
    ensures
        crate::resource_manager::spec_entries_class_match(
            spec_fxaa_layout_entries(),
            seq![
                BindGroupEntry { binding: 0u32, resource: BindingResource::Buffer(buffer) },
                BindGroupEntry {
                    binding: 1u32,
                    resource: BindingResource::TextureView(input_view),
                },
                BindGroupEntry { binding: 2u32, resource: BindingResource::Sampler(sampler) },
            ],
        ),
{
}

} // verus!
