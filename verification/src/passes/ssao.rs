//! The ambient-occlusion pass: screen-space occlusion from the depth and
//! normal G-buffers.
//!
//! A fullscreen pass reading depth and normal plus two small precomputed
//! textures — a sixteen-sample hemisphere kernel and a tiled random
//! rotation noise, both produced by the caller's sampling code — and
//! writing an occlusion factor into its own G-buffer slot. Optional per
//! frame; its only ordering constraint is after the geometry pass and
//! before compose.

use vstd::prelude::*;

use crate::gbuffers::GBuffers;
use crate::gpu::Gpu;
use crate::loader::Scene;
use crate::passes::{
    ColorAttachment, CommandEncoder, LoadOp, PassKind, PassRecord, ReloadableShaders, SurfaceConfig,
};
use crate::pipelines::{
    create_render_pipeline, ColorTargetDesc, RenderPipeline, RenderPipelineDesc, ShaderModule,
};
use crate::resource_manager::{
    BindGroup, BindGroupEntry, BindGroupLayout, BindGroupLayoutEntry, BindingResource, BindingType,
    ShaderStages, TextureSampleType, TextureUsages, TextureViewDimension,
};
use crate::resources::{spec_scene_uniform_layout_entries, SceneUniform};
use crate::texture::{Texture, TextureError, TextureFormat};

verus! {

/// Byte size of one 4x4 `Rgba16Float` kernel or noise texture.
pub const SSAO_TEXTURE_BYTES: usize = 128;

/// The four-texture layout the occlusion shader expects: depth, normal,
/// kernel, noise.
pub open spec fn spec_ssao_layout_entries() -> Seq<BindGroupLayoutEntry> {
    seq![
        BindGroupLayoutEntry {
            binding: 0u32,
            visibility: ShaderStages::Fragment,
            ty: BindingType::Texture {
                sample_type: TextureSampleType::Depth,
                view_dimension: TextureViewDimension::D2,
            },
        },
        BindGroupLayoutEntry {
            binding: 1u32,
            visibility: ShaderStages::Fragment,
            ty: BindingType::Texture {
                sample_type: TextureSampleType::Float,
                view_dimension: TextureViewDimension::D2,
            },
        },
        BindGroupLayoutEntry {
            binding: 2u32,
            visibility: ShaderStages::Fragment,
            ty: BindingType::Texture {
                sample_type: TextureSampleType::Float,
                view_dimension: TextureViewDimension::D2,
            },
        },
        BindGroupLayoutEntry {
            binding: 3u32,
            visibility: ShaderStages::Fragment,
            ty: BindingType::Texture {
                sample_type: TextureSampleType::Float,
                view_dimension: TextureViewDimension::D2,
            },
        },
    ]
}

/// The pipeline the occlusion shader expects: scene uniform at group 0,
/// its four textures at group 1, one `Rgba16Float` target, no depth.
pub open spec fn spec_ssao_pipeline_ok(p: RenderPipeline, shader: u64) -> bool {
    &&& p.desc.shader == shader
    &&& p.desc.bind_group_layouts@.len() == 2
    &&& p.desc.bind_group_layouts@[0].entries@ == spec_scene_uniform_layout_entries()
    &&& p.desc.bind_group_layouts@[1].entries@ == spec_ssao_layout_entries()
    &&& p.desc.vertex_buffers@.len() == 0
    &&& p.desc.color_targets@ == seq![
        ColorTargetDesc { format: TextureFormat::Rgba16Float, blend: None },
    ]
    &&& p.desc.depth_stencil is None
}

/// What one encoded occlusion pass does.
pub open spec fn spec_ssao_pass_record(
    rec: PassRecord,
    ssao: SSAO,
    scene: Scene,
    output: u64,
) -> bool {
    &&& rec.kind == PassKind::Ssao
    &&& rec.color_attachments@ == seq![ColorAttachment { view: output, load: LoadOp::Clear(0u32) }]
    &&& rec.depth_attachment is None
    &&& rec.pipeline == ssao.pipeline.id
    &&& rec.bind_groups@ == seq![scene.scene.uniform_bind_group.id, ssao.textures_bind_group.id]
    &&& rec.reads@ == seq![
        ssao.depth_view,
        ssao.normal_view,
        ssao.sample_kernel.view,
        ssao.random_noise.view,
    ]
    &&& rec.mesh_draws@.len() == 0
    &&& rec.fullscreen_vertices == 6
}

/// The pass object: its pipeline, its texture bind set, and the two small
/// sample textures it owns.
pub struct SSAO {
    pub pipeline: RenderPipeline,
    pub textures_bind_group: BindGroup,
    pub sample_kernel: Texture,
    pub random_noise: Texture,
    pub depth_view: u64,
    pub normal_view: u64,
}

impl SSAO {
    /// Build the pass: upload the kernel and noise textures (each 4x4
    /// `Rgba16Float`, 128 bytes, computed by the caller's sampling code)
    /// and bind them beside the depth and normal G-buffers.
    pub fn new(
        gpu: &mut Gpu,
        gbuffers: &GBuffers,
        shader: &ShaderModule,
        sample_kernel_data: &Vec<u8>,
        random_noise_data: &Vec<u8>,
    ) -> (r: Result<SSAO, TextureError>)
        requires
            old(gpu).wf(),
            old(gpu).spec_next_id() + 12 < u64::MAX,
            old(gpu).spec_live_textures() + 2 <= u64::MAX,
        ensures
            final(gpu).wf(),
            old(gpu).spec_next_id() <= final(gpu).spec_next_id() <= old(gpu).spec_next_id() + 12,
            sample_kernel_data@.len() == SSAO_TEXTURE_BYTES && random_noise_data@.len()
                == SSAO_TEXTURE_BYTES ==> r is Ok,
            r matches Ok(s) ==> {
                &&& spec_ssao_pipeline_ok(s.pipeline, shader.id)
                &&& s.sample_kernel.width == 4 && s.sample_kernel.height == 4
                &&& s.sample_kernel.format == TextureFormat::Rgba16Float
                &&& s.sample_kernel.usage == crate::texture::spec_upload_usage()
                &&& s.random_noise.width == 4 && s.random_noise.height == 4
                &&& s.random_noise.format == TextureFormat::Rgba16Float
                &&& s.random_noise.usage == crate::texture::spec_upload_usage()
                &&& old(gpu).spec_next_id() <= s.sample_kernel.view < final(gpu).spec_next_id()
                &&& old(gpu).spec_next_id() <= s.random_noise.view < final(gpu).spec_next_id()
                &&& s.sample_kernel.view != s.random_noise.view
                &&& s.depth_view == gbuffers.depth.view
                &&& s.normal_view == gbuffers.normal.view
                &&& final(gpu).spec_live_textures() == old(gpu).spec_live_textures() + 2
                &&& s.textures_bind_group.entries@ == seq![
                    BindGroupEntry {
                        binding: 0u32,
                        resource: BindingResource::TextureView(gbuffers.depth.view),
                    },
                    BindGroupEntry {
                        binding: 1u32,
                        resource: BindingResource::TextureView(gbuffers.normal.view),
                    },
                    BindGroupEntry {
                        binding: 2u32,
                        resource: BindingResource::TextureView(s.sample_kernel.view),
                    },
                    BindGroupEntry {
                        binding: 3u32,
                        resource: BindingResource::TextureView(s.random_noise.view),
                    },
                ]
            },
    {
        let pipeline = SSAO::pipeline(gpu, shader);
        let usage = TextureUsages { copy_dst: true, texture_binding: true, render_attachment: false };
        let sample_kernel = match Texture::new_from_bytes(
            gpu,
            sample_kernel_data,
            4,
            4,
            TextureFormat::Rgba16Float,
            usage,
            Some("Sample kernel"),
            false,
        ) {
            Ok(t) => t,
            Err(e) => {
                return Err(e);
            },
        };
        let random_noise = match Texture::new_from_bytes(
            gpu,
            random_noise_data,
            4,
            4,
            TextureFormat::Rgba16Float,
            usage,
            Some("Random noise"),
            false,
        ) {
            Ok(t) => t,
            Err(e) => {
                return Err(e);
            },
        };
        let bind_group_id = gpu.fresh_id();
        let mut entries: Vec<BindGroupEntry> = Vec::new();
        entries.push(
            BindGroupEntry {
                binding: 0,
                resource: BindingResource::TextureView(gbuffers.depth.view),
            },
        );
        entries.push(
            BindGroupEntry {
                binding: 1,
                resource: BindingResource::TextureView(gbuffers.normal.view),
            },
        );
        entries.push(
            BindGroupEntry {
                binding: 2,
                resource: BindingResource::TextureView(sample_kernel.view),
            },
        );
        entries.push(
            BindGroupEntry {
                binding: 3,
                resource: BindingResource::TextureView(random_noise.view),
            },
        );
        assert(entries@ =~= seq![
            BindGroupEntry {
                binding: 0u32,
                resource: BindingResource::TextureView(gbuffers.depth.view),
            },
            BindGroupEntry {
                binding: 1u32,
                resource: BindingResource::TextureView(gbuffers.normal.view),
            },
            BindGroupEntry {
                binding: 2u32,
                resource: BindingResource::TextureView(sample_kernel.view),
            },
            BindGroupEntry {
                binding: 3u32,
                resource: BindingResource::TextureView(random_noise.view),
            },
        ]);
        Ok(
            SSAO {
                pipeline,
                textures_bind_group: BindGroup { id: bind_group_id, entries },
                sample_kernel,
                random_noise,
                depth_view: gbuffers.depth.view,
                normal_view: gbuffers.normal.view,
            },
        )
    }

    pub fn textures_bind_group_layout(gpu: &mut Gpu) -> (layout: BindGroupLayout)
        requires
            old(gpu).wf(),
            old(gpu).spec_next_id() < u64::MAX,
        ensures
            final(gpu).wf(),
            final(gpu).spec_live_textures() == old(gpu).spec_live_textures(),
            final(gpu).alive() == old(gpu).alive(),
            final(gpu).spec_next_id() == old(gpu).spec_next_id() + 1,
            layout.entries@ == spec_ssao_layout_entries(),
    {
        let id = gpu.fresh_id();
        let mut entries: Vec<BindGroupLayoutEntry> = Vec::new();
        entries.push(
            BindGroupLayoutEntry {
                binding: 0,
                visibility: ShaderStages::Fragment,
                ty: BindingType::Texture {
                    sample_type: TextureSampleType::Depth,
                    view_dimension: TextureViewDimension::D2,
                },
            },
        );
        let mut b: u32 = 1;
        while b < 4
            invariant
                1 <= b <= 4,
                entries@.len() == b,
                forall|j: int| 0 <= j < b ==> entries@[j] == spec_ssao_layout_entries()[j],
            decreases 4 - b,
        {
            entries.push(
                BindGroupLayoutEntry {
                    binding: b,
                    visibility: ShaderStages::Fragment,
                    ty: BindingType::Texture {
                        sample_type: TextureSampleType::Float,
                        view_dimension: TextureViewDimension::D2,
                    },
                },
            );
            b = b + 1;
        }
        assert(entries@ =~= spec_ssao_layout_entries());
        BindGroupLayout { id, entries }
    }

    pub fn pipeline(gpu: &mut Gpu, shader: &ShaderModule) -> (p: RenderPipeline)
        requires
            old(gpu).wf(),
            old(gpu).spec_next_id() + 3 < u64::MAX,
        ensures
            final(gpu).wf(),
            final(gpu).spec_live_textures() == old(gpu).spec_live_textures(),
            final(gpu).alive() == old(gpu).alive(),
            old(gpu).spec_next_id() <= final(gpu).spec_next_id() <= old(gpu).spec_next_id() + 3,
            spec_ssao_pipeline_ok(p, shader.id),
    {
        let scene_layout = SceneUniform::bind_group_layout(gpu);
        let textures_layout = SSAO::textures_bind_group_layout(gpu);
        let mut bind_group_layouts: Vec<BindGroupLayout> = Vec::new();
        bind_group_layouts.push(scene_layout);
        bind_group_layouts.push(textures_layout);
        let mut color_targets: Vec<ColorTargetDesc> = Vec::new();
        color_targets.push(ColorTargetDesc { format: TextureFormat::Rgba16Float, blend: None });
        assert(color_targets@ =~= seq![
            ColorTargetDesc { format: TextureFormat::Rgba16Float, blend: None },
        ]);
        create_render_pipeline(
            gpu,
            RenderPipelineDesc {
                label: Some("SSAO pipeline"),
                bind_group_layouts,
                shader: shader.id,
                vertex_buffers: Vec::new(),
                color_targets,
                depth_stencil: None,
            },
        )
    }

    /// Encode the occlusion pass into the frame's command buffer.
    pub fn pass(&self, scene: &Scene, output: u64, encoder: &mut CommandEncoder)
        requires
            old(encoder).passes@.len() < usize::MAX,
        ensures
            final(encoder).passes@.len() == old(encoder).passes@.len() + 1,
            final(encoder).passes@.drop_last() == old(encoder).passes@,
            spec_ssao_pass_record(final(encoder).passes@.last(), *self, *scene, output),
    {
        let mut color_attachments: Vec<ColorAttachment> = Vec::new();
        color_attachments.push(ColorAttachment { view: output, load: LoadOp::Clear(0) });
        assert(color_attachments@ =~= seq![
            ColorAttachment { view: output, load: LoadOp::Clear(0u32) },
        ]);
        let mut bind_groups: Vec<u64> = Vec::new();
        bind_groups.push(scene.scene.uniform_bind_group.id);
        bind_groups.push(self.textures_bind_group.id);
        assert(bind_groups@ =~= seq![
            scene.scene.uniform_bind_group.id,
            self.textures_bind_group.id,
        ]);
        let mut reads: Vec<u64> = Vec::new();
        reads.push(self.depth_view);
        reads.push(self.normal_view);
        reads.push(self.sample_kernel.view);
        reads.push(self.random_noise.view);
        assert(reads@ =~= seq![
            self.depth_view,
            self.normal_view,
            self.sample_kernel.view,
            self.random_noise.view,
        ]);
        let rec = PassRecord {
            kind: PassKind::Ssao,
            color_attachments,
            depth_attachment: None,
            pipeline: self.pipeline.id,
            bind_groups,
            reads,
            mesh_draws: Vec::new(),
            fullscreen_vertices: 6,
        };
        encoder.passes.push(rec);
        assert(encoder.passes@.drop_last() =~= old(encoder).passes@);
    }
}

impl ReloadableShaders for SSAO {
    open spec fn spec_reload_ok(pre: SSAO, post: SSAO, config: SurfaceConfig, shader: ShaderModule) -> bool {
        &&& spec_ssao_pipeline_ok(post.pipeline, shader.id)
        &&& post.textures_bind_group == pre.textures_bind_group
        &&& post.sample_kernel == pre.sample_kernel
        &&& post.random_noise == pre.random_noise
        &&& post.depth_view == pre.depth_view
        &&& post.normal_view == pre.normal_view
    }

    fn available_shaders() -> (shaders: Vec<&'static str>) {
        let mut shaders: Vec<&'static str> = Vec::new();
        shaders.push("shaders/ssao.wgsl");
        shaders
    }

    fn reload(
        &mut self,
        gpu: &mut Gpu,
        config: &SurfaceConfig,
        index: usize,
        shader_module: ShaderModule,
    ) {
        self.pipeline = SSAO::pipeline(gpu, &shader_module);
    }
}

/// Binding order of the occlusion pass's texture bind set: depth, normal,
/// kernel, noise, matching the four-texture layout its shader declares.
pub proof fn lemma_ssao_binding_order(depth_view: u64, normal_view: u64, kernel_view: u64, noise_view: u64)
    ensures
        crate::resource_manager::spec_entries_class_match(
            spec_ssao_layout_entries(),
            seq![
                BindGroupEntry {
                    binding: 0u32,
                    resource: BindingResource::TextureView(depth_view),
                },
                BindGroupEntry {
                    binding: 1u32,
                    resource: BindingResource::TextureView(normal_view),
                },
                BindGroupEntry {
                    binding: 2u32,
                    resource: BindingResource::TextureView(kernel_view),
                },
                BindGroupEntry {
                    binding: 3u32,
                    resource: BindingResource::TextureView(noise_view),
                },
            ],
        ),
{
}

} // verus!
