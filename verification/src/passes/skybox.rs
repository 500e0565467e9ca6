//! The skybox pass: composite a cubemap background behind the geometry.
//!
//! Draws a fixed 36-vertex cube with depth test `LessEqual` into the HDR
//! target, loading — never clearing — both the color target and the shared
//! depth buffer, so it paints only the pixels the geometry pass left at far
//! depth. The cubemap can be hot-swapped: a new cubemap is built from the
//! incoming bytes first, and only on success is the old image destroyed and
//! the bind set rebuilt, so a bad file leaves the pass untouched and a good
//! one leaks nothing.

use vstd::prelude::*;

use crate::cubemap::{
    spec_cubemap_data_sufficient, spec_cubemap_decodes, spec_dds_read, Cubemap, CubemapError,
};
use crate::gpu::Gpu;
use crate::loader::Scene;
use crate::passes::{
    ColorAttachment, CommandEncoder, DepthAttachment, LoadOp, PassKind, PassRecord,
    ReloadableShaders, SurfaceConfig,
};
use crate::pipelines::{
    create_render_pipeline, BlendStateKind, ColorTargetDesc, DepthStencilDesc, RenderPipeline,
    RenderPipelineDesc, ShaderModule,
};
use crate::resource_manager::{
    BindGroup, BindGroupEntry, BindGroupLayout, BindGroupLayoutEntry, BindingResource, BindingType,
    CompareFunction, SamplerType, ShaderStages, TextureSampleType, TextureViewDimension,
};
use crate::resources::{spec_scene_uniform_layout_entries, SceneUniform};
use crate::texture::{Sampler, TextureFormat};

verus! {

/// The layout the skybox shader expects: the environment cubemap and a
/// filtering sampler.
pub open spec fn spec_skybox_layout_entries() -> Seq<BindGroupLayoutEntry> {
    seq![
        BindGroupLayoutEntry {
            binding: 0u32,
            visibility: ShaderStages::Fragment,
            ty: BindingType::Texture {
                sample_type: TextureSampleType::Float,
                view_dimension: TextureViewDimension::Cube,
            },
        },
        BindGroupLayoutEntry {
            binding: 1u32,
            visibility: ShaderStages::Fragment,
            ty: BindingType::Sampler(SamplerType::Filtering),
        },
    ]
}

/// The pipeline the skybox shader expects: scene uniform at group 0, the
/// cubemap set at group 1, the HDR target with replace blending, depth
/// `LessEqual` with writes on.
pub open spec fn spec_skybox_pipeline_ok(p: RenderPipeline, shader: u64) -> bool {
    &&& p.desc.shader == shader
    &&& p.desc.bind_group_layouts@.len() == 2
    &&& p.desc.bind_group_layouts@[0].entries@ == spec_scene_uniform_layout_entries()
    &&& p.desc.bind_group_layouts@[1].entries@ == spec_skybox_layout_entries()
    &&& p.desc.vertex_buffers@.len() == 0
    &&& p.desc.color_targets@ == seq![
        ColorTargetDesc {
            format: TextureFormat::Rgba16Float,
            blend: Some(BlendStateKind::Replace),
        },
    ]
    &&& p.desc.depth_stencil == Some(
        DepthStencilDesc {
            format: TextureFormat::Depth32Float,
            depth_write_enabled: true,
            depth_compare: CompareFunction::LessEqual,
        },
    )
}

/// What one encoded skybox pass does: load the HDR target and the shared
/// depth buffer, and draw the 36-vertex cube sampling the cubemap.
pub open spec fn spec_skybox_pass_record(
    rec: PassRecord,
    skybox: Skybox,
    scene: Scene,
    output: u64,
    depth_buffer: u64,
) -> bool {
    &&& rec.kind == PassKind::Skybox
    &&& rec.color_attachments@ == seq![ColorAttachment { view: output, load: LoadOp::Load }]
    &&& rec.depth_attachment == Some(DepthAttachment { view: depth_buffer, load: LoadOp::Load })
    &&& rec.pipeline == skybox.pipeline.id
    &&& rec.bind_groups@ == seq![scene.scene.uniform_bind_group.id, skybox.cubemap_bind_group.id]
    &&& rec.reads@ == seq![skybox.cubemap.view]
    &&& rec.mesh_draws@.len() == 0
    &&& rec.fullscreen_vertices == 36
}

/// The pass object: its pipeline, its environment cubemap, the sampler and
/// the bind set over them.
pub struct Skybox {
    pub pipeline: RenderPipeline,
    pub cubemap: Cubemap,
    pub cubemap_sampler: Sampler,
    pub cubemap_bind_group: BindGroup,
}

impl Skybox {
    /// The bind set over the current cubemap view and the sampler, in the
    /// declared binding order.
    pub open spec fn spec_bind_group_ok(self) -> bool {
        self.cubemap_bind_group.entries@ == seq![
            BindGroupEntry {
                binding: 0u32,
                resource: BindingResource::TextureView(self.cubemap.view),
            },
            BindGroupEntry {
                binding: 1u32,
                resource: BindingResource::Sampler(self.cubemap_sampler.sampler),
            },
        ]
    }

    /// Build the pass from a DDS cubemap payload.
    pub fn new(gpu: &mut Gpu, shader: &ShaderModule, cubemap_bytes: &Vec<u8>) -> (r: Result<
        Skybox,
        CubemapError,
    >)
        requires
            old(gpu).wf(),
            old(gpu).spec_next_id() + 16 < u64::MAX,
            old(gpu).spec_live_textures() < u64::MAX,
        ensures
            final(gpu).wf(),
            old(gpu).spec_next_id() <= final(gpu).spec_next_id() <= old(gpu).spec_next_id() + 16,
            spec_dds_read(cubemap_bytes@) is None ==> r == Err::<Skybox, CubemapError>(
                CubemapError::InvalidData,
            ),
            spec_dds_read(cubemap_bytes@) matches Some(img) && !img.format_rgba32f ==> r == Err::<
                Skybox,
                CubemapError,
            >(CubemapError::WrongFormat),
            spec_dds_read(cubemap_bytes@) matches Some(img) && img.format_rgba32f
                && !img.is_cubemap ==> r == Err::<Skybox, CubemapError>(CubemapError::NotACubemap),
            r is Ok ==> (spec_dds_read(cubemap_bytes@) matches Some(img) && img.format_rgba32f
                && img.is_cubemap),
            spec_dds_read(cubemap_bytes@) matches Some(img) && img.format_rgba32f && img.is_cubemap
                && spec_cubemap_data_sufficient(img) ==> r is Ok,
            r matches Ok(s) ==> {
                &&& spec_skybox_pipeline_ok(s.pipeline, shader.id)
                &&& s.spec_bind_group_ok()
                &&& old(gpu).spec_next_id() <= s.cubemap.view < final(gpu).spec_next_id()
                &&& final(gpu).spec_live_textures() == old(gpu).spec_live_textures() + 1
                &&& final(gpu).alive() == old(gpu).alive().insert(s.cubemap.texture)
                &&& !old(gpu).alive().contains(s.cubemap.texture)
                &&& (spec_dds_read(cubemap_bytes@) matches Some(img) && spec_cubemap_decodes(
                    s.cubemap,
                    img,
                ))
            },
    {
        let cubemap = match Cubemap::from_dds(gpu, cubemap_bytes) {
            Ok(c) => c,
            Err(e) => {
                return Err(e);
            },
        };
        let cubemap_sampler = Sampler::cubemap_sampler(gpu);
        let pipeline = Skybox::pipeline(gpu, shader);
        let bind_group_id = gpu.fresh_id();
        let mut entries: Vec<BindGroupEntry> = Vec::new();
        entries.push(
            BindGroupEntry { binding: 0, resource: BindingResource::TextureView(cubemap.view) },
        );
        entries.push(
            BindGroupEntry {
                binding: 1,
                resource: BindingResource::Sampler(cubemap_sampler.sampler),
            },
        );
        assert(entries@ =~= seq![
            BindGroupEntry {
                binding: 0u32,
                resource: BindingResource::TextureView(cubemap.view),
            },
            BindGroupEntry {
                binding: 1u32,
                resource: BindingResource::Sampler(cubemap_sampler.sampler),
            },
        ]);
        Ok(
            Skybox {
                pipeline,
                cubemap,
                cubemap_sampler,
                cubemap_bind_group: BindGroup { id: bind_group_id, entries },
            },
        )
    }

    /// Swap the environment cubemap. The replacement is built first; only
    /// when the payload is valid is the previous image destroyed and the
    /// bind set rebuilt. On failure nothing changes; on success the live
    /// texture count is back where it started — nothing leaks.
    pub fn update_cubemap(&mut self, gpu: &mut Gpu, new_skybox: &Vec<u8>) -> (r: Result<
        (),
        CubemapError,
    >)
        requires
            old(gpu).wf(),
            old(gpu).spec_next_id() + 4 < u64::MAX,
            old(gpu).spec_live_textures() < u64::MAX,
            old(gpu).alive().contains(old(self).cubemap.texture),
        ensures
            final(gpu).wf(),
            r is Err ==> *final(self) == *old(self) && *final(gpu) == *old(gpu),
            spec_dds_read(new_skybox@) matches Some(img) && img.format_rgba32f && img.is_cubemap
                && spec_cubemap_data_sufficient(img) ==> r is Ok,
            r is Ok ==> {
                &&& final(gpu).spec_live_textures() == old(gpu).spec_live_textures()
                &&& !final(gpu).alive().contains(old(self).cubemap.texture)
                &&& final(gpu).alive().contains(final(self).cubemap.texture)
                &&& final(self).cubemap.texture != old(self).cubemap.texture
                &&& final(self).spec_bind_group_ok()
                &&& final(self).pipeline == old(self).pipeline
                &&& final(self).cubemap_sampler == old(self).cubemap_sampler
                &&& (spec_dds_read(new_skybox@) matches Some(img) && img.format_rgba32f
                    && img.is_cubemap && spec_cubemap_decodes(final(self).cubemap, img))
            },
    {
        let cubemap = match Cubemap::from_dds(gpu, new_skybox) {
            Ok(c) => c,
            Err(e) => {
                return Err(e);
            },
        };
        let bind_group_id = gpu.fresh_id();
        let mut entries: Vec<BindGroupEntry> = Vec::new();
        entries.push(
            BindGroupEntry { binding: 0, resource: BindingResource::TextureView(cubemap.view) },
        );
        entries.push(
            BindGroupEntry {
                binding: 1,
                resource: BindingResource::Sampler(self.cubemap_sampler.sampler),
            },
        );
        assert(entries@ =~= seq![
            BindGroupEntry {
                binding: 0u32,
                resource: BindingResource::TextureView(cubemap.view),
            },
            BindGroupEntry {
                binding: 1u32,
                resource: BindingResource::Sampler(self.cubemap_sampler.sampler),
            },
        ]);
        gpu.destroy_texture(self.cubemap.texture);
        self.cubemap = cubemap;
        self.cubemap_bind_group = BindGroup { id: bind_group_id, entries };
        Ok(())
    }

    pub fn cubemap_bind_group_layout(gpu: &mut Gpu) -> (layout: BindGroupLayout)
        requires
            old(gpu).wf(),
            old(gpu).spec_next_id() < u64::MAX,
        ensures
            final(gpu).wf(),
            final(gpu).spec_live_textures() == old(gpu).spec_live_textures(),
            final(gpu).alive() == old(gpu).alive(),
            final(gpu).spec_next_id() == old(gpu).spec_next_id() + 1,
            layout.entries@ == spec_skybox_layout_entries(),
    {
        let id = gpu.fresh_id();
        let mut entries: Vec<BindGroupLayoutEntry> = Vec::new();
        entries.push(
            BindGroupLayoutEntry {
                binding: 0,
                visibility: ShaderStages::Fragment,
                ty: BindingType::Texture {
                    sample_type: TextureSampleType::Float,
                    view_dimension: TextureViewDimension::Cube,
                },
            },
        );
        entries.push(
            BindGroupLayoutEntry {
                binding: 1,
                visibility: ShaderStages::Fragment,
                ty: BindingType::Sampler(SamplerType::Filtering),
            },
        );
        assert(entries@ =~= spec_skybox_layout_entries());
        BindGroupLayout { id, entries }
    }

    pub fn pipeline(gpu: &mut Gpu, shader: &ShaderModule) -> (p: RenderPipeline)
        requires
            old(gpu).wf(),
            old(gpu).spec_next_id() + 3 < u64::MAX,
        ensures
            final(gpu).wf(),
            final(gpu).spec_live_textures() == old(gpu).spec_live_textures(),
            final(gpu).alive() == old(gpu).alive(),
            old(gpu).spec_next_id() <= final(gpu).spec_next_id() <= old(gpu).spec_next_id() + 3,
            spec_skybox_pipeline_ok(p, shader.id),
    {
        let scene_layout = SceneUniform::bind_group_layout(gpu);
        let cubemap_layout = Skybox::cubemap_bind_group_layout(gpu);
        let mut bind_group_layouts: Vec<BindGroupLayout> = Vec::new();
        bind_group_layouts.push(scene_layout);
        bind_group_layouts.push(cubemap_layout);
        let mut color_targets: Vec<ColorTargetDesc> = Vec::new();
        color_targets.push(
            ColorTargetDesc {
                format: TextureFormat::Rgba16Float,
                blend: Some(BlendStateKind::Replace),
            },
        );
        assert(color_targets@ =~= seq![
            ColorTargetDesc {
                format: TextureFormat::Rgba16Float,
                blend: Some(BlendStateKind::Replace),
            },
        ]);
        create_render_pipeline(
            gpu,
            RenderPipelineDesc {
                label: Some("Skybox pipeline"),
                bind_group_layouts,
                shader: shader.id,
                vertex_buffers: Vec::new(),
                color_targets,
                depth_stencil: Some(
                    DepthStencilDesc {
                        format: TextureFormat::Depth32Float,
                        depth_write_enabled: true,
                        depth_compare: CompareFunction::LessEqual,
                    },
                ),
            },
        )
    }

    /// Encode the skybox pass into the frame's command buffer.
    pub fn pass(&self, scene: &Scene, output: u64, depth_buffer: u64, encoder: &mut CommandEncoder)
        requires
            old(encoder).passes@.len() < usize::MAX,
        ensures
            final(encoder).passes@.len() == old(encoder).passes@.len() + 1,
            final(encoder).passes@.drop_last() == old(encoder).passes@,
            spec_skybox_pass_record(
                final(encoder).passes@.last(),
                *self,
                *scene,
                output,
                depth_buffer,
            ),
    {
        let mut color_attachments: Vec<ColorAttachment> = Vec::new();
        color_attachments.push(ColorAttachment { view: output, load: LoadOp::Load });
        assert(color_attachments@ =~= seq![ColorAttachment { view: output, load: LoadOp::Load }]);
        let mut bind_groups: Vec<u64> = Vec::new();
        bind_groups.push(scene.scene.uniform_bind_group.id);
        bind_groups.push(self.cubemap_bind_group.id);
        assert(bind_groups@ =~= seq![
            scene.scene.uniform_bind_group.id,
            self.cubemap_bind_group.id,
        ]);
        let mut reads: Vec<u64> = Vec::new();
        reads.push(self.cubemap.view);
        assert(reads@ =~= seq![self.cubemap.view]);
        let rec = PassRecord {
            kind: PassKind::Skybox,
            color_attachments,
            depth_attachment: Some(DepthAttachment { view: depth_buffer, load: LoadOp::Load }),
            pipeline: self.pipeline.id,
            bind_groups,
            reads,
            mesh_draws: Vec::new(),
            fullscreen_vertices: 36,
        };
        encoder.passes.push(rec);
        assert(encoder.passes@.drop_last() =~= old(encoder).passes@);
    }
}

impl ReloadableShaders for Skybox {
    open spec fn spec_reload_ok(pre: Skybox, post: Skybox, config: SurfaceConfig, shader: ShaderModule) -> bool {
        &&& spec_skybox_pipeline_ok(post.pipeline, shader.id)
        &&& post.cubemap == pre.cubemap
        &&& post.cubemap_sampler == pre.cubemap_sampler
        &&& post.cubemap_bind_group == pre.cubemap_bind_group
    }

    fn available_shaders() -> (shaders: Vec<&'static str>) {
        let mut shaders: Vec<&'static str> = Vec::new();
        shaders.push("shaders/skybox.wgsl");
        shaders
    }

    fn reload(
        &mut self,
        gpu: &mut Gpu,
        config: &SurfaceConfig,
        index: usize,
        shader_module: ShaderModule,
    ) {
        self.pipeline = Skybox::pipeline(gpu, &shader_module);
    }
}

/// Binding order of the skybox bind set: the cubemap view, then the
/// sampler, matching the layout the skybox shader declares.
pub proof fn lemma_skybox_binding_order(skybox: Skybox)
    requires
        skybox.spec_bind_group_ok(),
    ensures
        crate::resource_manager::spec_entries_class_match(
            spec_skybox_layout_entries(),
            skybox.cubemap_bind_group.entries@,
        ),
{
}

} // verus!
