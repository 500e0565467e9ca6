//! The compose pass: the deferred lighting resolve, plus the image-based
//! lighting resources it owns.
//!
//! One fullscreen draw into the HDR target, reconstructing world position
//! from depth, evaluating the direct lights and the ambient term from the
//! IBL set: a BRDF lookup table, diffuse and specular irradiance cubemaps,
//! and one shared sampler. The cubemaps can be hot-swapped at runtime: the
//! replacements are built from the incoming bytes first, and only on
//! success are the old images destroyed and the bind set rebuilt — a bad
//! file leaves everything untouched and a good one leaks nothing.

use vstd::prelude::*;

use crate::cubemap::{
    spec_cubemap_data_sufficient, spec_cubemap_decodes, spec_dds_read, Cubemap, CubemapError,
};
use crate::gbuffers::{spec_gbuffers_layout_entries, GBuffers};
use crate::gpu::Gpu;
use crate::loader::Scene;
use crate::passes::{
    ColorAttachment, CommandEncoder, LoadOp, PassKind, PassRecord, ReloadableShaders, SurfaceConfig,
};
use crate::pipelines::{
    create_render_pipeline, ColorTargetDesc, RenderPipeline, RenderPipelineDesc, ShaderModule,
};
use crate::resource_manager::{
    BindGroup, BindGroupEntry, BindGroupLayout, BindGroupLayoutEntry, BindingResource, BindingType,
    SamplerType, ShaderStages, TextureSampleType, TextureUsages, TextureViewDimension,
};
use crate::resources::{
    spec_lighting_uniform_layout_entries, spec_scene_uniform_layout_entries, LightingUniform,
    SceneUniform,
};
use crate::texture::{Sampler, Texture, TextureFormat};

verus! {

/// The layout the compose shader expects of the IBL set: the BRDF lookup,
/// the diffuse and specular irradiance cubemaps, and one sampler.
pub open spec fn spec_ibl_layout_entries() -> Seq<BindGroupLayoutEntry> {
    seq![
        BindGroupLayoutEntry {
            binding: 0u32,
            visibility: ShaderStages::Fragment,
            ty: BindingType::Texture {
                sample_type: TextureSampleType::Float,
                view_dimension: TextureViewDimension::D2,
            },
        },
        BindGroupLayoutEntry {
            binding: 1u32,
            visibility: ShaderStages::Fragment,
            ty: BindingType::Texture {
                sample_type: TextureSampleType::Float,
                view_dimension: TextureViewDimension::Cube,
            },
        },
        BindGroupLayoutEntry {
            binding: 2u32,
            visibility: ShaderStages::Fragment,
            ty: BindingType::Texture {
                sample_type: TextureSampleType::Float,
                view_dimension: TextureViewDimension::Cube,
            },
        },
        BindGroupLayoutEntry {
            binding: 3u32,
            visibility: ShaderStages::Fragment,
            ty: BindingType::Sampler(SamplerType::Filtering),
        },
    ]
}

/// All three payloads are decodable: the BRDF lookup is a full
/// 32-bit-float image, and both irradiance payloads are complete
/// `A32B32G32R32F` cubemaps.
pub open spec fn spec_ibl_sources_ok(
    brdf_bytes: Seq<u8>,
    irradiance_bytes: Seq<u8>,
    prefilter_bytes: Seq<u8>,
) -> bool {
    &&& (spec_dds_read(brdf_bytes) matches Some(b) && b.format_rgba32f && b.data.len() >= 16 * (
    b.width as int) * (b.height as int))
    &&& (spec_dds_read(irradiance_bytes) matches Some(i) && i.format_rgba32f && i.is_cubemap
        && spec_cubemap_data_sufficient(i))
    &&& (spec_dds_read(prefilter_bytes) matches Some(p) && p.format_rgba32f && p.is_cubemap
        && spec_cubemap_data_sufficient(p))
}

/// The image-based-lighting resources the compose pass owns.
pub struct IBL {
    pub brdf_lookup: Texture,
    pub brdf_data: Vec<u8>,
    pub diffuse_radiance: Cubemap,
    pub specular_radiance: Cubemap,
    pub cubemap_sampler: Sampler,
    pub bind_group: BindGroup,
}

impl IBL {
    /// The bind set over the current views and the sampler, in the
    /// declared binding order.
    pub open spec fn spec_bind_group_ok(self) -> bool {
        self.bind_group.entries@ == seq![
            BindGroupEntry {
                binding: 0u32,
                resource: BindingResource::TextureView(self.brdf_lookup.view),
            },
            BindGroupEntry {
                binding: 1u32,
                resource: BindingResource::TextureView(self.diffuse_radiance.view),
            },
            BindGroupEntry {
                binding: 2u32,
                resource: BindingResource::TextureView(self.specular_radiance.view),
            },
            BindGroupEntry {
                binding: 3u32,
                resource: BindingResource::Sampler(self.cubemap_sampler.sampler),
            },
        ]
    }

    /// Build the IBL set: the BRDF lookup from a DDS payload holding a
    /// 32-bit-float image (the shell narrows its texels on upload), and the
    /// two irradiance cubemaps from their DDS payloads.
    pub fn new(
        gpu: &mut Gpu,
        brdf_bytes: &Vec<u8>,
        irradiance_bytes: &Vec<u8>,
        prefilter_bytes: &Vec<u8>,
    ) -> (r: Result<IBL, CubemapError>)
        requires
            old(gpu).wf(),
            old(gpu).spec_next_id() + 16 < u64::MAX,
            old(gpu).spec_live_textures() + 3 <= u64::MAX,
        ensures
            final(gpu).wf(),
            old(gpu).spec_next_id() <= final(gpu).spec_next_id() <= old(gpu).spec_next_id() + 16,
            spec_ibl_sources_ok(brdf_bytes@, irradiance_bytes@, prefilter_bytes@) ==> r is Ok,
            r matches Ok(ibl) ==> {
                &&& ibl.spec_bind_group_ok()
                &&& old(gpu).spec_next_id() <= ibl.brdf_lookup.view < final(gpu).spec_next_id()
                &&& old(gpu).spec_next_id() <= ibl.diffuse_radiance.view
                &&& ibl.diffuse_radiance.view < final(gpu).spec_next_id()
                &&& old(gpu).spec_next_id() <= ibl.specular_radiance.view
                &&& ibl.specular_radiance.view < final(gpu).spec_next_id()
                &&& ibl.brdf_lookup.view != ibl.diffuse_radiance.view
                &&& ibl.brdf_lookup.view != ibl.specular_radiance.view
                &&& ibl.diffuse_radiance.view != ibl.specular_radiance.view
                &&& ibl.diffuse_radiance.texture != ibl.specular_radiance.texture
                &&& (spec_dds_read(irradiance_bytes@) matches Some(i) && spec_cubemap_decodes(
                    ibl.diffuse_radiance,
                    i,
                ))
                &&& (spec_dds_read(prefilter_bytes@) matches Some(p) && spec_cubemap_decodes(
                    ibl.specular_radiance,
                    p,
                ))
                &&& final(gpu).spec_live_textures() == old(gpu).spec_live_textures() + 3
                &&& final(gpu).alive() == old(gpu).alive().insert(ibl.brdf_lookup.texture).insert(
                    ibl.diffuse_radiance.texture,
                ).insert(ibl.specular_radiance.texture)
                &&& final(gpu).alive().contains(ibl.diffuse_radiance.texture)
                &&& final(gpu).alive().contains(ibl.specular_radiance.texture)
                &&& final(gpu).alive().contains(ibl.brdf_lookup.texture)
                &&& ibl.brdf_lookup.format == TextureFormat::Rgba16Float
                &&& ibl.brdf_lookup.usage == crate::texture::spec_upload_usage()
                &&& (spec_dds_read(brdf_bytes@) matches Some(img) && ibl.brdf_data@
                    == img.data.subrange(
                    0,
                    16 * (img.width as int) * (img.height as int),
                ))
            },
    {
        let brdf_img = match crate::cubemap::dds_read(brdf_bytes) {
            Some(img) => img,
            None => {
                return Err(CubemapError::InvalidData);
            },
        };
        if !brdf_img.format_rgba32f {
            return Err(CubemapError::WrongFormat);
        }
        proof {
            assert(16 * (brdf_img.width as int) * (brdf_img.height as int) < 0x1_0000_0000_0000_0000_0000)
                by (nonlinear_arith)
                requires
                    0 <= brdf_img.width < 0x1_0000_0000,
                    0 <= brdf_img.height < 0x1_0000_0000,
            ;
            assert(16 * (brdf_img.width as int) * (brdf_img.height as int) >= 0) by (nonlinear_arith)
                requires
                    0 <= brdf_img.width,
                    0 <= brdf_img.height,
            ;
        }
        let brdf_len: u128 = 16u128 * (brdf_img.width as u128) * (brdf_img.height as u128);
        if brdf_len > (brdf_img.data.len() as u128) {
            return Err(CubemapError::TruncatedData);
        }
        let brdf_data = crate::cubemap::vec_subrange(&brdf_img.data, 0, brdf_len as usize);
        let usage = TextureUsages { copy_dst: true, texture_binding: true, render_attachment: false };
        let brdf_lookup = Texture::new(
            gpu,
            brdf_img.width,
            brdf_img.height,
            TextureFormat::Rgba16Float,
            usage,
            Some("BRDF lookup"),
            false,
        );
        let diffuse_radiance = match Cubemap::from_dds(gpu, irradiance_bytes) {
            Ok(c) => c,
            Err(e) => {
                return Err(e);
            },
        };
        let specular_radiance = match Cubemap::from_dds(gpu, prefilter_bytes) {
            Ok(c) => c,
            Err(e) => {
                return Err(e);
            },
        };
        let cubemap_sampler = Sampler::cubemap_sampler(gpu);
        let bind_group_id = gpu.fresh_id();
        let entries = IBL::bind_entries(
            brdf_lookup.view,
            diffuse_radiance.view,
            specular_radiance.view,
            cubemap_sampler.sampler,
        );
        Ok(
            IBL {
                brdf_lookup,
                brdf_data,
                diffuse_radiance,
                specular_radiance,
                cubemap_sampler,
                bind_group: BindGroup { id: bind_group_id, entries },
            },
        )
    }

    /// The four bind-group slots of the IBL set, in binding order.
    fn bind_entries(brdf_view: u64, diffuse_view: u64, specular_view: u64, sampler: u64) -> (entries:
        Vec<BindGroupEntry>)
        ensures
            entries@ == seq![
                BindGroupEntry { binding: 0u32, resource: BindingResource::TextureView(brdf_view) },
                BindGroupEntry {
                    binding: 1u32,
                    resource: BindingResource::TextureView(diffuse_view),
                },
                BindGroupEntry {
                    binding: 2u32,
                    resource: BindingResource::TextureView(specular_view),
                },
                BindGroupEntry { binding: 3u32, resource: BindingResource::Sampler(sampler) },
            ],
    {
        let mut entries: Vec<BindGroupEntry> = Vec::new();
        entries.push(BindGroupEntry { binding: 0, resource: BindingResource::TextureView(brdf_view) });
        entries.push(
            BindGroupEntry { binding: 1, resource: BindingResource::TextureView(diffuse_view) },
        );
        entries.push(
            BindGroupEntry { binding: 2, resource: BindingResource::TextureView(specular_view) },
        );
        entries.push(BindGroupEntry { binding: 3, resource: BindingResource::Sampler(sampler) });
        assert(entries@ =~= seq![
            BindGroupEntry { binding: 0u32, resource: BindingResource::TextureView(brdf_view) },
            BindGroupEntry { binding: 1u32, resource: BindingResource::TextureView(diffuse_view) },
            BindGroupEntry {
                binding: 2u32,
                resource: BindingResource::TextureView(specular_view),
            },
            BindGroupEntry { binding: 3u32, resource: BindingResource::Sampler(sampler) },
        ]);
        entries
    }

    /// Swap one or both irradiance cubemaps. Replacements are built first;
    /// only when every incoming payload is valid are the old images
    /// destroyed and the bind set rebuilt. On failure the set is untouched
    /// and any half-built replacement is released; on success the live
    /// texture count is back where it started — nothing leaks.
    pub fn update(
        &mut self,
        gpu: &mut Gpu,
        irradiance: Option<&Vec<u8>>,
        prefilter: Option<&Vec<u8>>,
    ) -> (r: Result<(), CubemapError>)
        requires
            old(gpu).wf(),
            old(gpu).spec_next_id() + 8 < u64::MAX,
            old(gpu).spec_live_textures() + 2 <= u64::MAX,
            old(gpu).alive().contains(old(self).diffuse_radiance.texture),
            old(gpu).alive().contains(old(self).specular_radiance.texture),
            old(self).diffuse_radiance.texture != old(self).specular_radiance.texture,
        ensures
            final(gpu).wf(),
            r is Err ==> *final(self) == *old(self),
            (irradiance matches Some(bytes) ==> (spec_dds_read(bytes@) matches Some(i)
                && i.format_rgba32f && i.is_cubemap && spec_cubemap_data_sufficient(i))) && (
            prefilter matches Some(bytes) ==> (spec_dds_read(bytes@) matches Some(p)
                && p.format_rgba32f && p.is_cubemap && spec_cubemap_data_sufficient(p))) ==> r
                is Ok,
            r is Err ==> final(gpu).spec_live_textures() == old(gpu).spec_live_textures(),
            r is Err ==> final(gpu).alive() == old(gpu).alive(),
            r is Ok ==> {
                &&& final(gpu).spec_live_textures() == old(gpu).spec_live_textures()
                &&& final(self).spec_bind_group_ok()
                &&& final(self).brdf_lookup == old(self).brdf_lookup
                &&& final(self).cubemap_sampler == old(self).cubemap_sampler
                &&& (irradiance matches Some(bytes) ==> (!final(gpu).alive().contains(
                    old(self).diffuse_radiance.texture,
                ) && (spec_dds_read(bytes@) matches Some(i) && spec_cubemap_decodes(
                    final(self).diffuse_radiance,
                    i,
                ))))
                &&& (irradiance is None ==> final(self).diffuse_radiance == old(
                    self,
                ).diffuse_radiance)
                &&& (prefilter matches Some(bytes) ==> (!final(gpu).alive().contains(
                    old(self).specular_radiance.texture,
                ) && (spec_dds_read(bytes@) matches Some(p) && spec_cubemap_decodes(
                    final(self).specular_radiance,
                    p,
                ))))
                &&& (prefilter is None ==> final(self).specular_radiance == old(
                    self,
                ).specular_radiance)
                &&& final(gpu).alive().contains(final(self).diffuse_radiance.texture)
                &&& final(gpu).alive().contains(final(self).specular_radiance.texture)
            },
    {
        let new_diffuse: Option<Cubemap> = match irradiance {
            Some(bytes) => {
                match Cubemap::from_dds(gpu, bytes) {
                    Ok(c) => Some(c),
                    Err(e) => {
                        return Err(e);
                    },
                }
            },
            None => None,
        };
        let new_specular: Option<Cubemap> = match prefilter {
            Some(bytes) => {
                match Cubemap::from_dds(gpu, bytes) {
                    Ok(c) => Some(c),
                    Err(e) => {
                        match new_diffuse {
                            Some(c) => {
                                gpu.destroy_texture(c.texture);
                                proof {
                                    assert(gpu.alive() =~= old(gpu).alive());
                                }
                            },
                            None => {},
                        }
                        return Err(e);
                    },
                }
            },
            None => None,
        };
        match new_diffuse {
            Some(c) => {
                gpu.destroy_texture(self.diffuse_radiance.texture);
                self.diffuse_radiance = c;
            },
            None => {},
        }
        match new_specular {
            Some(c) => {
                gpu.destroy_texture(self.specular_radiance.texture);
                self.specular_radiance = c;
            },
            None => {},
        }
        let bind_group_id = gpu.fresh_id();
        let entries = IBL::bind_entries(
            self.brdf_lookup.view,
            self.diffuse_radiance.view,
            self.specular_radiance.view,
            self.cubemap_sampler.sampler,
        );
        self.bind_group = BindGroup { id: bind_group_id, entries };
        Ok(())
    }

    pub fn bind_group_layout(gpu: &mut Gpu) -> (layout: BindGroupLayout)
        requires
            old(gpu).wf(),
            old(gpu).spec_next_id() < u64::MAX,
        ensures
            final(gpu).wf(),
            final(gpu).spec_live_textures() == old(gpu).spec_live_textures(),
            final(gpu).alive() == old(gpu).alive(),
            final(gpu).spec_next_id() == old(gpu).spec_next_id() + 1,
            layout.entries@ == spec_ibl_layout_entries(),
    {
        let id = gpu.fresh_id();
        let mut entries: Vec<BindGroupLayoutEntry> = Vec::new();
        entries.push(
            BindGroupLayoutEntry {
                binding: 0,
                visibility: ShaderStages::Fragment,
                ty: BindingType::Texture {
                    sample_type: TextureSampleType::Float,
                    view_dimension: TextureViewDimension::D2,
                },
            },
        );
        entries.push(
            BindGroupLayoutEntry {
                binding: 1,
                visibility: ShaderStages::Fragment,
                ty: BindingType::Texture {
                    sample_type: TextureSampleType::Float,
                    view_dimension: TextureViewDimension::Cube,
                },
            },
        );
        entries.push(
            BindGroupLayoutEntry {
                binding: 2,
                visibility: ShaderStages::Fragment,
                ty: BindingType::Texture {
                    sample_type: TextureSampleType::Float,
                    view_dimension: TextureViewDimension::Cube,
                },
            },
        );
        entries.push(
            BindGroupLayoutEntry {
                binding: 3,
                visibility: ShaderStages::Fragment,
                ty: BindingType::Sampler(SamplerType::Filtering),
            },
        );
        assert(entries@ =~= spec_ibl_layout_entries());
        BindGroupLayout { id, entries }
    }
}

/// The pipeline the compose shader expects: scene uniform at group 0, the
/// G-buffer set at group 1, the lighting uniform at group 2, the IBL set
/// at group 3; one HDR target, no depth.
pub open spec fn spec_compose_pipeline_ok(p: RenderPipeline, shader: u64) -> bool {
    &&& p.desc.shader == shader
    &&& p.desc.bind_group_layouts@.len() == 4
    &&& p.desc.bind_group_layouts@[0].entries@ == spec_scene_uniform_layout_entries()
    &&& p.desc.bind_group_layouts@[1].entries@ == spec_gbuffers_layout_entries()
    &&& p.desc.bind_group_layouts@[2].entries@ == spec_lighting_uniform_layout_entries()
    &&& p.desc.bind_group_layouts@[3].entries@ == spec_ibl_layout_entries()
    &&& p.desc.vertex_buffers@.len() == 0
    &&& p.desc.color_targets@ == seq![
        ColorTargetDesc { format: TextureFormat::Rgba16Float, blend: None },
    ]
    &&& p.desc.depth_stencil is None
}

/// What one encoded compose pass does: clear the HDR target and draw one
/// fullscreen triangle pair reading the whole G-buffer set and the IBL
/// textures.
pub open spec fn spec_compose_pass_record(
    rec: PassRecord,
    compose: Compose,
    scene: Scene,
    gbuffers: GBuffers,
    output: u64,
) -> bool {
    &&& rec.kind == PassKind::Compose
    &&& rec.color_attachments@ == seq![ColorAttachment { view: output, load: LoadOp::Clear(0u32) }]
    &&& rec.depth_attachment is None
    &&& rec.pipeline == compose.pipeline.id
    &&& rec.bind_groups@ == seq![
        scene.scene.uniform_bind_group.id,
        gbuffers.bind_group.id,
        scene.lighting.uniform_bind_group.id,
        compose.ibl.bind_group.id,
    ]
    &&& rec.reads@ == seq![
        gbuffers.depth.view,
        gbuffers.albedo.view,
        gbuffers.normal.view,
        gbuffers.material.view,
        gbuffers.occlusion.view,
        gbuffers.shadow.view,
        compose.ibl.brdf_lookup.view,
        compose.ibl.diffuse_radiance.view,
        compose.ibl.specular_radiance.view,
    ]
    &&& rec.mesh_draws@.len() == 0
    &&& rec.fullscreen_vertices == 6
}

/// The pass object: the IBL set it owns and its pipeline.
pub struct Compose {
    pub ibl: IBL,
    pub pipeline: RenderPipeline,
}

impl Compose {
    /// Build the pass: the IBL set from its three DDS payloads, then the
    /// pipeline.
    pub fn new(
        gpu: &mut Gpu,
        shader: &ShaderModule,
        brdf_bytes: &Vec<u8>,
        irradiance_bytes: &Vec<u8>,
        prefilter_bytes: &Vec<u8>,
    ) -> (r: Result<Compose, CubemapError>)
        requires
            old(gpu).wf(),
            old(gpu).spec_next_id() + 32 < u64::MAX,
            old(gpu).spec_live_textures() + 3 <= u64::MAX,
        ensures
            final(gpu).wf(),
            old(gpu).spec_next_id() <= final(gpu).spec_next_id() <= old(gpu).spec_next_id() + 32,
            spec_ibl_sources_ok(brdf_bytes@, irradiance_bytes@, prefilter_bytes@) ==> r is Ok,
            r matches Ok(c) ==> {
                &&& spec_compose_pipeline_ok(c.pipeline, shader.id)
                &&& c.ibl.spec_bind_group_ok()
                &&& old(gpu).spec_next_id() <= c.ibl.brdf_lookup.view < final(gpu).spec_next_id()
                &&& old(gpu).spec_next_id() <= c.ibl.diffuse_radiance.view
                &&& c.ibl.diffuse_radiance.view < final(gpu).spec_next_id()
                &&& old(gpu).spec_next_id() <= c.ibl.specular_radiance.view
                &&& c.ibl.specular_radiance.view < final(gpu).spec_next_id()
                &&& c.ibl.brdf_lookup.view != c.ibl.diffuse_radiance.view
                &&& c.ibl.brdf_lookup.view != c.ibl.specular_radiance.view
                &&& c.ibl.diffuse_radiance.view != c.ibl.specular_radiance.view
                &&& c.ibl.diffuse_radiance.texture != c.ibl.specular_radiance.texture
                &&& (spec_dds_read(irradiance_bytes@) matches Some(i) && spec_cubemap_decodes(
                    c.ibl.diffuse_radiance,
                    i,
                ))
                &&& (spec_dds_read(prefilter_bytes@) matches Some(p) && spec_cubemap_decodes(
                    c.ibl.specular_radiance,
                    p,
                ))
                &&& final(gpu).spec_live_textures() == old(gpu).spec_live_textures() + 3
                &&& final(gpu).alive() == old(gpu).alive().insert(c.ibl.brdf_lookup.texture).insert(
                    c.ibl.diffuse_radiance.texture,
                ).insert(c.ibl.specular_radiance.texture)
                &&& final(gpu).alive().contains(c.ibl.diffuse_radiance.texture)
                &&& final(gpu).alive().contains(c.ibl.specular_radiance.texture)
            },
    {
        let ibl = match IBL::new(gpu, brdf_bytes, irradiance_bytes, prefilter_bytes) {
            Ok(ibl) => ibl,
            Err(e) => {
                return Err(e);
            },
        };
        let pipeline = Compose::pipeline(gpu, shader);
        Ok(Compose { ibl, pipeline })
    }

    pub fn pipeline(gpu: &mut Gpu, shader: &ShaderModule) -> (p: RenderPipeline)
        requires
            old(gpu).wf(),
            old(gpu).spec_next_id() + 5 < u64::MAX,
        ensures
            final(gpu).wf(),
            final(gpu).spec_live_textures() == old(gpu).spec_live_textures(),
            final(gpu).alive() == old(gpu).alive(),
            old(gpu).spec_next_id() <= final(gpu).spec_next_id() <= old(gpu).spec_next_id() + 5,
            spec_compose_pipeline_ok(p, shader.id),
    {
        let scene_layout = SceneUniform::bind_group_layout(gpu);
        let gbuffers_layout = GBuffers::bind_group_layout(gpu);
        let lighting_layout = LightingUniform::bind_group_layout(gpu);
        let ibl_layout = IBL::bind_group_layout(gpu);
        let mut bind_group_layouts: Vec<BindGroupLayout> = Vec::new();
        bind_group_layouts.push(scene_layout);
        bind_group_layouts.push(gbuffers_layout);
        bind_group_layouts.push(lighting_layout);
        bind_group_layouts.push(ibl_layout);
        let mut color_targets: Vec<ColorTargetDesc> = Vec::new();
        color_targets.push(ColorTargetDesc { format: TextureFormat::Rgba16Float, blend: None });
        assert(color_targets@ =~= seq![
            ColorTargetDesc { format: TextureFormat::Rgba16Float, blend: None },
        ]);
        create_render_pipeline(
            gpu,
            RenderPipelineDesc {
                label: Some("Compose gbuffers pipeline"),
                bind_group_layouts,
                shader: shader.id,
                vertex_buffers: Vec::new(),
                color_targets,
                depth_stencil: None,
            },
        )
    }

    /// Encode the compose pass into the frame's command buffer.
    pub fn pass(&self, scene: &Scene, gbuffers: &GBuffers, output: u64, encoder: &mut CommandEncoder)
        requires
            old(encoder).passes@.len() < usize::MAX,
        ensures
            final(encoder).passes@.len() == old(encoder).passes@.len() + 1,
            final(encoder).passes@.drop_last() == old(encoder).passes@,
            spec_compose_pass_record(
                final(encoder).passes@.last(),
                *self,
                *scene,
                *gbuffers,
                output,
            ),
    {
        let mut color_attachments: Vec<ColorAttachment> = Vec::new();
        color_attachments.push(ColorAttachment { view: output, load: LoadOp::Clear(0) });
        assert(color_attachments@ =~= seq![
            ColorAttachment { view: output, load: LoadOp::Clear(0u32) },
        ]);
        let mut bind_groups: Vec<u64> = Vec::new();
        bind_groups.push(scene.scene.uniform_bind_group.id);
        bind_groups.push(gbuffers.bind_group.id);
        bind_groups.push(scene.lighting.uniform_bind_group.id);
        bind_groups.push(self.ibl.bind_group.id);
        assert(bind_groups@ =~= seq![
            scene.scene.uniform_bind_group.id,
            gbuffers.bind_group.id,
            scene.lighting.uniform_bind_group.id,
            self.ibl.bind_group.id,
        ]);
        let mut reads: Vec<u64> = Vec::new();
        reads.push(gbuffers.depth.view);
        reads.push(gbuffers.albedo.view);
        reads.push(gbuffers.normal.view);
        reads.push(gbuffers.material.view);
        reads.push(gbuffers.occlusion.view);
        reads.push(gbuffers.shadow.view);
        reads.push(self.ibl.brdf_lookup.view);
        reads.push(self.ibl.diffuse_radiance.view);
        reads.push(self.ibl.specular_radiance.view);
        assert(reads@ =~= seq![
            gbuffers.depth.view,
            gbuffers.albedo.view,
            gbuffers.normal.view,
            gbuffers.material.view,
            gbuffers.occlusion.view,
            gbuffers.shadow.view,
            self.ibl.brdf_lookup.view,
            self.ibl.diffuse_radiance.view,
            self.ibl.specular_radiance.view,
        ]);
        let rec = PassRecord {
            kind: PassKind::Compose,
            color_attachments,
            depth_attachment: None,
            pipeline: self.pipeline.id,
            bind_groups,
            reads,
            mesh_draws: Vec::new(),
            fullscreen_vertices: 6,
        };
        encoder.passes.push(rec);
        assert(encoder.passes@.drop_last() =~= old(encoder).passes@);
    }
}

impl ReloadableShaders for Compose {
    open spec fn spec_reload_ok(pre: Compose, post: Compose, config: SurfaceConfig, shader: ShaderModule) -> bool {
        &&& spec_compose_pipeline_ok(post.pipeline, shader.id)
        &&& post.ibl == pre.ibl
    }

    fn available_shaders() -> (shaders: Vec<&'static str>) {
        let mut shaders: Vec<&'static str> = Vec::new();
        shaders.push("shaders/compose.wgsl");
        shaders
    }

    fn reload(
        &mut self,
        gpu: &mut Gpu,
        config: &SurfaceConfig,
        index: usize,
        shader_module: ShaderModule,
    ) {
        self.pipeline = Compose::pipeline(gpu, &shader_module);
    }
}

/// Binding order of the IBL bind set: it matches the layout the compose
/// shader declares — the BRDF lookup, the two cubemaps, then the sampler.
pub proof fn lemma_ibl_binding_order(ibl: IBL)
    requires
        ibl.spec_bind_group_ok(),
    ensures
        crate::resource_manager::spec_entries_class_match(
            spec_ibl_layout_entries(),
            ibl.bind_group.entries@,
        ),
{
}

} // verus!
