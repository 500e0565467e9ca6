//! The frame orchestrator.
//!
//! The renderer owns the scene, the intermediate targets and the passes,
//! and encodes one frame as a fixed sequence into a single command buffer:
//! shadow write, geometry write, optional ambient occlusion, lighting
//! compose, skybox, tonemap, optional anti-aliasing, UI overlay. A failed
//! surface acquisition is reported to the caller, the frame is skipped, and
//! nothing changes. Shader hot-reload goes through here too: an invalid
//! shader leaves the pass — and therefore the next frame's plan — exactly
//! as it was.

use vstd::prelude::*;

use crate::gbuffers::GBuffers;
use crate::gpu::Gpu;
use crate::loader::{spec_meshes_materials_in_range, Scene};
use crate::passes::compose::{spec_compose_pass_record, Compose};
use crate::passes::fxaa::{spec_fxaa_pass_record, Fxaa, FxaaParams};
use crate::passes::skybox::{spec_skybox_pass_record, Skybox};
use crate::passes::ssao::{spec_ssao_pass_record, SSAO};
use crate::passes::tonemapping::{spec_tonemapping_pass_record, Tonemapping};
use crate::passes::write_gbuffers::{spec_write_gbuffers_pass_record, WriteGBuffers};
use crate::passes::write_shadowmaps::{spec_shadow_pass_record, WriteShadowmaps};
use crate::passes::{
    spec_pass_writes, spec_reads_follow_writes, ColorAttachment, CommandEncoder, LoadOp, PassKind,
    PassRecord, ReloadableShaders, SurfaceConfig,
};
use crate::pipelines::ShaderModule;
use crate::resources::SceneUniformData;
use crate::shadowmap::{ShadowData, Shadows};
use crate::texture::{Texture, TextureFormat};

verus! {

/// Transient presentation failures: the frame is skipped, the caller
/// reconfigures the surface and continues.
#[derive(Clone, Copy, PartialEq, Eq, Structural, Debug)]
pub enum SurfaceError {
    Lost,
    Outdated,
    Timeout,
    OutOfMemory,
}

/// The orchestrator's frame states; between calls it is always idle.
#[derive(Clone, Copy, PartialEq, Eq, Structural, Debug)]
pub enum RenderState {
    Idle,
    Encoding,
    Submitted,
}

/// Everything one frame submits: the encoded passes and the surface view
/// they present to.
#[derive(PartialEq, Eq, Debug)]
pub struct FramePlan {
    pub encoder: CommandEncoder,
    pub surface_view: u64,
}

/// State the overlay controls edit; angles and distances carry `f32` bit
/// patterns.
pub struct RendererUIState {
    pub shader_error_message: String,
    pub loader_error_message: String,
    pub shadow_theta: u32,
    pub shadow_phi: u32,
    pub shadow_dist: u32,
    pub fxaa_enabled: bool,
    pub fxaa_params: FxaaParams,
}

/// The orchestrator: every pass, every shared target, and the frame flags.
pub struct Renderer {
    pub config: SurfaceConfig,
    pub scene: Scene,
    pub gbuffers: GBuffers,
    pub shadows: Shadows,
    pub compose_output: Texture,
    pub tonemapping_output: Texture,
    pub write_shadowmaps: WriteShadowmaps,
    pub write_gbuffers: WriteGBuffers,
    pub ssao: SSAO,
    pub compose: Compose,
    pub skybox: Skybox,
    pub tonemapping: Tonemapping,
    pub fxaa: Fxaa,
    pub ssao_enabled: bool,
    pub fxaa_enabled: bool,
    pub state: RenderState,
}

impl Renderer {
    /// The targets the passes hand one another are wired up: the tonemap
    /// pass reads the compose output, the anti-aliasing pass reads the
    /// tonemap output, the occlusion pass reads the depth and normal
    /// G-buffers, every target matches the surface size, every mesh indexes
    /// a real material, and the orchestrator is idle.
    pub open spec fn wf(self) -> bool {
        &&& self.gbuffers.wf(self.config.width, self.config.height)
        &&& self.compose_output.format == TextureFormat::Rgba16Float
        &&& self.tonemapping_output.format == self.config.format
        &&& self.tonemapping.input_view == self.compose_output.view
        &&& self.fxaa.input_view == self.tonemapping_output.view
        &&& self.ssao.depth_view == self.gbuffers.depth.view
        &&& self.ssao.normal_view == self.gbuffers.normal.view
        &&& spec_meshes_materials_in_range(self.scene.meshes@, self.scene.materials@.len() as int)
        &&& self.state is Idle
    }

    /// The frame's intermediate resources whose contents this frame itself
    /// must produce before any pass samples them.
    pub open spec fn spec_frame_intermediates(self) -> Set<u64> {
        let base = Set::empty().insert(self.gbuffers.depth.view).insert(
            self.gbuffers.albedo.view,
        ).insert(self.gbuffers.normal.view).insert(self.gbuffers.material.view).insert(
            self.compose_output.view,
        ).insert(self.shadows.shadowmap.texture.view);
        let with_ssao = if self.ssao_enabled {
            base.insert(self.gbuffers.occlusion.view)
        } else {
            base
        };
        if self.fxaa_enabled {
            with_ssao.insert(self.tonemapping_output.view)
        } else {
            with_ssao
        }
    }

    /// Resources read before this frame writes them must not collide with
    /// the frame's own intermediates: the occlusion kernel and noise, the
    /// shadow-factor slot, the IBL views and the environment cubemap are
    /// all images of their own.
    pub open spec fn spec_ids_distinct(self) -> bool {
        &&& self.ssao.sample_kernel.view != self.compose_output.view
        &&& self.ssao.sample_kernel.view != self.tonemapping_output.view
        &&& self.ssao.sample_kernel.view != self.gbuffers.occlusion.view
        &&& self.ssao.random_noise.view != self.compose_output.view
        &&& self.ssao.random_noise.view != self.tonemapping_output.view
        &&& self.ssao.random_noise.view != self.gbuffers.occlusion.view
        &&& self.gbuffers.shadow.view != self.compose_output.view
        &&& self.gbuffers.shadow.view != self.tonemapping_output.view
        &&& self.gbuffers.occlusion.view != self.compose_output.view
        &&& self.gbuffers.occlusion.view != self.tonemapping_output.view
        &&& self.compose.ibl.brdf_lookup.view != self.compose_output.view
        &&& self.compose.ibl.brdf_lookup.view != self.tonemapping_output.view
        &&& self.compose.ibl.diffuse_radiance.view != self.compose_output.view
        &&& self.compose.ibl.diffuse_radiance.view != self.tonemapping_output.view
        &&& self.compose.ibl.specular_radiance.view != self.compose_output.view
        &&& self.compose.ibl.specular_radiance.view != self.tonemapping_output.view
        &&& self.skybox.cubemap.view != self.tonemapping_output.view
    }

    /// The relational description of one frame's plan for a renderer state:
    /// the fixed pass sequence with the optional occlusion and
    /// anti-aliasing passes in their slots, each record exactly what its
    /// pass encodes, the tonemap output routed through anti-aliasing when
    /// it is enabled and straight to the surface when not, and the UI
    /// overlay drawn last over the surface.
    pub open spec fn spec_frame_plan_ok(self, plan: FramePlan, view: u64) -> bool {
        let ps = plan.encoder.passes@;
        let n_ssao: int = if self.ssao_enabled {
            1int
        } else {
            0int
        };
        let n_fxaa: int = if self.fxaa_enabled {
            1int
        } else {
            0int
        };
        &&& plan.surface_view == view
        &&& ps.len() == 6 + n_ssao + n_fxaa
        &&& spec_shadow_pass_record(ps[0], self.scene, self.shadows, self.write_shadowmaps.pipeline.id)
        &&& spec_write_gbuffers_pass_record(
            ps[1],
            self.scene,
            self.gbuffers,
            self.write_gbuffers.pipeline.id,
        )
        &&& (self.ssao_enabled ==> spec_ssao_pass_record(
            ps[2],
            self.ssao,
            self.scene,
            self.gbuffers.occlusion.view,
        ))
        &&& spec_compose_pass_record(
            ps[2 + n_ssao],
            self.compose,
            self.scene,
            self.gbuffers,
            self.compose_output.view,
        )
        &&& spec_skybox_pass_record(
            ps[3 + n_ssao],
            self.skybox,
            self.scene,
            self.compose_output.view,
            self.gbuffers.depth.view,
        )
        &&& spec_tonemapping_pass_record(
            ps[4 + n_ssao],
            self.tonemapping.input_view,
            self.tonemapping.texture_bind_group.id,
            if self.fxaa_enabled {
                self.tonemapping_output.view
            } else {
                view
            },
            self.tonemapping.pipeline.id,
        )
        &&& (self.fxaa_enabled ==> spec_fxaa_pass_record(
            ps[5 + n_ssao],
            self.fxaa.input_view,
            self.fxaa.bind_group.id,
            view,
            self.fxaa.pipeline.id,
        ))
        &&& spec_ui_pass_record(ps[5 + n_ssao + n_fxaa], view)
    }

    /// Advance the per-frame uniforms: the camera slot of the scene
    /// uniform, the light matrices, and the anti-aliasing thresholds.
    /// Nothing else moves.
    pub fn update(
        &mut self,
        scene_data: SceneUniformData,
        shadow_data: ShadowData,
        fxaa_params: FxaaParams,
    )
        requires
            old(self).wf(),
        ensures
            final(self).wf(),
            final(self).scene.scene.data_0 == scene_data,
            final(self).shadows.uniform.data == shadow_data,
            final(self).fxaa.uniform.data == fxaa_params,
            final(self).scene.scene.data_1 == old(self).scene.scene.data_1,
            final(self).scene.meshes == old(self).scene.meshes,
            final(self).scene.materials == old(self).scene.materials,
            final(self).gbuffers == old(self).gbuffers,
            final(self).compose_output == old(self).compose_output,
            final(self).tonemapping_output == old(self).tonemapping_output,
            final(self).config == old(self).config,
            final(self).ssao_enabled == old(self).ssao_enabled,
            final(self).fxaa_enabled == old(self).fxaa_enabled,
            final(self).spec_ids_distinct() == old(self).spec_ids_distinct(),
    {
        self.scene.scene.update(scene_data);
        self.shadows.update_uniform(shadow_data);
        self.fxaa.uniform.update(fxaa_params);
    }

    /// Rebuild one pass's pipeline from the outcome of a shader
    /// compilation. A compilation failure is returned as the error message
    /// and leaves the pass — and so the next frame — exactly as it was; a
    /// validated module replaces only the pipeline.
    pub fn reload_shader<T: ReloadableShaders>(
        gpu: &mut Gpu,
        config: &SurfaceConfig,
        pass: &mut T,
        index: usize,
        compiled: Result<ShaderModule, String>,
    ) -> (r: Result<(), String>)
        requires
            old(gpu).wf(),
            old(gpu).spec_next_id() + 8 < u64::MAX,
        ensures
            final(gpu).wf(),
            final(gpu).spec_live_textures() == old(gpu).spec_live_textures(),
            final(gpu).alive() == old(gpu).alive(),
            compiled matches Err(msg) ==> {
                &&& *final(pass) == *old(pass)
                &&& *final(gpu) == *old(gpu)
                &&& r == Err::<(), String>(msg)
            },
            compiled matches Ok(shader) ==> {
                &&& r is Ok
                &&& T::spec_reload_ok(*old(pass), *final(pass), *config, shader)
            },
    {
        match compiled {
            Ok(shader_module) => {
                pass.reload(gpu, config, index, shader_module);
                Ok(())
            },
            Err(message) => Err(message),
        }
    }

    /// Encode one frame. A surface acquisition failure is handed back and
    /// the frame is skipped. Otherwise the passes are encoded strictly in
    /// the fixed order into one command buffer and the plan is returned for
    /// submission; the renderer itself ends the call exactly as it began.
    pub fn render(&mut self, acquired: Result<u64, SurfaceError>) -> (r: Result<
        FramePlan,
        SurfaceError,
    >)
        requires
            old(self).wf(),
        ensures
            *final(self) == *old(self),
            acquired matches Err(e) ==> r == Err::<FramePlan, SurfaceError>(e),
            acquired matches Ok(view) ==> (r matches Ok(plan) && old(self).spec_frame_plan_ok(
                plan,
                view,
            )),
    {
        let view = match acquired {
            Ok(view) => view,
            Err(e) => {
                return Err(e);
            },
        };
        self.state = RenderState::Encoding;
        let mut encoder = CommandEncoder::new();

        self.write_shadowmaps.pass(&self.scene, &self.shadows, &mut encoder);
        self.write_gbuffers.pass(&self.scene, &self.gbuffers, &mut encoder);
        if self.ssao_enabled {
            self.ssao.pass(&self.scene, self.gbuffers.occlusion.view, &mut encoder);
        }
        self.compose.pass(&self.scene, &self.gbuffers, self.compose_output.view, &mut encoder);
        self.skybox.pass(
            &self.scene,
            self.compose_output.view,
            self.gbuffers.depth.view,
            &mut encoder,
        );
        if self.fxaa_enabled {
            self.tonemapping.pass(self.tonemapping_output.view, &mut encoder);
            self.fxaa.pass(view, &mut encoder);
        } else {
            self.tonemapping.pass(view, &mut encoder);
        }
        let mut ui_color_attachments: Vec<ColorAttachment> = Vec::new();
        ui_color_attachments.push(ColorAttachment { view, load: LoadOp::Load });
        assert(ui_color_attachments@ =~= seq![ColorAttachment { view, load: LoadOp::Load }]);
        encoder.passes.push(
            PassRecord {
                kind: PassKind::Ui,
                color_attachments: ui_color_attachments,
                depth_attachment: None,
                pipeline: 0,
                bind_groups: Vec::new(),
                reads: Vec::new(),
                mesh_draws: Vec::new(),
                fullscreen_vertices: 0,
            },
        );

        self.state = RenderState::Submitted;
        self.state = RenderState::Idle;
        Ok(FramePlan { encoder, surface_view: view })
    }
}

/// The validated shader modules the passes are built from.
pub struct RendererShaders {
    pub write_shadowmaps: ShaderModule,
    pub write_gbuffers: ShaderModule,
    pub ssao: ShaderModule,
    pub compose: ShaderModule,
    pub skybox: ShaderModule,
    pub tonemapping: ShaderModule,
    pub fxaa: ShaderModule,
}

impl Renderer {
    /// Build the whole frame graph over a loaded scene: the G-buffers, the
    /// shadow map, the HDR and LDR targets, and every pass, wired so the
    /// tonemap pass reads the compose output and the anti-aliasing pass
    /// reads the tonemap output. Creation draws strictly increasing
    /// handles, so the auxiliary images come out distinct from the frame
    /// intermediates, as the pass-ordering law requires.
    pub fn new(
        gpu: &mut Gpu,
        config: SurfaceConfig,
        scene: Scene,
        shadow_data: ShadowData,
        shaders: &RendererShaders,
        brdf_bytes: &Vec<u8>,
        irradiance_bytes: &Vec<u8>,
        prefilter_bytes: &Vec<u8>,
        skybox_bytes: &Vec<u8>,
        ssao_kernel: &Vec<u8>,
        ssao_noise: &Vec<u8>,
    ) -> (r: Result<Renderer, crate::cubemap::CubemapError>)
        requires
            old(gpu).wf(),
            old(gpu).spec_next_id() + 128 < u64::MAX,
            old(gpu).spec_live_textures() + 16 < u64::MAX,
            spec_meshes_materials_in_range(scene.meshes@, scene.materials@.len() as int),
            ssao_kernel@.len() == crate::passes::ssao::SSAO_TEXTURE_BYTES,
            ssao_noise@.len() == crate::passes::ssao::SSAO_TEXTURE_BYTES,
        ensures
            final(gpu).wf(),
            crate::passes::compose::spec_ibl_sources_ok(
                brdf_bytes@,
                irradiance_bytes@,
                prefilter_bytes@,
            ) && (crate::cubemap::spec_dds_read(skybox_bytes@) matches Some(img)
                && img.format_rgba32f && img.is_cubemap
                && crate::cubemap::spec_cubemap_data_sufficient(img)) ==> r is Ok,
            r matches Ok(rr) ==> {
                &&& rr.wf()
                &&& rr.spec_ids_distinct()
                &&& rr.config == config
                &&& rr.scene == scene
                &&& rr.shadows.uniform.data == shadow_data
                &&& rr.shadows.shadowmap.texture.width == config.width
                &&& rr.shadows.shadowmap.texture.height == config.height
                &&& rr.shadows.shadowmap.texture.format == TextureFormat::Depth32Float
                &&& rr.shadows.shadowmap.texture.usage == crate::texture::spec_attachment_usage()
                &&& rr.compose_output.width == config.width
                &&& rr.compose_output.height == config.height
                &&& rr.compose_output.usage == crate::texture::spec_attachment_usage()
                &&& rr.tonemapping_output.width == config.width
                &&& rr.tonemapping_output.height == config.height
                &&& rr.tonemapping_output.format == config.format
                &&& rr.tonemapping_output.usage == crate::texture::spec_attachment_usage()
                &&& (crate::cubemap::spec_dds_read(skybox_bytes@) matches Some(img)
                    && crate::cubemap::spec_cubemap_decodes(rr.skybox.cubemap, img))
                &&& (crate::cubemap::spec_dds_read(irradiance_bytes@) matches Some(i)
                    && crate::cubemap::spec_cubemap_decodes(rr.compose.ibl.diffuse_radiance, i))
                &&& (crate::cubemap::spec_dds_read(prefilter_bytes@) matches Some(p)
                    && crate::cubemap::spec_cubemap_decodes(rr.compose.ibl.specular_radiance, p))
                &&& final(gpu).alive().contains(rr.skybox.cubemap.texture)
                &&& final(gpu).alive().contains(rr.compose.ibl.diffuse_radiance.texture)
                &&& final(gpu).alive().contains(rr.compose.ibl.specular_radiance.texture)
                &&& rr.compose.ibl.diffuse_radiance.texture
                    != rr.compose.ibl.specular_radiance.texture
                &&& crate::passes::write_shadowmaps::spec_shadow_pipeline_ok(
                    rr.write_shadowmaps.pipeline,
                    shaders.write_shadowmaps.id,
                )
                &&& crate::passes::write_gbuffers::spec_write_gbuffers_pipeline_ok(
                    rr.write_gbuffers.pipeline,
                    shaders.write_gbuffers.id,
                )
                &&& crate::passes::ssao::spec_ssao_pipeline_ok(rr.ssao.pipeline, shaders.ssao.id)
                &&& crate::passes::compose::spec_compose_pipeline_ok(
                    rr.compose.pipeline,
                    shaders.compose.id,
                )
                &&& crate::passes::skybox::spec_skybox_pipeline_ok(
                    rr.skybox.pipeline,
                    shaders.skybox.id,
                )
                &&& crate::passes::tonemapping::spec_tonemapping_pipeline_ok(
                    rr.tonemapping.pipeline,
                    config,
                    shaders.tonemapping.id,
                )
                &&& crate::passes::fxaa::spec_fxaa_pipeline_ok(
                    rr.fxaa.pipeline,
                    config,
                    shaders.fxaa.id,
                )
                &&& !rr.ssao_enabled && !rr.fxaa_enabled
                &&& final(gpu).spec_live_textures() == old(gpu).spec_live_textures() + 15
            },
    {
        let gbuffers = GBuffers::new(gpu, config.width, config.height);
        let shadows = Shadows::new(gpu, config.width, config.height, shadow_data);
        let tb_usage = crate::resource_manager::TextureUsages {
            copy_dst: false,
            texture_binding: true,
            render_attachment: true,
        };
        let compose_output = Texture::new(
            gpu,
            config.width,
            config.height,
            TextureFormat::Rgba16Float,
            tb_usage,
            Some("Compose output/Tonemapping input"),
            false,
        );
        let tonemapping_output = Texture::new(
            gpu,
            config.width,
            config.height,
            config.format,
            tb_usage,
            Some("Tonemapping out/Fxaa input"),
            false,
        );
        let write_shadowmaps = WriteShadowmaps::new(gpu, &shaders.write_shadowmaps);
        let write_gbuffers = WriteGBuffers::new(gpu, &shaders.write_gbuffers);
        let ssao = match SSAO::new(gpu, &gbuffers, &shaders.ssao, ssao_kernel, ssao_noise) {
            Ok(s) => s,
            Err(_) => {
                return Err(crate::cubemap::CubemapError::InvalidData);
            },
        };
        let compose = match Compose::new(
            gpu,
            &shaders.compose,
            brdf_bytes,
            irradiance_bytes,
            prefilter_bytes,
        ) {
            Ok(c) => c,
            Err(e) => {
                return Err(e);
            },
        };
        let skybox = match Skybox::new(gpu, &shaders.skybox, skybox_bytes) {
            Ok(s) => s,
            Err(e) => {
                return Err(e);
            },
        };
        let tonemapping = Tonemapping::new(gpu, &config, &compose_output, &shaders.tonemapping);
        let fxaa = Fxaa::new(gpu, &config, &tonemapping_output, &shaders.fxaa);
        let result = Renderer {
                config,
                scene,
                gbuffers,
                shadows,
                compose_output,
                tonemapping_output,
                write_shadowmaps,
                write_gbuffers,
                ssao,
                compose,
                skybox,
                tonemapping,
                fxaa,
                ssao_enabled: false,
                fxaa_enabled: false,
                state: RenderState::Idle,
            };
        Ok(result)
    }
}

/// What the UI overlay pass does: load the surface and draw over it.
pub open spec fn spec_ui_pass_record(rec: PassRecord, view: u64) -> bool {
    &&& rec.kind == PassKind::Ui
    &&& rec.color_attachments@ == seq![ColorAttachment { view, load: LoadOp::Load }]
    &&& rec.depth_attachment is None
    &&& rec.reads@.len() == 0
    &&& rec.mesh_draws@.len() == 0
}

/// Pass ordering, end to end: in every frame plan the orchestrator emits
/// for a well-formed renderer whose auxiliary images are distinct from its
/// frame intermediates, the passes stand in the fixed order — shadow write,
/// geometry write, optional occlusion, compose, skybox, tonemap, optional
/// anti-aliasing, UI overlay — and every frame intermediate a pass samples
/// (G-buffer targets, the shadow map, the HDR compose output, and the
/// tonemap output when anti-aliasing runs) was written as an attachment by
/// an earlier pass of the same frame.
pub proof fn lemma_frame_pass_order(rr: Renderer, plan: FramePlan, view: u64)
    requires
        rr.wf(),
        rr.spec_ids_distinct(),
        rr.spec_frame_plan_ok(plan, view),
    ensures
        ({
            let ps = plan.encoder.passes@;
            let n_ssao: int = if rr.ssao_enabled {
                1int
            } else {
                0int
            };
            let n_fxaa: int = if rr.fxaa_enabled {
                1int
            } else {
                0int
            };
            &&& ps[0].kind == PassKind::WriteShadowmaps
            &&& ps[1].kind == PassKind::WriteGBuffers
            &&& (rr.ssao_enabled ==> ps[2].kind == PassKind::Ssao)
            &&& ps[2 + n_ssao].kind == PassKind::Compose
            &&& ps[3 + n_ssao].kind == PassKind::Skybox
            &&& ps[4 + n_ssao].kind == PassKind::Tonemapping
            &&& (rr.fxaa_enabled ==> ps[5 + n_ssao].kind == PassKind::Fxaa)
            &&& ps[ps.len() - 1].kind == PassKind::Ui
        }),
        spec_reads_follow_writes(plan.encoder.passes@, rr.spec_frame_intermediates()),
{
    let ps = plan.encoder.passes@;
    let checked = rr.spec_frame_intermediates();
    let n_ssao: int = if rr.ssao_enabled {
        1int
    } else {
        0int
    };
    assert forall|i: int, r: int|
        0 <= i < ps.len() && 0 <= r < (#[trigger] ps[i]).reads@.len() && checked.contains(
            #[trigger] ps[i].reads@[r],
        ) implies exists|j: int|
        0 <= j < i && spec_pass_writes(#[trigger] ps[j]).contains(ps[i].reads@[r]) by {
        let v = ps[i].reads@[r];
        // A value can only satisfy the claim through the pass that attached
        // it: the shadow map at the shadow pass, depth and the three color
        // targets at the geometry pass, the occlusion slot at the occlusion
        // pass, the HDR target at the compose pass, the tonemap output at
        // the tonemap pass. Every sampled image that none of them attaches
        // is distinct from the unwritten intermediates, so a checked value
        // always has its writer.
        if v == rr.shadows.shadowmap.texture.view && i > 0 {
            assert(ps[0].depth_attachment matches Some(d) && d.view == v);
            assert(spec_pass_writes(ps[0]).contains(v));
        } else if v == rr.gbuffers.depth.view && i > 1 {
            assert(ps[1].depth_attachment matches Some(d) && d.view == v);
            assert(spec_pass_writes(ps[1]).contains(v));
        } else if (v == rr.gbuffers.albedo.view || v == rr.gbuffers.normal.view || v
            == rr.gbuffers.material.view) && i > 1 {
            assert(spec_pass_writes(ps[1]).contains(v)) by {
                if v == rr.gbuffers.albedo.view {
                    assert(ps[1].color_attachments@[0].view == v);
                } else if v == rr.gbuffers.normal.view {
                    assert(ps[1].color_attachments@[1].view == v);
                } else {
                    assert(ps[1].color_attachments@[2].view == v);
                }
            }
        } else if rr.ssao_enabled && v == rr.gbuffers.occlusion.view && i > 2 {
            assert(ps[2].color_attachments@[0].view == v);
            assert(spec_pass_writes(ps[2]).contains(v));
        } else if v == rr.compose_output.view && i > 2 + n_ssao {
            assert(ps[2 + n_ssao].color_attachments@[0].view == v);
            assert(spec_pass_writes(ps[2 + n_ssao]).contains(v));
        } else if v == rr.tonemapping_output.view && i > 4 + n_ssao {
            assert(ps[4 + n_ssao].color_attachments@[0].view == v);
            assert(spec_pass_writes(ps[4 + n_ssao]).contains(v));
        } else {
            // No pass earlier in the frame attached this value, so it must
            // not be a checked intermediate at all; each sampled auxiliary
            // image is distinct from the still-unwritten intermediates.
            assert(!checked.contains(v));
        }
    }
}

} // verus!
