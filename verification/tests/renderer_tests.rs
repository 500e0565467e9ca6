//! The frame orchestrator: pass ordering, output routing, hot-reload and
//! hot-swap behavior.

use oceanman::gpu::Gpu;
use oceanman::loader::Scene;
use oceanman::passes::{LoadOp, PassKind, SurfaceConfig};
use oceanman::pipelines::ShaderModule;
use oceanman::renderer::{Renderer, RendererShaders, SurfaceError};
use oceanman::resources::SceneUniformData;
use oceanman::shadowmap::ShadowData;
use oceanman::texture::TextureFormat;

fn make_dds(width: u32, height: u32, cubemap: bool) -> Vec<u8> {
    let mut dds = ddsfile::Dds::new_d3d(ddsfile::NewD3dParams {
        height,
        width,
        depth: None,
        format: ddsfile::D3DFormat::A32B32G32R32F,
        mipmap_levels: None,
        caps2: if cubemap { Some(ddsfile::Caps2::CUBEMAP) } else { None },
    })
    .unwrap();
    // ddsfile writes float formats with a bit-count pixel format; the
    // reader only recognizes them by their FourCC, so pin that form.
    dds.header.spf.flags = ddsfile::PixelFormatFlags::FOURCC;
    dds.header.spf.fourcc = Some(ddsfile::FourCC(ddsfile::FourCC::A32B32G32R32F));
    dds.header.spf.rgb_bit_count = None;
    // The container helper sizes the payload for one face; a cubemap
    // carries six chains.
    let faces = if cubemap { 6 } else { 1 };
    let chain = 16 * (width as usize) * (height as usize);
    dds.data = (0..faces * chain).map(|i| (i % 199) as u8).collect();
    let mut out = Vec::new();
    dds.write(&mut out).unwrap();
    out
}

fn shaders() -> RendererShaders {
    RendererShaders {
        write_shadowmaps: ShaderModule { id: 9001 },
        write_gbuffers: ShaderModule { id: 9002 },
        ssao: ShaderModule { id: 9003 },
        compose: ShaderModule { id: 9004 },
        skybox: ShaderModule { id: 9005 },
        tonemapping: ShaderModule { id: 9006 },
        fxaa: ShaderModule { id: 9007 },
    }
}

fn make_renderer(gpu: &mut Gpu) -> Renderer {
    let config = SurfaceConfig { width: 1600, height: 900, format: TextureFormat::Bgra8UnormSrgb };
    let scene = Scene::new(gpu, SceneUniformData::new());
    let shadow_data = ShadowData::new(
        oceanman::mat4::mat4_identity(),
        oceanman::mat4::mat4_identity(),
    );
    Renderer::new(
        gpu,
        config,
        scene,
        shadow_data,
        &shaders(),
        &make_dds(4, 4, false),
        &make_dds(4, 4, true),
        &make_dds(4, 4, true),
        &make_dds(4, 4, true),
        &vec![0u8; 128],
        &vec![0u8; 128],
    )
    .unwrap()
}

fn kinds(plan: &oceanman::renderer::FramePlan) -> Vec<PassKind> {
    plan.encoder.passes.iter().map(|p| p.kind).collect()
}

#[test]
fn renderer_construction_tracks_its_live_textures() {
    let mut gpu = Gpu::new();
    let rr = make_renderer(&mut gpu);
    assert_eq!(gpu.live_texture_count(), 15);
    assert!(!rr.ssao_enabled);
    assert!(!rr.fxaa_enabled);
}

#[test]
fn renderer_targets_share_the_surface_size() {
    let mut gpu = Gpu::new();
    let rr = make_renderer(&mut gpu);
    assert_eq!((rr.config.width, rr.config.height), (1600, 900));
    for t in [
        &rr.gbuffers.depth,
        &rr.gbuffers.albedo,
        &rr.gbuffers.normal,
        &rr.gbuffers.material,
        &rr.gbuffers.occlusion,
        &rr.gbuffers.shadow,
        &rr.shadows.shadowmap.texture,
        &rr.compose_output,
        &rr.tonemapping_output,
    ] {
        assert_eq!((t.width, t.height), (1600, 900));
        assert!(t.usage.render_attachment && t.usage.texture_binding);
    }
    assert_eq!(rr.compose_output.format, TextureFormat::Rgba16Float);
    assert_eq!(rr.tonemapping_output.format, TextureFormat::Bgra8UnormSrgb);
    assert_eq!(rr.shadows.shadowmap.texture.format, TextureFormat::Depth32Float);
}

#[test]
fn frame_passes_run_in_the_fixed_order() {
    let mut gpu = Gpu::new();
    let mut rr = make_renderer(&mut gpu);
    let plan = rr.render(Ok(42)).unwrap();
    assert_eq!(plan.surface_view, 42);
    assert_eq!(
        kinds(&plan),
        vec![
            PassKind::WriteShadowmaps,
            PassKind::WriteGBuffers,
            PassKind::Compose,
            PassKind::Skybox,
            PassKind::Tonemapping,
            PassKind::Ui,
        ]
    );
    // Without anti-aliasing the tonemap pass writes the surface directly.
    assert_eq!(plan.encoder.passes[4].color_attachments[0].view, 42);
}

#[test]
fn optional_passes_slot_into_their_places() {
    let mut gpu = Gpu::new();
    let mut rr = make_renderer(&mut gpu);
    rr.ssao_enabled = true;
    rr.fxaa_enabled = true;
    let plan = rr.render(Ok(7)).unwrap();
    assert_eq!(
        kinds(&plan),
        vec![
            PassKind::WriteShadowmaps,
            PassKind::WriteGBuffers,
            PassKind::Ssao,
            PassKind::Compose,
            PassKind::Skybox,
            PassKind::Tonemapping,
            PassKind::Fxaa,
            PassKind::Ui,
        ]
    );
    // With anti-aliasing enabled the tonemap output routes through it.
    let tonemap = &plan.encoder.passes[5];
    assert_eq!(tonemap.color_attachments[0].view, rr.tonemapping_output.view);
    let fxaa = &plan.encoder.passes[6];
    assert_eq!(fxaa.color_attachments[0].view, 7);
    assert_eq!(fxaa.reads[0], rr.tonemapping_output.view);
    // The occlusion pass writes the occlusion G-buffer and samples depth
    // and normal.
    let ssao = &plan.encoder.passes[2];
    assert_eq!(ssao.color_attachments[0].view, rr.gbuffers.occlusion.view);
    assert_eq!(ssao.reads[0], rr.gbuffers.depth.view);
    assert_eq!(ssao.reads[1], rr.gbuffers.normal.view);
}

#[test]
fn skybox_loads_and_never_clears_the_shared_targets() {
    let mut gpu = Gpu::new();
    let mut rr = make_renderer(&mut gpu);
    let plan = rr.render(Ok(1)).unwrap();
    let skybox = &plan.encoder.passes[3];
    assert_eq!(skybox.color_attachments[0].load, LoadOp::Load);
    assert_eq!(skybox.color_attachments[0].view, rr.compose_output.view);
    let depth = skybox.depth_attachment.as_ref().unwrap();
    assert_eq!(depth.load, LoadOp::Load);
    assert_eq!(depth.view, rr.gbuffers.depth.view);
    // The tonemap pass reads what the compose pass wrote.
    let compose = &plan.encoder.passes[2];
    assert_eq!(compose.color_attachments[0].view, rr.compose_output.view);
    let tonemap = &plan.encoder.passes[4];
    assert_eq!(tonemap.reads[0], rr.compose_output.view);
}

#[test]
fn failed_acquisition_skips_the_frame() {
    let mut gpu = Gpu::new();
    let mut rr = make_renderer(&mut gpu);
    let r = rr.render(Err(SurfaceError::Outdated));
    assert_eq!(r.unwrap_err(), SurfaceError::Outdated);
    // The next frame proceeds normally.
    assert!(rr.render(Ok(3)).is_ok());
}

#[test]
fn failed_shader_reload_leaves_the_next_frame_identical() {
    let mut gpu = Gpu::new();
    let mut rr = make_renderer(&mut gpu);
    let config = rr.config;
    let before = rr.render(Ok(5)).unwrap();
    let pipeline_before = rr.tonemapping.pipeline.id;

    let r = Renderer::reload_shader(
        &mut gpu,
        &config,
        &mut rr.tonemapping,
        0,
        Err(String::from("unexpected token")),
    );
    assert_eq!(r.unwrap_err(), String::from("unexpected token"));
    assert_eq!(rr.tonemapping.pipeline.id, pipeline_before);

    let after = rr.render(Ok(5)).unwrap();
    assert_eq!(before, after);
}

#[test]
fn successful_shader_reload_replaces_only_the_pipeline() {
    let mut gpu = Gpu::new();
    let mut rr = make_renderer(&mut gpu);
    let config = rr.config;
    let before = rr.render(Ok(5)).unwrap();
    let bind_group_before = rr.tonemapping.texture_bind_group.id;

    let r = Renderer::reload_shader(
        &mut gpu,
        &config,
        &mut rr.tonemapping,
        0,
        Ok(ShaderModule { id: 31337 }),
    );
    assert!(r.is_ok());
    assert_eq!(rr.tonemapping.texture_bind_group.id, bind_group_before);
    assert_eq!(rr.tonemapping.pipeline.desc.shader, 31337);

    let after = rr.render(Ok(5)).unwrap();
    assert_ne!(before, after);
    // Only the tonemap record's pipeline changed.
    assert_eq!(before.encoder.passes[4].reads, after.encoder.passes[4].reads);
}

#[test]
fn skybox_hot_swap_does_not_leak_and_replaces_the_image() {
    let mut gpu = Gpu::new();
    let mut rr = make_renderer(&mut gpu);
    let live_before = gpu.live_texture_count();
    let old_texture = rr.skybox.cubemap.texture;

    rr.skybox.update_cubemap(&mut gpu, &make_dds(8, 8, true)).unwrap();
    assert_eq!(gpu.live_texture_count(), live_before);
    assert_ne!(rr.skybox.cubemap.texture, old_texture);
    assert_eq!(rr.skybox.cubemap.width, 8);
    // The installed cubemap holds the new payload, face after face.
    assert_eq!(rr.skybox.cubemap.levels.len(), 6);
    let face_bytes = 16 * 8 * 8;
    for (j, level) in rr.skybox.cubemap.levels.iter().enumerate() {
        assert_eq!(level.data.len(), face_bytes);
        assert_eq!(level.data[0], ((j * face_bytes) % 199) as u8);
    }

    // The next frame samples the new cubemap.
    let plan = rr.render(Ok(2)).unwrap();
    assert_eq!(plan.encoder.passes[3].reads[0], rr.skybox.cubemap.view);
}

#[test]
fn failed_skybox_hot_swap_keeps_the_previous_cubemap() {
    let mut gpu = Gpu::new();
    let mut rr = make_renderer(&mut gpu);
    let live_before = gpu.live_texture_count();
    let old_texture = rr.skybox.cubemap.texture;
    let old_bind_group = rr.skybox.cubemap_bind_group.id;

    let r = rr.skybox.update_cubemap(&mut gpu, &make_dds(4, 4, false));
    assert!(r.is_err());
    assert_eq!(gpu.live_texture_count(), live_before);
    assert_eq!(rr.skybox.cubemap.texture, old_texture);
    assert_eq!(rr.skybox.cubemap_bind_group.id, old_bind_group);
}

#[test]
fn ibl_hot_swap_does_not_leak() {
    let mut gpu = Gpu::new();
    let mut rr = make_renderer(&mut gpu);
    let live_before = gpu.live_texture_count();
    let old_diffuse = rr.compose.ibl.diffuse_radiance.texture;
    let old_specular = rr.compose.ibl.specular_radiance.texture;

    rr.compose.ibl.update(&mut gpu, Some(&make_dds(8, 8, true)), None).unwrap();
    assert_eq!(gpu.live_texture_count(), live_before);
    assert_ne!(rr.compose.ibl.diffuse_radiance.texture, old_diffuse);
    assert_eq!(rr.compose.ibl.specular_radiance.texture, old_specular);

    // A bad payload touches nothing, not even when the other slot is valid.
    let r = rr.compose.ibl.update(&mut gpu, Some(&make_dds(8, 8, true)), Some(&vec![1u8; 9]));
    assert!(r.is_err());
    assert_eq!(gpu.live_texture_count(), live_before);
}

#[test]
fn update_pushes_the_per_frame_uniforms() {
    let mut gpu = Gpu::new();
    let mut rr = make_renderer(&mut gpu);
    let camera = SceneUniformData::new();
    let shadow = ShadowData::new(
        oceanman::mat4::mat4_identity(),
        oceanman::mat4::mat4_identity(),
    );
    let mut fxaa = oceanman::passes::fxaa::FxaaParams::default();
    fxaa.search_steps = 8.0f32.to_bits();
    rr.update(camera, shadow, fxaa);
    assert_eq!(rr.fxaa.uniform.data.search_steps, 8.0f32.to_bits());
}
