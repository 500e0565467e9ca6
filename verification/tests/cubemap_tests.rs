//! DDS cubemap decoding: container checks, mip-chain slicing, hot-swap
//! discipline.

use oceanman::cubemap::{Cubemap, CubemapError};
use oceanman::gpu::Gpu;
use oceanman::texture::TextureFormat;

/// Build a DDS container in memory: an `A32B32G32R32F` image, optionally
/// flagged as a cubemap, with a recognizable byte pattern as payload.
fn make_dds(width: u32, height: u32, mips: Option<u32>, cubemap: bool, format: ddsfile::D3DFormat) -> Vec<u8> {
    let mut dds = ddsfile::Dds::new_d3d(ddsfile::NewD3dParams {
        height,
        width,
        depth: None,
        format,
        mipmap_levels: mips,
        caps2: if cubemap { Some(ddsfile::Caps2::CUBEMAP) } else { None },
    })
    .unwrap();
    if format == ddsfile::D3DFormat::A32B32G32R32F {
        // ddsfile writes float formats with a bit-count pixel format; the
        // reader only recognizes them by their FourCC, so pin that form.
        dds.header.spf.flags = ddsfile::PixelFormatFlags::FOURCC;
        dds.header.spf.fourcc = Some(ddsfile::FourCC(ddsfile::FourCC::A32B32G32R32F));
        dds.header.spf.rgb_bit_count = None;
    }
    // The container helper sizes the payload for one face; a cubemap
    // carries six chains.
    let mip_count = mips.unwrap_or(1);
    let mut chain: usize = 0;
    for m in 0..mip_count {
        chain += 16 * ((width >> m) as usize) * ((height >> m) as usize);
    }
    let faces = if cubemap { 6 } else { 1 };
    dds.data = (0..faces * chain).map(|i| (i % 251) as u8).collect();
    let mut out = Vec::new();
    dds.write(&mut out).unwrap();
    out
}

#[test]
fn cubemap_decodes_single_mip_faces() {
    let mut gpu = Gpu::new();
    let bytes = make_dds(4, 4, None, true, ddsfile::D3DFormat::A32B32G32R32F);
    let cubemap = Cubemap::from_dds(&mut gpu, &bytes).unwrap();
    assert_eq!(cubemap.format, TextureFormat::Rgba16Float);
    assert_eq!((cubemap.width, cubemap.height), (4, 4));
    assert_eq!(cubemap.mip_count, 1);
    assert_eq!(cubemap.levels.len(), 6);
    assert_eq!(gpu.live_texture_count(), 1);

    // One face holds 4*4 texels of 16 bytes each; faces follow one another.
    let face_bytes = 4 * 4 * 16;
    for (j, level) in cubemap.levels.iter().enumerate() {
        assert_eq!(level.face as usize, j);
        assert_eq!(level.mip, 0);
        assert_eq!((level.width, level.height), (4, 4));
        assert_eq!(level.data.len(), face_bytes);
        assert_eq!(level.data[0], ((j * face_bytes) % 251) as u8);
    }
}

#[test]
fn cubemap_decodes_mip_chains_in_face_major_order() {
    let mut gpu = Gpu::new();
    let bytes = make_dds(4, 4, Some(2), true, ddsfile::D3DFormat::A32B32G32R32F);
    let cubemap = Cubemap::from_dds(&mut gpu, &bytes).unwrap();
    assert_eq!(cubemap.mip_count, 2);
    assert_eq!(cubemap.levels.len(), 12);
    // Face 0 mip 0 is 4x4, face 0 mip 1 is 2x2, then face 1 starts.
    assert_eq!((cubemap.levels[0].face, cubemap.levels[0].mip), (0, 0));
    assert_eq!((cubemap.levels[0].width, cubemap.levels[0].height), (4, 4));
    assert_eq!((cubemap.levels[1].face, cubemap.levels[1].mip), (0, 1));
    assert_eq!((cubemap.levels[1].width, cubemap.levels[1].height), (2, 2));
    assert_eq!((cubemap.levels[2].face, cubemap.levels[2].mip), (1, 0));
    assert_eq!(cubemap.levels[0].data.len(), 4 * 4 * 16);
    assert_eq!(cubemap.levels[1].data.len(), 2 * 2 * 16);
    // Face 1 mip 0 starts right after face 0's whole chain.
    let chain = 4 * 4 * 16 + 2 * 2 * 16;
    assert_eq!(cubemap.levels[2].data[0], (chain % 251) as u8);
}

#[test]
fn wrong_pixel_format_is_refused() {
    let mut gpu = Gpu::new();
    let bytes = make_dds(4, 4, None, true, ddsfile::D3DFormat::A8R8G8B8);
    assert_eq!(Cubemap::from_dds(&mut gpu, &bytes).unwrap_err(), CubemapError::WrongFormat);
    assert_eq!(gpu.live_texture_count(), 0);
}

#[test]
fn missing_cubemap_flag_is_refused() {
    let mut gpu = Gpu::new();
    let bytes = make_dds(4, 4, None, false, ddsfile::D3DFormat::A32B32G32R32F);
    assert_eq!(Cubemap::from_dds(&mut gpu, &bytes).unwrap_err(), CubemapError::NotACubemap);
}

#[test]
fn garbage_bytes_are_refused() {
    let mut gpu = Gpu::new();
    let bytes = vec![7u8; 64];
    assert_eq!(Cubemap::from_dds(&mut gpu, &bytes).unwrap_err(), CubemapError::InvalidData);
}

#[test]
fn truncated_payload_is_refused() {
    let mut gpu = Gpu::new();
    let mut dds = ddsfile::Dds::new_d3d(ddsfile::NewD3dParams {
        height: 4,
        width: 4,
        depth: None,
        format: ddsfile::D3DFormat::A32B32G32R32F,
        mipmap_levels: None,
        caps2: Some(ddsfile::Caps2::CUBEMAP),
    })
    .unwrap();
    dds.header.spf.flags = ddsfile::PixelFormatFlags::FOURCC;
    dds.header.spf.fourcc = Some(ddsfile::FourCC(ddsfile::FourCC::A32B32G32R32F));
    dds.header.spf.rgb_bit_count = None;
    dds.data = vec![3u8; 6 * 16 * 4 * 4 / 2];
    let mut bytes = Vec::new();
    dds.write(&mut bytes).unwrap();
    assert_eq!(Cubemap::from_dds(&mut gpu, &bytes).unwrap_err(), CubemapError::TruncatedData);
    assert_eq!(gpu.live_texture_count(), 0);
}
