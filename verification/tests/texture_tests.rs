//! Texture creation: the byte-size table and the upload validation.

use oceanman::gpu::Gpu;
use oceanman::resource_manager::{TextureSampleType, TextureUsages};
use oceanman::texture::{bytes_per_pixel, sample_type_of, Texture, TextureError, TextureFormat};

fn upload_usage() -> TextureUsages {
    TextureUsages { copy_dst: true, texture_binding: true, render_attachment: false }
}

#[test]
fn bytes_per_pixel_table() {
    assert_eq!(bytes_per_pixel(TextureFormat::Rgba8Unorm), Some(4));
    assert_eq!(bytes_per_pixel(TextureFormat::Rgba8UnormSrgb), Some(4));
    assert_eq!(bytes_per_pixel(TextureFormat::Rgba16Float), Some(8));
    assert_eq!(bytes_per_pixel(TextureFormat::Rgba32Float), Some(16));
    assert_eq!(bytes_per_pixel(TextureFormat::Rg16Float), Some(4));
    assert_eq!(bytes_per_pixel(TextureFormat::Depth32Float), None);
    assert_eq!(bytes_per_pixel(TextureFormat::R16Float), None);
    assert_eq!(bytes_per_pixel(TextureFormat::Bgra8UnormSrgb), None);
}

#[test]
fn sample_types_derive_from_format() {
    assert_eq!(sample_type_of(TextureFormat::Depth32Float), TextureSampleType::Depth);
    assert_eq!(sample_type_of(TextureFormat::Rgba8Unorm), TextureSampleType::Float);
    assert_eq!(sample_type_of(TextureFormat::Rgba16Float), TextureSampleType::Float);
}

#[test]
fn texture_upload_accepts_exact_byte_count() {
    let mut gpu = Gpu::new();
    let bytes = vec![0u8; 4 * 2 * 3];
    let t = Texture::new_from_bytes(
        &mut gpu,
        &bytes,
        2,
        3,
        TextureFormat::Rgba8Unorm,
        upload_usage(),
        None,
        false,
    )
    .unwrap();
    assert_eq!(t.width, 2);
    assert_eq!(t.height, 3);
    assert_eq!(t.sample_type, TextureSampleType::Float);
    assert_eq!(gpu.live_texture_count(), 1);
}

#[test]
fn texture_upload_rejects_short_buffer() {
    let mut gpu = Gpu::new();
    let bytes = vec![0u8; 4 * 2 * 3 - 1];
    let r = Texture::new_from_bytes(
        &mut gpu,
        &bytes,
        2,
        3,
        TextureFormat::Rgba8Unorm,
        upload_usage(),
        None,
        false,
    );
    assert_eq!(r, Err(TextureError::DataSizeMismatch));
    assert_eq!(gpu.live_texture_count(), 0);
}

#[test]
fn texture_upload_rejects_long_buffer() {
    let mut gpu = Gpu::new();
    let bytes = vec![0u8; 4 * 2 * 3 + 4];
    let r = Texture::new_from_bytes(
        &mut gpu,
        &bytes,
        2,
        3,
        TextureFormat::Rgba8Unorm,
        upload_usage(),
        None,
        false,
    );
    assert_eq!(r, Err(TextureError::DataSizeMismatch));
}

#[test]
fn texture_upload_rejects_format_without_byte_layout() {
    let mut gpu = Gpu::new();
    let bytes = vec![0u8; 16];
    let r = Texture::new_from_bytes(
        &mut gpu,
        &bytes,
        2,
        2,
        TextureFormat::Depth32Float,
        upload_usage(),
        None,
        false,
    );
    assert_eq!(r, Err(TextureError::UnsupportedFormat));
}

#[test]
fn one_by_one_fallback_texture() {
    let mut gpu = Gpu::new();
    let data = vec![255u8, 255, 255, 255];
    let t = Texture::new_1x1_texture(
        &mut gpu,
        &data,
        TextureFormat::Rgba8UnormSrgb,
        upload_usage(),
        None,
    )
    .unwrap();
    assert_eq!((t.width, t.height), (1, 1));
}

#[test]
fn depth_texture_is_pinned_to_depth_format() {
    let mut gpu = Gpu::new();
    let t = Texture::new_depth_texture(&mut gpu, 1600, 900, false);
    assert_eq!(t.format, TextureFormat::Depth32Float);
    assert_eq!(t.sample_type, TextureSampleType::Depth);
    assert_eq!((t.width, t.height), (1600, 900));
}

#[test]
fn texture_usage_is_recorded() {
    let mut gpu = Gpu::new();
    let bytes = vec![0u8; 4];
    let t = Texture::new_from_bytes(
        &mut gpu,
        &bytes,
        1,
        1,
        TextureFormat::Rgba8Unorm,
        upload_usage(),
        None,
        false,
    )
    .unwrap();
    assert_eq!(t.usage, upload_usage());

    let d = Texture::new_depth_texture(&mut gpu, 8, 8, false);
    assert_eq!(
        d.usage,
        TextureUsages { copy_dst: false, texture_binding: true, render_attachment: true }
    );
}

#[test]
fn uploaded_bytes_are_carried_by_the_texture() {
    let mut gpu = Gpu::new();
    let bytes = vec![9u8, 8, 7, 6];
    let t = Texture::new_from_bytes(
        &mut gpu,
        &bytes,
        1,
        1,
        TextureFormat::Rgba8Unorm,
        upload_usage(),
        None,
        false,
    )
    .unwrap();
    assert_eq!(t.contents, bytes);

    let target = Texture::new_depth_texture(&mut gpu, 4, 4, false);
    assert!(target.contents.is_empty());
}
