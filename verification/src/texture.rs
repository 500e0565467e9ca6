//! Texture and sampler wrappers with format-derived metadata.
//!
//! A texture knows its size, format and the sample type a shader must use
//! for it; the format decides how many bytes one texel occupies, and an
//! upload whose byte length does not agree with
//! `bytes_per_pixel(format) * width * height` is rejected outright rather
//! than truncated or padded — a mismatch means the loader handed over the
//! wrong buffer.

use vstd::prelude::*;

use crate::gpu::Gpu;
use crate::resource_manager::{
    BindGroupEntry, BindGroupLayoutEntry, BindingResource, BindingType, CompareFunction,
    SamplerType, ShaderStages, TextureSampleType, TextureUsages, TextureViewDimension,
};

verus! {

/// The image formats the renderer uses.
#[derive(Clone, Copy, PartialEq, Eq, Structural, Debug)]
pub enum TextureFormat {
    Rgba8Unorm,
    Rgba8UnormSrgb,
    Bgra8UnormSrgb,
    Rgba16Float,
    Rg16Float,
    R16Float,
    Rgba32Float,
    Depth32Float,
}

/// The fixed format of every depth attachment.
pub open spec fn spec_depth_format() -> TextureFormat {
    TextureFormat::Depth32Float
}

/// The usage every render target of the frame graph carries: drawn into as
/// an attachment and sampled by later passes.
pub open spec fn spec_attachment_usage() -> TextureUsages {
    TextureUsages { copy_dst: false, texture_binding: true, render_attachment: true }
}

/// The usage of an uploaded image: written from the host and sampled.
pub open spec fn spec_upload_usage() -> TextureUsages {
    TextureUsages { copy_dst: true, texture_binding: true, render_attachment: false }
}

/// Bytes one texel occupies, for the formats that accept byte uploads;
/// `None` for the formats that are only ever rendered to.
pub open spec fn spec_bytes_per_pixel(format: TextureFormat) -> Option<u64> {
    match format {
        TextureFormat::Rgba8UnormSrgb => Some(4u64),
        TextureFormat::Rgba8Unorm => Some(4u64),
        TextureFormat::Rgba16Float => Some(8u64),
        TextureFormat::Rgba32Float => Some(16u64),
        TextureFormat::Rg16Float => Some(4u64),
        _ => None,
    }
}

/// How a shader samples the format: depth formats as `Depth`, every color
/// format as filterable `Float`.
pub open spec fn spec_sample_type(format: TextureFormat) -> TextureSampleType {
    match format {
        TextureFormat::Depth32Float => TextureSampleType::Depth,
        _ => TextureSampleType::Float,
    }
}

/// Why a texture construction was refused; both cases are configuration
/// errors that the caller treats as fatal.
#[derive(Clone, Copy, PartialEq, Eq, Debug)]
pub enum TextureError {
    /// The format has no entry in the byte-size table, so a byte upload
    /// cannot be laid out for it.
    UnsupportedFormat,
    /// The upload's length does not equal
    /// `bytes_per_pixel(format) * width * height`.
    DataSizeMismatch,
}

/// An image, its default view, the sample type shaders must declare for
/// it, the usage it was allocated with, and the texel bytes uploaded into
/// it (empty for a render target) — size, format and usage are fixed at
/// construction and never change; a resize must destroy and recreate.
#[derive(Clone, PartialEq, Eq, Debug)]
pub struct Texture {
    pub sample_type: TextureSampleType,
    pub texture: u64,
    pub view: u64,
    pub width: u32,
    pub height: u32,
    pub format: TextureFormat,
    pub usage: TextureUsages,
    pub contents: Vec<u8>,
}

pub fn bytes_per_pixel(format: TextureFormat) -> (r: Option<u64>)
    ensures
        r == spec_bytes_per_pixel(format),
{
    match format {
        TextureFormat::Rgba8UnormSrgb => Some(4u64),
        TextureFormat::Rgba8Unorm => Some(4u64),
        TextureFormat::Rgba16Float => Some(8u64),
        TextureFormat::Rgba32Float => Some(16u64),
        TextureFormat::Rg16Float => Some(4u64),
        _ => None,
    }
}

pub fn sample_type_of(format: TextureFormat) -> (r: TextureSampleType)
    ensures
        r == spec_sample_type(format),
{
    match format {
        TextureFormat::Depth32Float => TextureSampleType::Depth,
        _ => TextureSampleType::Float,
    }
}

/// Fields a freshly created texture must carry, relative to the `Gpu` state
/// before and after creation.
pub open spec fn spec_texture_created(
    t: Texture,
    gpu_old: Gpu,
    gpu_new: Gpu,
    width: u32,
    height: u32,
    format: TextureFormat,
    usage: TextureUsages,
    contents: Seq<u8>,
) -> bool {
    &&& t.width == width
    &&& t.height == height
    &&& t.format == format
    &&& t.usage == usage
    &&& t.contents@ == contents
    &&& t.sample_type == spec_sample_type(format)
    &&& gpu_new.wf()
    &&& gpu_old.spec_next_id() <= gpu_new.spec_next_id() <= gpu_old.spec_next_id() + 2
    &&& gpu_old.spec_next_id() <= t.texture < gpu_new.spec_next_id()
    &&& gpu_old.spec_next_id() <= t.view < gpu_new.spec_next_id()
    &&& t.texture != t.view
    &&& gpu_new.spec_live_textures() == gpu_old.spec_live_textures() + 1
    &&& gpu_new.alive() == gpu_old.alive().insert(t.texture)
    &&& !gpu_old.alive().contains(t.texture)
}

impl Texture {
    /// Create a texture and upload `bytes` as its contents. The upload is
    /// accepted exactly when the format has a byte layout and the buffer
    /// length equals `bytes_per_pixel(format) * width * height`.
    pub fn new_from_bytes(
        gpu: &mut Gpu,
        bytes: &Vec<u8>,
        width: u32,
        height: u32,
        format: TextureFormat,
        usage: TextureUsages,
        label: Option<&'static str>,
        debug: bool,
    ) -> (r: Result<Texture, TextureError>)
        requires
            old(gpu).wf(),
            old(gpu).spec_next_id() + 2 < u64::MAX,
            old(gpu).spec_live_textures() < u64::MAX,
        ensures
            spec_bytes_per_pixel(format) is None ==> r == Err::<Texture, TextureError>(
                TextureError::UnsupportedFormat,
            ),
            spec_bytes_per_pixel(format) matches Some(bpp) && bytes@.len() != bpp * width * height
                ==> r == Err::<Texture, TextureError>(TextureError::DataSizeMismatch),
            spec_bytes_per_pixel(format) matches Some(bpp) && bytes@.len() == bpp * width * height
                ==> (r matches Ok(t) && spec_texture_created(t, *old(gpu), *final(gpu), width, height, format, usage, bytes@)),
            r is Err ==> *final(gpu) == *old(gpu),
    {
        let bpp = match bytes_per_pixel(format) {
            Some(bpp) => bpp,
            None => {
                return Err(TextureError::UnsupportedFormat);
            },
        };
        proof {
            let b = bpp as int;
            let w = width as int;
            let h = height as int;
            assert(b * w < 0x1_0000_0000_0000_0000) by (nonlinear_arith)
                requires
                    0 <= b <= 16,
                    0 <= w < 0x1_0000_0000,
            ;
            assert(b * w * h < 0x1_0000_0000_0000_0000_0000_0000) by (nonlinear_arith)
                requires
                    0 <= b <= 16,
                    0 <= w < 0x1_0000_0000,
                    0 <= h < 0x1_0000_0000,
            ;
        }
        let expected: u128 = (bpp as u128) * (width as u128) * (height as u128);
        if (bytes.len() as u128) != expected {
            return Err(TextureError::DataSizeMismatch);
        }
        let texture = gpu.fresh_texture_id();
        let view = gpu.fresh_id();
        let mut contents: Vec<u8> = Vec::new();
        let mut i: usize = 0;
        let n = bytes.len();
        while i < n
            invariant
                0 <= i <= n,
                n == bytes@.len(),
                contents@ == bytes@.take(i as int),
            decreases n - i,
        {
            contents.push(bytes[i]);
            i = i + 1;
            assert(contents@ =~= bytes@.take(i as int));
        }
        assert(contents@ =~= bytes@);
        Ok(
            Texture {
                sample_type: sample_type_of(format),
                texture,
                view,
                width,
                height,
                format,
                usage,
                contents,
            },
        )
    }

    /// Create a texture without contents (a render target).
    pub fn new(
        gpu: &mut Gpu,
        width: u32,
        height: u32,
        format: TextureFormat,
        usage: TextureUsages,
        label: Option<&'static str>,
        debug: bool,
    ) -> (t: Texture)
        requires
            old(gpu).wf(),
            old(gpu).spec_next_id() + 2 < u64::MAX,
            old(gpu).spec_live_textures() < u64::MAX,
        ensures
            spec_texture_created(
                t,
                *old(gpu),
                *final(gpu),
                width,
                height,
                format,
                usage,
                Seq::empty(),
            ),
    {
        let texture = gpu.fresh_texture_id();
        let view = gpu.fresh_id();
        Texture {
            sample_type: sample_type_of(format),
            texture,
            view,
            width,
            height,
            format,
            usage,
            contents: Vec::new(),
        }
    }

    /// A 1x1 fallback texture holding one texel.
    pub fn new_1x1_texture(
        gpu: &mut Gpu,
        data: &Vec<u8>,
        format: TextureFormat,
        usage: TextureUsages,
        label: Option<&'static str>,
    ) -> (r: Result<Texture, TextureError>)
        requires
            old(gpu).wf(),
            old(gpu).spec_next_id() + 2 < u64::MAX,
            old(gpu).spec_live_textures() < u64::MAX,
        ensures
            spec_bytes_per_pixel(format) is None ==> r == Err::<Texture, TextureError>(
                TextureError::UnsupportedFormat,
            ),
            spec_bytes_per_pixel(format) matches Some(bpp) && data@.len() != bpp ==> r == Err::<
                Texture,
                TextureError,
            >(TextureError::DataSizeMismatch),
            spec_bytes_per_pixel(format) matches Some(bpp) && data@.len() == bpp ==> (r matches Ok(
                t,
            ) && spec_texture_created(t, *old(gpu), *final(gpu), 1, 1, format, usage, data@)),
            r is Err ==> *final(gpu) == *old(gpu),
    {
        Texture::new_from_bytes(gpu, data, 1, 1, format, usage, label, false)
    }

    /// Create the depth attachment for a surface of the given size: format
    /// pinned to the depth format, usage pinned to render-attachment plus
    /// texture-binding.
    pub fn new_depth_texture(gpu: &mut Gpu, width: u32, height: u32, debug: bool) -> (t: Texture)
        requires
            old(gpu).wf(),
            old(gpu).spec_next_id() + 2 < u64::MAX,
            old(gpu).spec_live_textures() < u64::MAX,
        ensures
            spec_texture_created(
                t,
                *old(gpu),
                *final(gpu),
                width,
                height,
                spec_depth_format(),
                spec_attachment_usage(),
                Seq::empty(),
            ),
            t.sample_type == TextureSampleType::Depth,
    {
        let texture = gpu.fresh_texture_id();
        let view = gpu.fresh_id();
        Texture {
            sample_type: TextureSampleType::Depth,
            texture,
            view,
            width,
            height,
            format: TextureFormat::Depth32Float,
            usage: TextureUsages { copy_dst: false, texture_binding: true, render_attachment: true },
            contents: Vec::new(),
        }
    }

    /// The bind-group slot for this texture's view at binding `i`.
    pub fn bind_group_entry(&self, i: u32) -> (e: BindGroupEntry)
        ensures
            e == (BindGroupEntry { binding: i, resource: BindingResource::TextureView(self.view) }),
    {
        BindGroupEntry { binding: i, resource: BindingResource::TextureView(self.view) }
    }

    /// The layout entry a shader must declare for this texture at binding
    /// `i`: a 2D texture of this texture's sample type, visible to vertex
    /// and fragment stages.
    pub fn bind_group_layout_entry(&self, i: u32) -> (e: BindGroupLayoutEntry)
        ensures
            e == (BindGroupLayoutEntry {
                binding: i,
                visibility: ShaderStages::VertexFragment,
                ty: BindingType::Texture {
                    sample_type: self.sample_type,
                    view_dimension: TextureViewDimension::D2,
                },
            }),
    {
        BindGroupLayoutEntry {
            binding: i,
            visibility: ShaderStages::VertexFragment,
            ty: BindingType::Texture {
                sample_type: self.sample_type,
                view_dimension: TextureViewDimension::D2,
            },
        }
    }
}

/// A sampler and the binding class it satisfies.
#[derive(Clone, Copy, PartialEq, Eq, Debug)]
pub struct Sampler {
    pub sampler: u64,
    pub sampler_type: SamplerType,
    pub compare: Option<CompareFunction>,
}

impl Sampler {
    /// Filtering sampler for color textures.
    pub fn diffuse_texture_sampler(gpu: &mut Gpu) -> (s: Sampler)
        requires
            old(gpu).wf(),
            old(gpu).spec_next_id() < u64::MAX,
        ensures
            final(gpu).wf(),
            final(gpu).spec_live_textures() == old(gpu).spec_live_textures(),
            final(gpu).alive() == old(gpu).alive(),
            final(gpu).spec_next_id() == old(gpu).spec_next_id() + 1,
            s.sampler_type == SamplerType::Filtering,
            s.compare is None,
    {
        let id = gpu.fresh_id();
        Sampler { sampler: id, sampler_type: SamplerType::Filtering, compare: None }
    }

    /// Filtering sampler for normal maps; identical to the diffuse one.
    pub fn normal_texture_sampler(gpu: &mut Gpu) -> (s: Sampler)
        requires
            old(gpu).wf(),
            old(gpu).spec_next_id() < u64::MAX,
        ensures
            final(gpu).wf(),
            final(gpu).spec_live_textures() == old(gpu).spec_live_textures(),
            final(gpu).alive() == old(gpu).alive(),
            final(gpu).spec_next_id() == old(gpu).spec_next_id() + 1,
            s.sampler_type == SamplerType::Filtering,
            s.compare is None,
    {
        Sampler::diffuse_texture_sampler(gpu)
    }

    /// Comparison sampler for percentage-closer shadow lookups.
    pub fn shadow_map_sampler(gpu: &mut Gpu) -> (s: Sampler)
        requires
            old(gpu).wf(),
            old(gpu).spec_next_id() < u64::MAX,
        ensures
            final(gpu).wf(),
            final(gpu).spec_live_textures() == old(gpu).spec_live_textures(),
            final(gpu).alive() == old(gpu).alive(),
            final(gpu).spec_next_id() == old(gpu).spec_next_id() + 1,
            s.sampler_type == SamplerType::Comparison,
            s.compare == Some(CompareFunction::Less),
    {
        let id = gpu.fresh_id();
        Sampler {
            sampler: id,
            sampler_type: SamplerType::Comparison,
            compare: Some(CompareFunction::Less),
        }
    }

    /// Filtering sampler for cubemaps.
    pub fn cubemap_sampler(gpu: &mut Gpu) -> (s: Sampler)
        requires
            old(gpu).wf(),
            old(gpu).spec_next_id() < u64::MAX,
        ensures
            final(gpu).wf(),
            final(gpu).spec_live_textures() == old(gpu).spec_live_textures(),
            final(gpu).alive() == old(gpu).alive(),
            final(gpu).spec_next_id() == old(gpu).spec_next_id() + 1,
            s.sampler_type == SamplerType::Filtering,
            s.compare is None,
    {
        let id = gpu.fresh_id();
        Sampler { sampler: id, sampler_type: SamplerType::Filtering, compare: None }
    }
}

} // verus!
