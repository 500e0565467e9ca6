//! The shadow map and the light's view/projection uniform.
//!
//! The shadow pass renders scene depth from the light's point of view into
//! a depth texture the compose pass later samples. The light's matrices are
//! camera-side floating-point work and arrive here ready-made as bit
//! patterns.

use vstd::prelude::*;

use crate::gpu::Gpu;
use crate::mat4::Mat4;
use crate::texture::{Texture, TextureFormat};
use crate::uniform::{Uniform, UniformData};

verus! {

/// Byte size of [`ShadowData`]: two 4x4 matrices.
pub const SHADOW_UNIFORM_SIZE: u64 = 128;

/// View and projection of the virtual directional light.
#[derive(Clone, Copy, Debug)]
pub struct ShadowData {
    pub view: Mat4,
    pub perspective: Mat4,
}

impl UniformData for ShadowData {
    open spec fn spec_size() -> u64 {
        SHADOW_UNIFORM_SIZE
    }

    fn size() -> u64 {
        SHADOW_UNIFORM_SIZE
    }
}

impl ShadowData {
    /// Pack the light's view and projection matrices.
    pub fn new(view: Mat4, perspective: Mat4) -> (d: ShadowData)
        ensures
            d.view == view,
            d.perspective == perspective,
    {
        ShadowData { view, perspective }
    }
}

/// The depth texture the shadow pass renders into.
pub struct Shadowmap {
    pub texture: Texture,
}

impl Shadowmap {
    /// A depth-format target at the surface's size, render-attachment and
    /// texture-binding.
    pub fn new(gpu: &mut Gpu, width: u32, height: u32) -> (s: Shadowmap)
        requires
            old(gpu).wf(),
            old(gpu).spec_next_id() + 2 < u64::MAX,
            old(gpu).spec_live_textures() < u64::MAX,
        ensures
            final(gpu).wf(),
            final(gpu).spec_live_textures() == old(gpu).spec_live_textures() + 1,
            old(gpu).spec_next_id() <= final(gpu).spec_next_id() <= old(gpu).spec_next_id() + 2,
            s.texture.width == width,
            s.texture.height == height,
            s.texture.format == TextureFormat::Depth32Float,
            s.texture.usage == crate::texture::spec_attachment_usage(),
    {
        let usage = crate::resource_manager::TextureUsages {
            copy_dst: false,
            texture_binding: true,
            render_attachment: true,
        };
        let map = Texture::new(
            gpu,
            width,
            height,
            TextureFormat::Depth32Float,
            usage,
            Some("Shadowmap"),
            false,
        );
        Shadowmap { texture: map }
    }
}

/// The shadow map together with the light uniform the pass binds.
pub struct Shadows {
    pub shadowmap: Shadowmap,
    pub uniform: Uniform<ShadowData>,
}

impl Shadows {
    pub fn new(gpu: &mut Gpu, width: u32, height: u32, initial: ShadowData) -> (s: Shadows)
        requires
            old(gpu).wf(),
            old(gpu).spec_next_id() + 4 < u64::MAX,
            old(gpu).spec_live_textures() < u64::MAX,
        ensures
            final(gpu).wf(),
            final(gpu).spec_live_textures() == old(gpu).spec_live_textures() + 1,
            old(gpu).spec_next_id() <= final(gpu).spec_next_id() <= old(gpu).spec_next_id() + 4,
            s.shadowmap.texture.width == width,
            s.shadowmap.texture.height == height,
            s.shadowmap.texture.format == TextureFormat::Depth32Float,
            s.shadowmap.texture.usage == crate::texture::spec_attachment_usage(),
            s.uniform.data == initial,
    {
        let shadowmap = Shadowmap::new(gpu, width, height);
        let uniform = Uniform::new(gpu, None, initial);
        Shadows { shadowmap, uniform }
    }

    /// Push new light matrices into the uniform; the map itself stays.
    pub fn update_uniform(&mut self, data: ShadowData)
        ensures
            final(self).uniform.data == data,
            final(self).uniform.buffer == old(self).uniform.buffer,
            final(self).uniform.bind_group == old(self).uniform.bind_group,
            final(self).shadowmap == old(self).shadowmap,
    {
        self.uniform.update(data);
    }
}

} // verus!
