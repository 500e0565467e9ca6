//! The intermediate targets of the deferred pipeline.
//!
//! Depth, albedo, world-space normal, material, ambient occlusion and
//! shadow-factor images, all at the same size as the surface, with one bind
//! set exposing them to the compose pass in a fixed binding order: depth,
//! albedo, normal, material, occlusion, shadow. That order is the system's
//! central bit-exact contract — a shader reading the set in any other order
//! renders silently wrong — so both the layout and the bind group are pinned
//! here entry by entry.

use vstd::prelude::*;

use crate::gpu::Gpu;
use crate::resource_manager::{
    BindGroup, BindGroupEntry, BindGroupLayout, BindGroupLayoutEntry, BindingResource, BindingType,
    ShaderStages, TextureSampleType, TextureUsages, TextureViewDimension,
};
use crate::texture::{spec_attachment_usage, spec_sample_type, Texture, TextureFormat};

verus! {

/// The multi-target intermediate images, recreated together whenever the
/// surface resizes.
pub struct GBuffers {
    /// Depth of the fragment; written by the geometry pass, read to
    /// reconstruct world position.
    pub depth: Texture,
    /// Albedo of the fragment.
    pub albedo: Texture,
    /// Normal of the fragment, world-space.
    pub normal: Texture,
    /// Material parameters of the fragment.
    pub material: Texture,
    /// Occlusion factor of the fragment.
    pub occlusion: Texture,
    /// Shadow factor of the fragment.
    pub shadow: Texture,
    /// The bind set exposing all six to the compose pass.
    pub bind_group: BindGroup,
}

/// One fragment-visible 2D texture entry of the given sample type.
pub open spec fn spec_gbuffer_texture_entry(
    binding: u32,
    sample_type: TextureSampleType,
) -> BindGroupLayoutEntry {
    BindGroupLayoutEntry {
        binding,
        visibility: ShaderStages::Fragment,
        ty: BindingType::Texture { sample_type, view_dimension: TextureViewDimension::D2 },
    }
}

/// The binding order the compose shader expects of the G-buffer set: depth
/// first, then five float targets.
pub open spec fn spec_gbuffers_layout_entries() -> Seq<BindGroupLayoutEntry> {
    seq![
        spec_gbuffer_texture_entry(0u32, TextureSampleType::Depth),
        spec_gbuffer_texture_entry(1u32, TextureSampleType::Float),
        spec_gbuffer_texture_entry(2u32, TextureSampleType::Float),
        spec_gbuffer_texture_entry(3u32, TextureSampleType::Float),
        spec_gbuffer_texture_entry(4u32, TextureSampleType::Float),
        spec_gbuffer_texture_entry(5u32, TextureSampleType::Float),
    ]
}

impl GBuffers {
    /// Every target shares the surface's size; each carries its fixed
    /// format, and the bind group exposes the six views in binding order.
    pub open spec fn wf(self, width: u32, height: u32) -> bool {
        &&& self.depth.width == width && self.depth.height == height
        &&& self.albedo.width == width && self.albedo.height == height
        &&& self.normal.width == width && self.normal.height == height
        &&& self.material.width == width && self.material.height == height
        &&& self.occlusion.width == width && self.occlusion.height == height
        &&& self.shadow.width == width && self.shadow.height == height
        &&& self.depth.format == TextureFormat::Depth32Float
        &&& self.albedo.format == TextureFormat::Rgba8UnormSrgb
        &&& self.normal.format == TextureFormat::Rgba8Unorm
        &&& self.material.format == TextureFormat::Rgba8Unorm
        &&& self.occlusion.format == TextureFormat::Rgba16Float
        &&& self.shadow.format == TextureFormat::R16Float
        &&& self.depth.usage == spec_attachment_usage()
        &&& self.albedo.usage == spec_attachment_usage()
        &&& self.normal.usage == spec_attachment_usage()
        &&& self.material.usage == spec_attachment_usage()
        &&& self.occlusion.usage == spec_attachment_usage()
        &&& self.shadow.usage == spec_attachment_usage()
        &&& self.bind_group.entries@ == seq![
            BindGroupEntry {
                binding: 0u32,
                resource: BindingResource::TextureView(self.depth.view),
            },
            BindGroupEntry {
                binding: 1u32,
                resource: BindingResource::TextureView(self.albedo.view),
            },
            BindGroupEntry {
                binding: 2u32,
                resource: BindingResource::TextureView(self.normal.view),
            },
            BindGroupEntry {
                binding: 3u32,
                resource: BindingResource::TextureView(self.material.view),
            },
            BindGroupEntry {
                binding: 4u32,
                resource: BindingResource::TextureView(self.occlusion.view),
            },
            BindGroupEntry {
                binding: 5u32,
                resource: BindingResource::TextureView(self.shadow.view),
            },
        ]
    }

    /// Create the six targets at the surface's size and the bind set over
    /// them.
    pub fn new(gpu: &mut Gpu, width: u32, height: u32) -> (g: GBuffers)
        requires
            old(gpu).wf(),
            old(gpu).spec_next_id() + 16 < u64::MAX,
            old(gpu).spec_live_textures() + 6 <= u64::MAX,
        ensures
            final(gpu).wf(),
            final(gpu).spec_live_textures() == old(gpu).spec_live_textures() + 6,
            old(gpu).spec_next_id() <= final(gpu).spec_next_id() <= old(gpu).spec_next_id() + 13,
            old(gpu).spec_next_id() <= g.occlusion.view < final(gpu).spec_next_id(),
            old(gpu).spec_next_id() <= g.shadow.view < final(gpu).spec_next_id(),
            g.wf(width, height),
    {
        let usage = TextureUsages { copy_dst: false, texture_binding: true, render_attachment: true };
        let depth = Texture::new_depth_texture(gpu, width, height, false);
        let albedo = Texture::new(
            gpu,
            width,
            height,
            TextureFormat::Rgba8UnormSrgb,
            usage,
            Some("Gbuffers - albedo"),
            false,
        );
        let normal = Texture::new(
            gpu,
            width,
            height,
            TextureFormat::Rgba8Unorm,
            usage,
            Some("Gbuffers - normal (worldspace)"),
            false,
        );
        let material = Texture::new(
            gpu,
            width,
            height,
            TextureFormat::Rgba8Unorm,
            usage,
            Some("Gbuffers - material"),
            false,
        );
        let occlusion = Texture::new(
            gpu,
            width,
            height,
            TextureFormat::Rgba16Float,
            usage,
            Some("Gbuffers - AO"),
            false,
        );
        let shadow = Texture::new(
            gpu,
            width,
            height,
            TextureFormat::R16Float,
            usage,
            Some("Gbuffers - Shadow"),
            false,
        );

        let bind_group_id = gpu.fresh_id();
        let mut entries: Vec<BindGroupEntry> = Vec::new();
        entries.push(
            BindGroupEntry { binding: 0, resource: BindingResource::TextureView(depth.view) },
        );
        entries.push(
            BindGroupEntry { binding: 1, resource: BindingResource::TextureView(albedo.view) },
        );
        entries.push(
            BindGroupEntry { binding: 2, resource: BindingResource::TextureView(normal.view) },
        );
        entries.push(
            BindGroupEntry { binding: 3, resource: BindingResource::TextureView(material.view) },
        );
        entries.push(
            BindGroupEntry { binding: 4, resource: BindingResource::TextureView(occlusion.view) },
        );
        entries.push(
            BindGroupEntry { binding: 5, resource: BindingResource::TextureView(shadow.view) },
        );
        assert(entries@ =~= seq![
            BindGroupEntry { binding: 0u32, resource: BindingResource::TextureView(depth.view) },
            BindGroupEntry { binding: 1u32, resource: BindingResource::TextureView(albedo.view) },
            BindGroupEntry { binding: 2u32, resource: BindingResource::TextureView(normal.view) },
            BindGroupEntry {
                binding: 3u32,
                resource: BindingResource::TextureView(material.view),
            },
            BindGroupEntry {
                binding: 4u32,
                resource: BindingResource::TextureView(occlusion.view),
            },
            BindGroupEntry { binding: 5u32, resource: BindingResource::TextureView(shadow.view) },
        ]);

        GBuffers {
            depth,
            albedo,
            normal,
            material,
            occlusion,
            shadow,
            bind_group: BindGroup { id: bind_group_id, entries },
        }
    }

    /// The layout the G-buffer bind set is built against, in the binding
    /// order the compose shader declares.
    pub fn bind_group_layout(gpu: &mut Gpu) -> (layout: BindGroupLayout)
        requires
            old(gpu).wf(),
            old(gpu).spec_next_id() < u64::MAX,
        ensures
            final(gpu).wf(),
            final(gpu).spec_live_textures() == old(gpu).spec_live_textures(),
            final(gpu).alive() == old(gpu).alive(),
            final(gpu).spec_next_id() == old(gpu).spec_next_id() + 1,
            layout.entries@ == spec_gbuffers_layout_entries(),
    {
        let id = gpu.fresh_id();
        let mut entries: Vec<BindGroupLayoutEntry> = Vec::new();
        entries.push(
            BindGroupLayoutEntry {
                binding: 0,
                visibility: ShaderStages::Fragment,
                ty: BindingType::Texture {
                    sample_type: TextureSampleType::Depth,
                    view_dimension: TextureViewDimension::D2,
                },
            },
        );
        let mut b: u32 = 1;
        while b < 6
            invariant
                1 <= b <= 6,
                entries@.len() == b,
                forall|j: int| 0 <= j < b ==> entries@[j] == spec_gbuffers_layout_entries()[j],
            decreases 6 - b,
        {
            entries.push(
                BindGroupLayoutEntry {
                    binding: b,
                    visibility: ShaderStages::Fragment,
                    ty: BindingType::Texture {
                        sample_type: TextureSampleType::Float,
                        view_dimension: TextureViewDimension::D2,
                    },
                },
            );
            b = b + 1;
        }
        assert(entries@ =~= spec_gbuffers_layout_entries());
        BindGroupLayout { id, entries }
    }
}

/// The G-buffer bind set matches its layout class for class: each of the
/// six texture entries of the layout is filled with a texture view, in the
/// fixed order depth, albedo, normal, material, occlusion, shadow.
pub proof fn lemma_gbuffers_binding_order(g: GBuffers, width: u32, height: u32)
    requires
        g.wf(width, height),
    ensures
        g.bind_group.entries@.len() == spec_gbuffers_layout_entries().len(),
        forall|i: int|
            0 <= i < 6 ==> (#[trigger] g.bind_group.entries@[i]).binding
                == spec_gbuffers_layout_entries()[i].binding,
        forall|i: int|
            0 <= i < 6 ==> (#[trigger] g.bind_group.entries@[i]).resource is TextureView
                && spec_gbuffers_layout_entries()[i].ty is Texture,
        spec_gbuffers_layout_entries()[0].ty == (BindingType::Texture {
            sample_type: spec_sample_type(g.depth.format),
            view_dimension: TextureViewDimension::D2,
        }),
{
}

/// Binding order of the G-buffer bind set against its layout, stated with
/// the structural matcher: six texture views at bindings 0 to 5.
pub proof fn lemma_gbuffers_layout_class_match(g: GBuffers, width: u32, height: u32)
    requires
        g.wf(width, height),
    ensures
        crate::resource_manager::spec_entries_class_match(
            spec_gbuffers_layout_entries(),
            g.bind_group.entries@,
        ),
{
}

} // verus!
