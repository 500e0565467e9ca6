//! Per-draw-call GPU state: scene and lighting uniforms, materials, meshes.
//!
//! Uniform payloads are plain-old-data structs of `f32` bit patterns whose
//! byte sizes match their GPU layout; each owning wrapper records the value
//! last uploaded and builds its bind group in the binding order the shaders
//! declare. A material combines one uniform buffer with three texture and
//! sampler pairs in one bind set; a mesh carries its buffers, its counts,
//! its world-transform uniform and the index of the material it draws with.

use vstd::prelude::*;

use crate::gpu::Gpu;
use crate::mat4::{spec_mat4_identity, mat4_identity, Mat4, Vec3, Vec4, F32_ONE_BITS};
use crate::resource_manager::{
    BindGroup, BindGroupEntry, BindGroupLayout, BindGroupLayoutEntry, BindingResource, BindingType,
    Buffer, ShaderStages, TextureSampleType, TextureViewDimension,
};
use crate::texture::{Sampler, Texture};
use crate::uniform::{spec_uniform_layout_entry, UniformData};

verus! {

/// Byte size of [`SceneUniformData`] as laid out for the GPU: three 4x4
/// matrices and one vector of four 32-bit floats.
pub const SCENE_UNIFORM_SIZE: u64 = 208;

/// Byte size of [`LightingUniformData`]: a count padded to 16 bytes, then
/// sixteen color vectors and sixteen position vectors.
pub const LIGHTING_UNIFORM_SIZE: u64 = 528;

/// Byte size of [`MaterialUniformData`]: three vectors of four 32-bit
/// floats.
pub const MATERIAL_UNIFORM_SIZE: u64 = 48;

/// Byte size of [`MeshUniformData`]: one 4x4 matrix.
pub const MESH_UNIFORM_SIZE: u64 = 64;

/// The largest number of direct lights a lighting uniform carries; extra
/// lights are dropped, not an error.
pub const MAX_LIGHTS: usize = 16;

/// Camera data every pass reads: projection, view, the inverse of their
/// product (for reconstructing world positions from depth), and the camera
/// position.
#[derive(Clone, Copy, Debug)]
pub struct SceneUniformData {
    pub perspective: Mat4,
    pub view: Mat4,
    pub inverse_perspective_view: Mat4,
    pub camera_position: Vec4,
}

impl UniformData for SceneUniformData {
    open spec fn spec_size() -> u64 {
        SCENE_UNIFORM_SIZE
    }

    fn size() -> u64 {
        SCENE_UNIFORM_SIZE
    }
}

impl SceneUniformData {
    /// Identity matrices and a camera at the origin; the identity is its
    /// own inverse.
    pub fn new() -> (d: SceneUniformData)
        ensures
            d.perspective == spec_mat4_identity(),
            d.view == spec_mat4_identity(),
            d.inverse_perspective_view == spec_mat4_identity(),
            d.camera_position == (Vec4 { x: 0, y: 0, z: 0, w: F32_ONE_BITS }),
    {
        SceneUniformData {
            perspective: mat4_identity(),
            view: mat4_identity(),
            inverse_perspective_view: mat4_identity(),
            camera_position: Vec4 { x: 0, y: 0, z: 0, w: F32_ONE_BITS },
        }
    }
}

/// The layout both scene-data slots are bound against: two uniform-buffer
/// entries sized to [`SceneUniformData`], visible to all stages.
pub open spec fn spec_scene_uniform_layout_entries() -> Seq<BindGroupLayoutEntry> {
    seq![
        BindGroupLayoutEntry {
            binding: 0u32,
            visibility: ShaderStages::All,
            ty: BindingType::Buffer { min_binding_size: Some(SCENE_UNIFORM_SIZE) },
        },
        BindGroupLayoutEntry {
            binding: 1u32,
            visibility: ShaderStages::All,
            ty: BindingType::Buffer { min_binding_size: Some(SCENE_UNIFORM_SIZE) },
        },
    ]
}

/// Two scene-data buffers under one bind group: slot 0 serves the camera
/// passes, slot 1 serves the shadow pass.
pub struct SceneUniform {
    pub uniform_buffer_0: u64,
    pub uniform_buffer_1: u64,
    pub uniform_bind_group: BindGroup,
    pub data_0: SceneUniformData,
    pub data_1: SceneUniformData,
}

impl SceneUniform {
    pub fn new(gpu: &mut Gpu, zero: SceneUniformData, one: SceneUniformData) -> (u: SceneUniform)
        requires
            old(gpu).wf(),
            old(gpu).spec_next_id() + 2 < u64::MAX,
        ensures
            final(gpu).wf(),
            final(gpu).spec_live_textures() == old(gpu).spec_live_textures(),
            final(gpu).alive() == old(gpu).alive(),
            final(gpu).spec_next_id() == old(gpu).spec_next_id() + 3,
            u.data_0 == zero,
            u.data_1 == one,
            u.uniform_bind_group.entries@ == seq![
                BindGroupEntry {
                    binding: 0u32,
                    resource: BindingResource::Buffer(u.uniform_buffer_0),
                },
                BindGroupEntry {
                    binding: 1u32,
                    resource: BindingResource::Buffer(u.uniform_buffer_1),
                },
            ],
    {
        let uniform_buffer_0 = gpu.fresh_id();
        let uniform_buffer_1 = gpu.fresh_id();
        let bind_group_id = gpu.fresh_id();
        let mut entries: Vec<BindGroupEntry> = Vec::new();
        entries.push(
            BindGroupEntry { binding: 0, resource: BindingResource::Buffer(uniform_buffer_0) },
        );
        entries.push(
            BindGroupEntry { binding: 1, resource: BindingResource::Buffer(uniform_buffer_1) },
        );
        assert(entries@ =~= seq![
            BindGroupEntry {
                binding: 0u32,
                resource: BindingResource::Buffer(uniform_buffer_0),
            },
            BindGroupEntry {
                binding: 1u32,
                resource: BindingResource::Buffer(uniform_buffer_1),
            },
        ]);
        SceneUniform {
            uniform_buffer_0,
            uniform_buffer_1,
            uniform_bind_group: BindGroup { id: bind_group_id, entries },
            data_0: zero,
            data_1: one,
        }
    }

    /// Overwrite the camera slot; the shadow slot and all handles stay.
    pub fn update(&mut self, data: SceneUniformData)
        ensures
            *final(self) == (SceneUniform { data_0: data, ..*old(self) }),
    {
        self.data_0 = data;
    }

    pub fn bind_group_layout(gpu: &mut Gpu) -> (layout: BindGroupLayout)
        requires
            old(gpu).wf(),
            old(gpu).spec_next_id() < u64::MAX,
        ensures
            final(gpu).wf(),
            final(gpu).spec_live_textures() == old(gpu).spec_live_textures(),
            final(gpu).alive() == old(gpu).alive(),
            final(gpu).spec_next_id() == old(gpu).spec_next_id() + 1,
            layout.entries@ == spec_scene_uniform_layout_entries(),
    {
        let id = gpu.fresh_id();
        let mut entries: Vec<BindGroupLayoutEntry> = Vec::new();
        entries.push(
            BindGroupLayoutEntry {
                binding: 0,
                visibility: ShaderStages::All,
                ty: BindingType::Buffer { min_binding_size: Some(SCENE_UNIFORM_SIZE) },
            },
        );
        entries.push(
            BindGroupLayoutEntry {
                binding: 1,
                visibility: ShaderStages::All,
                ty: BindingType::Buffer { min_binding_size: Some(SCENE_UNIFORM_SIZE) },
            },
        );
        assert(entries@ =~= spec_scene_uniform_layout_entries());
        BindGroupLayout { id, entries }
    }
}

/// Positions and colors of up to [`MAX_LIGHTS`] direct lights.
#[derive(Debug)]
pub struct LightingUniformData {
    pub count: u32,
    pub colors: Vec<Vec4>,
    pub positions: Vec<Vec4>,
}

impl UniformData for LightingUniformData {
    open spec fn spec_size() -> u64 {
        LIGHTING_UNIFORM_SIZE
    }

    fn size() -> u64 {
        LIGHTING_UNIFORM_SIZE
    }
}

impl LightingUniformData {
    /// Both tables hold exactly [`MAX_LIGHTS`] slots and the count stays in
    /// range.
    pub open spec fn wf(self) -> bool {
        &&& self.colors@.len() == MAX_LIGHTS
        &&& self.positions@.len() == MAX_LIGHTS
        &&& self.count <= MAX_LIGHTS
    }

    /// Fill the tables from `(position, color)` pairs: the first
    /// [`MAX_LIGHTS`] lights are kept with a 1.0 written into the fourth
    /// component, lights beyond that are silently dropped, and unused slots
    /// are zero.
    pub fn new(lighting: Vec<(Vec3, Vec3)>) -> (d: LightingUniformData)
        ensures
            d.wf(),
            d.count == if lighting@.len() < MAX_LIGHTS {
                lighting@.len() as int
            } else {
                MAX_LIGHTS as int
            },
            forall|i: int|
                0 <= i < d.count ==> (#[trigger] d.positions@[i]) == (Vec4 {
                    x: lighting@[i].0.x,
                    y: lighting@[i].0.y,
                    z: lighting@[i].0.z,
                    w: F32_ONE_BITS,
                }),
            forall|i: int|
                0 <= i < d.count ==> (#[trigger] d.colors@[i]) == (Vec4 {
                    x: lighting@[i].1.x,
                    y: lighting@[i].1.y,
                    z: lighting@[i].1.z,
                    w: F32_ONE_BITS,
                }),
            forall|i: int|
                d.count <= i < MAX_LIGHTS ==> (#[trigger] d.positions@[i]) == (Vec4 {
                    x: 0,
                    y: 0,
                    z: 0,
                    w: 0,
                }),
            forall|i: int|
                d.count <= i < MAX_LIGHTS ==> (#[trigger] d.colors@[i]) == (Vec4 {
                    x: 0,
                    y: 0,
                    z: 0,
                    w: 0,
                }),
    {
        let count: usize = if lighting.len() < MAX_LIGHTS {
            lighting.len()
        } else {
            MAX_LIGHTS
        };
        let mut colors: Vec<Vec4> = Vec::new();
        let mut positions: Vec<Vec4> = Vec::new();
        let mut i: usize = 0;
        while i < MAX_LIGHTS
            invariant
                0 <= i <= MAX_LIGHTS,
                count == if lighting@.len() < MAX_LIGHTS {
                    lighting@.len() as int
                } else {
                    MAX_LIGHTS as int
                },
                colors@.len() == i,
                positions@.len() == i,
                forall|j: int|
                    0 <= j < i && j < count ==> (#[trigger] positions@[j]) == (Vec4 {
                        x: lighting@[j].0.x,
                        y: lighting@[j].0.y,
                        z: lighting@[j].0.z,
                        w: F32_ONE_BITS,
                    }),
                forall|j: int|
                    0 <= j < i && j < count ==> (#[trigger] colors@[j]) == (Vec4 {
                        x: lighting@[j].1.x,
                        y: lighting@[j].1.y,
                        z: lighting@[j].1.z,
                        w: F32_ONE_BITS,
                    }),
                forall|j: int|
                    count <= j < i ==> (#[trigger] positions@[j]) == (Vec4 {
                        x: 0,
                        y: 0,
                        z: 0,
                        w: 0,
                    }),
                forall|j: int|
                    count <= j < i ==> (#[trigger] colors@[j]) == (Vec4 { x: 0, y: 0, z: 0, w: 0 }),
            decreases MAX_LIGHTS - i,
        {
            if i < count {
                let (position, color) = lighting[i];
                positions.push(
                    Vec4 { x: position.x, y: position.y, z: position.z, w: F32_ONE_BITS },
                );
                colors.push(Vec4 { x: color.x, y: color.y, z: color.z, w: F32_ONE_BITS });
            } else {
                positions.push(Vec4 { x: 0, y: 0, z: 0, w: 0 });
                colors.push(Vec4 { x: 0, y: 0, z: 0, w: 0 });
            }
            i = i + 1;
        }
        LightingUniformData { count: count as u32, colors, positions }
    }
}

/// The layout the lighting buffer is bound against: one uniform-buffer
/// entry sized to [`LightingUniformData`], visible to all stages.
pub open spec fn spec_lighting_uniform_layout_entries() -> Seq<BindGroupLayoutEntry> {
    seq![
        BindGroupLayoutEntry {
            binding: 0u32,
            visibility: ShaderStages::All,
            ty: BindingType::Buffer { min_binding_size: Some(LIGHTING_UNIFORM_SIZE) },
        },
    ]
}

/// The lighting buffer and its bind group.
pub struct LightingUniform {
    pub uniform_buffer: u64,
    pub uniform_bind_group: BindGroup,
    pub data: LightingUniformData,
}

impl LightingUniform {
    pub fn new(gpu: &mut Gpu, data: LightingUniformData) -> (u: LightingUniform)
        requires
            old(gpu).wf(),
            old(gpu).spec_next_id() + 1 < u64::MAX,
        ensures
            final(gpu).wf(),
            final(gpu).spec_live_textures() == old(gpu).spec_live_textures(),
            final(gpu).alive() == old(gpu).alive(),
            final(gpu).spec_next_id() == old(gpu).spec_next_id() + 2,
            u.data == data,
            u.uniform_bind_group.entries@ == seq![
                BindGroupEntry {
                    binding: 0u32,
                    resource: BindingResource::Buffer(u.uniform_buffer),
                },
            ],
    {
        let uniform_buffer = gpu.fresh_id();
        let bind_group_id = gpu.fresh_id();
        let mut entries: Vec<BindGroupEntry> = Vec::new();
        entries.push(
            BindGroupEntry { binding: 0, resource: BindingResource::Buffer(uniform_buffer) },
        );
        assert(entries@ =~= seq![
            BindGroupEntry { binding: 0u32, resource: BindingResource::Buffer(uniform_buffer) },
        ]);
        LightingUniform {
            uniform_buffer,
            uniform_bind_group: BindGroup { id: bind_group_id, entries },
            data,
        }
    }

    /// Overwrite the whole lighting buffer.
    pub fn update(&mut self, data: LightingUniformData)
        ensures
            final(self).data == data,
            final(self).uniform_buffer == old(self).uniform_buffer,
            final(self).uniform_bind_group == old(self).uniform_bind_group,
    {
        self.data = data;
    }

    pub fn bind_group_layout(gpu: &mut Gpu) -> (layout: BindGroupLayout)
        requires
            old(gpu).wf(),
            old(gpu).spec_next_id() < u64::MAX,
        ensures
            final(gpu).wf(),
            final(gpu).spec_live_textures() == old(gpu).spec_live_textures(),
            final(gpu).alive() == old(gpu).alive(),
            final(gpu).spec_next_id() == old(gpu).spec_next_id() + 1,
            layout.entries@ == spec_lighting_uniform_layout_entries(),
    {
        let id = gpu.fresh_id();
        let mut entries: Vec<BindGroupLayoutEntry> = Vec::new();
        entries.push(
            BindGroupLayoutEntry {
                binding: 0,
                visibility: ShaderStages::All,
                ty: BindingType::Buffer { min_binding_size: Some(LIGHTING_UNIFORM_SIZE) },
            },
        );
        assert(entries@ =~= spec_lighting_uniform_layout_entries());
        BindGroupLayout { id, entries }
    }
}

/// Ambient, diffuse and specular factors of one material.
#[derive(Clone, Copy, Debug)]
pub struct MaterialUniformData {
    pub ambient: Vec4,
    pub diffuse: Vec4,
    pub specular: Vec4,
}

impl UniformData for MaterialUniformData {
    open spec fn spec_size() -> u64 {
        MATERIAL_UNIFORM_SIZE
    }

    fn size() -> u64 {
        MATERIAL_UNIFORM_SIZE
    }
}

impl Default for MaterialUniformData {
    /// All factors 1.0.
    fn default() -> (d: MaterialUniformData)
        ensures
            d.ambient == (Vec4 {
                x: F32_ONE_BITS,
                y: F32_ONE_BITS,
                z: F32_ONE_BITS,
                w: F32_ONE_BITS,
            }),
            d.diffuse == d.ambient,
            d.specular == d.ambient,
    {
        let one = Vec4 { x: F32_ONE_BITS, y: F32_ONE_BITS, z: F32_ONE_BITS, w: F32_ONE_BITS };
        MaterialUniformData { ambient: one, diffuse: one, specular: one }
    }
}

impl MaterialUniformData {
    /// Promote three-component factors, writing 1.0 into each fourth
    /// component.
    pub fn new(ambient: Vec3, diffuse: Vec3, specular: Vec3) -> (d: MaterialUniformData)
        ensures
            d.ambient == (Vec4 { x: ambient.x, y: ambient.y, z: ambient.z, w: F32_ONE_BITS }),
            d.diffuse == (Vec4 { x: diffuse.x, y: diffuse.y, z: diffuse.z, w: F32_ONE_BITS }),
            d.specular == (Vec4 { x: specular.x, y: specular.y, z: specular.z, w: F32_ONE_BITS }),
    {
        MaterialUniformData {
            ambient: Vec4 { x: ambient.x, y: ambient.y, z: ambient.z, w: F32_ONE_BITS },
            diffuse: Vec4 { x: diffuse.x, y: diffuse.y, z: diffuse.z, w: F32_ONE_BITS },
            specular: Vec4 { x: specular.x, y: specular.y, z: specular.z, w: F32_ONE_BITS },
        }
    }
}

/// The binding order of a material's bind set, as the geometry shader
/// declares it: the factor buffer, then each texture view directly followed
/// by its sampler — albedo, normal, metal-roughness.
pub open spec fn spec_material_layout_entries() -> Seq<BindGroupLayoutEntry> {
    seq![
        BindGroupLayoutEntry {
            binding: 0u32,
            visibility: ShaderStages::All,
            ty: BindingType::Buffer { min_binding_size: None },
        },
        BindGroupLayoutEntry {
            binding: 1u32,
            visibility: ShaderStages::Fragment,
            ty: BindingType::Texture {
                sample_type: TextureSampleType::Float,
                view_dimension: TextureViewDimension::D2,
            },
        },
        BindGroupLayoutEntry {
            binding: 2u32,
            visibility: ShaderStages::Fragment,
            ty: BindingType::Sampler(crate::resource_manager::SamplerType::Filtering),
        },
        BindGroupLayoutEntry {
            binding: 3u32,
            visibility: ShaderStages::Fragment,
            ty: BindingType::Texture {
                sample_type: TextureSampleType::Float,
                view_dimension: TextureViewDimension::D2,
            },
        },
        BindGroupLayoutEntry {
            binding: 4u32,
            visibility: ShaderStages::Fragment,
            ty: BindingType::Sampler(crate::resource_manager::SamplerType::Filtering),
        },
        BindGroupLayoutEntry {
            binding: 5u32,
            visibility: ShaderStages::Fragment,
            ty: BindingType::Texture {
                sample_type: TextureSampleType::Float,
                view_dimension: TextureViewDimension::D2,
            },
        },
        BindGroupLayoutEntry {
            binding: 6u32,
            visibility: ShaderStages::Fragment,
            ty: BindingType::Sampler(crate::resource_manager::SamplerType::Filtering),
        },
    ]
}

/// The bind-group slots of a material, in the same order as the layout.
pub open spec fn spec_material_bind_entries(
    uniform_buffer: u64,
    diffuse_view: u64,
    diffuse_sampler: u64,
    normal_view: u64,
    normal_sampler: u64,
    metal_roughness_view: u64,
    metal_roughness_sampler: u64,
) -> Seq<BindGroupEntry> {
    seq![
        BindGroupEntry { binding: 0u32, resource: BindingResource::Buffer(uniform_buffer) },
        BindGroupEntry { binding: 1u32, resource: BindingResource::TextureView(diffuse_view) },
        BindGroupEntry { binding: 2u32, resource: BindingResource::Sampler(diffuse_sampler) },
        BindGroupEntry { binding: 3u32, resource: BindingResource::TextureView(normal_view) },
        BindGroupEntry { binding: 4u32, resource: BindingResource::Sampler(normal_sampler) },
        BindGroupEntry {
            binding: 5u32,
            resource: BindingResource::TextureView(metal_roughness_view),
        },
        BindGroupEntry {
            binding: 6u32,
            resource: BindingResource::Sampler(metal_roughness_sampler),
        },
    ]
}

/// One material: its factor buffer, its three texture/sampler pairs, and
/// the bind set combining them. Shared by any number of meshes and never
/// mutated after creation.
pub struct Material {
    pub uniform_buffer: u64,
    pub bind_group: BindGroup,
    pub diffuse_texture: Texture,
    pub diffuse_texture_sampler: Sampler,
    pub normal_texture: Texture,
    pub normal_texture_sampler: Sampler,
    pub metal_roughness_texture: Texture,
    pub metal_roughness_texture_sampler: Sampler,
    pub uniform_data: MaterialUniformData,
}

impl Material {
    /// Build the factor buffer, the three samplers and the bind set; the
    /// bind set exposes the resources in the declared binding order.
    pub fn new(
        gpu: &mut Gpu,
        data: MaterialUniformData,
        diffuse_texture: Texture,
        normal_texture: Texture,
        metal_roughness_texture: Texture,
    ) -> (m: Material)
        requires
            old(gpu).wf(),
            old(gpu).spec_next_id() + 4 < u64::MAX,
        ensures
            final(gpu).wf(),
            final(gpu).spec_live_textures() == old(gpu).spec_live_textures(),
            final(gpu).alive() == old(gpu).alive(),
            final(gpu).spec_next_id() == old(gpu).spec_next_id() + 5,
            m.uniform_data == data,
            m.diffuse_texture == diffuse_texture,
            m.normal_texture == normal_texture,
            m.metal_roughness_texture == metal_roughness_texture,
            m.bind_group.entries@ == spec_material_bind_entries(
                m.uniform_buffer,
                diffuse_texture.view,
                m.diffuse_texture_sampler.sampler,
                normal_texture.view,
                m.normal_texture_sampler.sampler,
                metal_roughness_texture.view,
                m.metal_roughness_texture_sampler.sampler,
            ),
    {
        let uniform_buffer = gpu.fresh_id();
        let diffuse_texture_sampler = Sampler::diffuse_texture_sampler(gpu);
        let normal_texture_sampler = Sampler::normal_texture_sampler(gpu);
        let metal_roughness_texture_sampler = Sampler::normal_texture_sampler(gpu);
        let bind_group_id = gpu.fresh_id();

        let mut entries: Vec<BindGroupEntry> = Vec::new();
        entries.push(
            BindGroupEntry { binding: 0, resource: BindingResource::Buffer(uniform_buffer) },
        );
        entries.push(
            BindGroupEntry {
                binding: 1,
                resource: BindingResource::TextureView(diffuse_texture.view),
            },
        );
        entries.push(
            BindGroupEntry {
                binding: 2,
                resource: BindingResource::Sampler(diffuse_texture_sampler.sampler),
            },
        );
        entries.push(
            BindGroupEntry {
                binding: 3,
                resource: BindingResource::TextureView(normal_texture.view),
            },
        );
        entries.push(
            BindGroupEntry {
                binding: 4,
                resource: BindingResource::Sampler(normal_texture_sampler.sampler),
            },
        );
        entries.push(
            BindGroupEntry {
                binding: 5,
                resource: BindingResource::TextureView(metal_roughness_texture.view),
            },
        );
        entries.push(
            BindGroupEntry {
                binding: 6,
                resource: BindingResource::Sampler(metal_roughness_texture_sampler.sampler),
            },
        );
        assert(entries@ =~= spec_material_bind_entries(
            uniform_buffer,
            diffuse_texture.view,
            diffuse_texture_sampler.sampler,
            normal_texture.view,
            normal_texture_sampler.sampler,
            metal_roughness_texture.view,
            metal_roughness_texture_sampler.sampler,
        ));

        Material {
            uniform_buffer,
            bind_group: BindGroup { id: bind_group_id, entries },
            diffuse_texture,
            diffuse_texture_sampler,
            normal_texture,
            normal_texture_sampler,
            metal_roughness_texture,
            metal_roughness_texture_sampler,
            uniform_data: data,
        }
    }

    pub fn bind_group_layout(gpu: &mut Gpu) -> (layout: BindGroupLayout)
        requires
            old(gpu).wf(),
            old(gpu).spec_next_id() < u64::MAX,
        ensures
            final(gpu).wf(),
            final(gpu).spec_live_textures() == old(gpu).spec_live_textures(),
            final(gpu).alive() == old(gpu).alive(),
            final(gpu).spec_next_id() == old(gpu).spec_next_id() + 1,
            layout.entries@ == spec_material_layout_entries(),
    {
        let id = gpu.fresh_id();
        let mut entries: Vec<BindGroupLayoutEntry> = Vec::new();
        entries.push(
            BindGroupLayoutEntry {
                binding: 0,
                visibility: ShaderStages::All,
                ty: BindingType::Buffer { min_binding_size: None },
            },
        );
        entries.push(
            BindGroupLayoutEntry {
                binding: 1,
                visibility: ShaderStages::Fragment,
                ty: BindingType::Texture {
                    sample_type: TextureSampleType::Float,
                    view_dimension: TextureViewDimension::D2,
                },
            },
        );
        entries.push(
            BindGroupLayoutEntry {
                binding: 2,
                visibility: ShaderStages::Fragment,
                ty: BindingType::Sampler(crate::resource_manager::SamplerType::Filtering),
            },
        );
        entries.push(
            BindGroupLayoutEntry {
                binding: 3,
                visibility: ShaderStages::Fragment,
                ty: BindingType::Texture {
                    sample_type: TextureSampleType::Float,
                    view_dimension: TextureViewDimension::D2,
                },
            },
        );
        entries.push(
            BindGroupLayoutEntry {
                binding: 4,
                visibility: ShaderStages::Fragment,
                ty: BindingType::Sampler(crate::resource_manager::SamplerType::Filtering),
            },
        );
        entries.push(
            BindGroupLayoutEntry {
                binding: 5,
                visibility: ShaderStages::Fragment,
                ty: BindingType::Texture {
                    sample_type: TextureSampleType::Float,
                    view_dimension: TextureViewDimension::D2,
                },
            },
        );
        entries.push(
            BindGroupLayoutEntry {
                binding: 6,
                visibility: ShaderStages::Fragment,
                ty: BindingType::Sampler(crate::resource_manager::SamplerType::Filtering),
            },
        );
        assert(entries@ =~= spec_material_layout_entries());
        BindGroupLayout { id, entries }
    }
}

/// The world transform a mesh's vertices are multiplied by.
#[derive(Clone, Copy, Debug)]
pub struct MeshUniformData {
    pub world: Mat4,
}

impl UniformData for MeshUniformData {
    open spec fn spec_size() -> u64 {
        MESH_UNIFORM_SIZE
    }

    fn size() -> u64 {
        MESH_UNIFORM_SIZE
    }
}

impl MeshUniformData {
    pub fn new(world: Mat4) -> (d: MeshUniformData)
        ensures
            d.world == world,
    {
        MeshUniformData { world }
    }
}

/// One draw call's geometry: vertex and index buffers with their counts,
/// the transform uniform, and the index of the material to bind.
pub struct Mesh {
    pub vertex_buffer: Buffer,
    pub vertex_count: u32,
    pub index_buffer: Buffer,
    pub index_count: u32,
    pub uniform_buffer: u64,
    pub bind_group: BindGroup,
    pub material_index: usize,
    pub uniform_data: MeshUniformData,
}

impl Mesh {
    pub fn new(
        gpu: &mut Gpu,
        vertex_buffer: Buffer,
        index_buffer: Buffer,
        vertex_count: u32,
        index_count: u32,
        data: MeshUniformData,
        material_index: usize,
        name: Option<&'static str>,
    ) -> (m: Mesh)
        requires
            old(gpu).wf(),
            old(gpu).spec_next_id() + 1 < u64::MAX,
        ensures
            final(gpu).wf(),
            final(gpu).spec_live_textures() == old(gpu).spec_live_textures(),
            final(gpu).alive() == old(gpu).alive(),
            final(gpu).spec_next_id() == old(gpu).spec_next_id() + 2,
            m.vertex_buffer == vertex_buffer,
            m.index_buffer == index_buffer,
            m.vertex_count == vertex_count,
            m.index_count == index_count,
            m.material_index == material_index,
            m.uniform_data == data,
            m.bind_group.entries@ == seq![
                BindGroupEntry {
                    binding: 0u32,
                    resource: BindingResource::Buffer(m.uniform_buffer),
                },
            ],
    {
        let uniform_buffer = gpu.fresh_id();
        let bind_group_id = gpu.fresh_id();
        let mut entries: Vec<BindGroupEntry> = Vec::new();
        entries.push(
            BindGroupEntry { binding: 0, resource: BindingResource::Buffer(uniform_buffer) },
        );
        assert(entries@ =~= seq![
            BindGroupEntry { binding: 0u32, resource: BindingResource::Buffer(uniform_buffer) },
        ]);
        Mesh {
            vertex_buffer,
            vertex_count,
            index_buffer,
            index_count,
            uniform_buffer,
            bind_group: BindGroup { id: bind_group_id, entries },
            material_index,
            uniform_data: data,
        }
    }

    /// Overwrite the transform uniform; buffers and bind set stay.
    pub fn update(&mut self, data: MeshUniformData)
        ensures
            final(self).uniform_data == data,
            final(self).vertex_buffer == old(self).vertex_buffer,
            final(self).index_buffer == old(self).index_buffer,
            final(self).vertex_count == old(self).vertex_count,
            final(self).index_count == old(self).index_count,
            final(self).material_index == old(self).material_index,
            final(self).uniform_buffer == old(self).uniform_buffer,
            final(self).bind_group == old(self).bind_group,
    {
        self.uniform_data = data;
    }

    /// The layout of a mesh's transform bind set: one uniform-buffer entry
    /// sized to [`MeshUniformData`], visible to all stages.
    pub fn bind_group_layout(gpu: &mut Gpu) -> (layout: BindGroupLayout)
        requires
            old(gpu).wf(),
            old(gpu).spec_next_id() < u64::MAX,
        ensures
            final(gpu).wf(),
            final(gpu).spec_live_textures() == old(gpu).spec_live_textures(),
            final(gpu).alive() == old(gpu).alive(),
            final(gpu).spec_next_id() == old(gpu).spec_next_id() + 1,
            layout.entries@ == seq![spec_uniform_layout_entry::<MeshUniformData>(0)],
    {
        let id = gpu.fresh_id();
        let mut entries: Vec<BindGroupLayoutEntry> = Vec::new();
        entries.push(
            BindGroupLayoutEntry {
                binding: 0,
                visibility: ShaderStages::All,
                ty: BindingType::Buffer { min_binding_size: Some(MESH_UNIFORM_SIZE) },
            },
        );
        assert(entries@ =~= seq![spec_uniform_layout_entry::<MeshUniformData>(0)]);
        BindGroupLayout { id, entries }
    }
}

/// Binding order of a material's bind set: it matches the material layout
/// the geometry shader declares, slot for slot — the factor buffer at 0,
/// then each texture view directly followed by its sampler.
pub proof fn lemma_material_binding_order(
    uniform_buffer: u64,
    diffuse_view: u64,
    diffuse_sampler: u64,
    normal_view: u64,
    normal_sampler: u64,
    metal_roughness_view: u64,
    metal_roughness_sampler: u64,
)
    ensures
        crate::resource_manager::spec_entries_class_match(
            spec_material_layout_entries(),
            spec_material_bind_entries(
                uniform_buffer,
                diffuse_view,
                diffuse_sampler,
                normal_view,
                normal_sampler,
                metal_roughness_view,
                metal_roughness_sampler,
            ),
        ),
{
}

/// Binding order of the scene uniform's bind set: two buffers at bindings
/// 0 and 1, matching the two-buffer layout every pass declares for it.
pub proof fn lemma_scene_uniform_binding_order(u: SceneUniform)
    requires
        u.uniform_bind_group.entries@ == seq![
            BindGroupEntry {
                binding: 0u32,
                resource: BindingResource::Buffer(u.uniform_buffer_0),
            },
            BindGroupEntry {
                binding: 1u32,
                resource: BindingResource::Buffer(u.uniform_buffer_1),
            },
        ],
    ensures
        crate::resource_manager::spec_entries_class_match(
            spec_scene_uniform_layout_entries(),
            u.uniform_bind_group.entries@,
        ),
{
}

} // verus!
