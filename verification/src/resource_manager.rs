//! Descriptor-level resource creation.
//!
//! The descriptor types here say everything the renderer decides about a GPU
//! resource: sizes, formats, binding kinds and binding order. Creating a
//! resource draws a handle from the [`Gpu`](crate::gpu::Gpu) context and
//! keeps the descriptor beside the handle, so contracts elsewhere can speak
//! about what a live object was built from. Bind-group layouts are expanded
//! from a compact description (textures, then buffers, then samplers) into
//! an entry list with consecutive binding indices, and a bind group can only
//! be created against a layout whose entries match its resources one for one
//! — the binding discipline the shaders depend on.

use vstd::prelude::*;

use crate::gpu::Gpu;
use crate::texture::TextureFormat;

verus! {

/// Dimensionality of a texture view as a shader binds it.
#[derive(Clone, Copy, PartialEq, Eq, Structural, Debug)]
pub enum TextureViewDimension {
    D2,
    Cube,
}

/// The two sampler binding classes the passes use.
#[derive(Clone, Copy, PartialEq, Eq, Structural, Debug)]
pub enum SamplerType {
    Filtering,
    Comparison,
}

/// How a shader reads a bound texture.
#[derive(Clone, Copy, PartialEq, Eq, Structural, Debug)]
pub enum TextureSampleType {
    Float,
    Depth,
}

/// Which shader stages see a binding.
#[derive(Clone, Copy, PartialEq, Eq, Structural, Debug)]
pub enum ShaderStages {
    Vertex,
    Fragment,
    VertexFragment,
    All,
}

/// Depth comparison used by a depth-stencil state or comparison sampler.
#[derive(Clone, Copy, PartialEq, Eq, Structural, Debug)]
pub enum CompareFunction {
    Less,
    LessEqual,
}

/// Buffer usage flags the renderer needs.
#[derive(Clone, Copy, PartialEq, Eq, Structural, Debug)]
pub struct BufferUsages {
    pub copy_dst: bool,
    pub vertex: bool,
    pub index: bool,
    pub uniform: bool,
}

/// Texture usage flags the renderer needs.
#[derive(Clone, Copy, PartialEq, Eq, Structural, Debug)]
pub struct TextureUsages {
    pub copy_dst: bool,
    pub texture_binding: bool,
    pub render_attachment: bool,
}

/// Description of a buffer allocation plus its initial bytes.
pub struct BufferDesc {
    pub debug: Option<&'static str>,
    pub byte_size: u64,
    pub usage: Option<BufferUsages>,
    pub data: Vec<u8>,
}

/// A live buffer: its handle and the bytes last written to it.
pub struct Buffer {
    pub id: u64,
    pub byte_size: u64,
    pub contents: Vec<u8>,
}

/// Description of an image allocation plus an optional initial upload.
pub struct TextureDesc {
    pub debug: Option<&'static str>,
    pub dimensions: (u32, u32, u32),
    pub view_dimension: TextureViewDimension,
    pub format: TextureFormat,
    pub usage: Option<TextureUsages>,
    pub data: Option<Vec<u8>>,
}

/// A live image and its default view.
pub struct Texture {
    pub id: u64,
    pub view: u64,
    pub desc_dimensions: (u32, u32, u32),
    pub desc_format: TextureFormat,
}

/// Description of a sampler; `lod` carries the bit pattern of the maximum
/// level-of-detail clamp.
pub struct SamplerDesc {
    pub debug: Option<&'static str>,
    pub sampler_type: SamplerType,
    pub compare_function: Option<CompareFunction>,
    pub lod: u32,
}

/// A live sampler.
pub struct Sampler {
    pub id: u64,
    pub sampler_type: SamplerType,
}

/// Compact description of a bind-group layout: every texture binding first,
/// then every buffer binding (each with its minimum size, 0 for none), then
/// every sampler binding.
pub struct BindGroupLayoutDesc {
    pub debug: Option<&'static str>,
    pub visibility: ShaderStages,
    pub textures: Vec<(TextureSampleType, TextureViewDimension)>,
    pub buffers: Vec<u64>,
    pub samplers: Vec<SamplerType>,
}

/// The binding class of one layout entry.
#[derive(Clone, Copy, PartialEq, Eq, Debug)]
pub enum BindingType {
    Texture { sample_type: TextureSampleType, view_dimension: TextureViewDimension },
    Buffer { min_binding_size: Option<u64> },
    Sampler(SamplerType),
}

/// One entry of a bind-group layout.
#[derive(Clone, Copy, PartialEq, Eq, Debug)]
pub struct BindGroupLayoutEntry {
    pub binding: u32,
    pub visibility: ShaderStages,
    pub ty: BindingType,
}

/// A live bind-group layout together with the entries it was built from.
#[derive(Debug)]
pub struct BindGroupLayout {
    pub id: u64,
    pub entries: Vec<BindGroupLayoutEntry>,
}

/// Resources to bind against a layout, in the layout's own order.
pub struct BindGroupDesc {
    pub debug: Option<&'static str>,
    pub layout: BindGroupLayout,
    pub textures: Vec<u64>,
    pub buffers: Vec<u64>,
    pub samplers: Vec<u64>,
}

/// What one bind-group slot holds.
#[derive(Clone, Copy, PartialEq, Eq, Debug)]
pub enum BindingResource {
    TextureView(u64),
    Buffer(u64),
    Sampler(u64),
}

/// One filled bind-group slot.
#[derive(Clone, Copy, PartialEq, Eq, Debug)]
pub struct BindGroupEntry {
    pub binding: u32,
    pub resource: BindingResource,
}

/// A live bind group and the slots it binds.
#[derive(Debug)]
pub struct BindGroup {
    pub id: u64,
    pub entries: Vec<BindGroupEntry>,
}

/// An index into a caller-side table of resources.
#[derive(Clone, Copy, PartialEq, Eq, Structural, Debug)]
pub struct Handle(pub usize);

/// Stateless facade over the [`Gpu`] context; descriptors go in, handles and
/// recorded descriptors come out.
pub struct ResourceManager {}

/// The entry list that a compact layout description expands to: texture
/// entries, then buffer entries, then sampler entries, bindings numbered
/// consecutively from 0. A buffer's minimum binding size of 0 means no
/// constraint.
pub open spec fn spec_layout_entries(
    visibility: ShaderStages,
    textures: Seq<(TextureSampleType, TextureViewDimension)>,
    buffers: Seq<u64>,
    samplers: Seq<SamplerType>,
) -> Seq<BindGroupLayoutEntry> {
    Seq::new(
        textures.len() + buffers.len() + samplers.len(),
        |i: int|
            if i < textures.len() {
                BindGroupLayoutEntry {
                    binding: i as u32,
                    visibility,
                    ty: BindingType::Texture {
                        sample_type: textures[i].0,
                        view_dimension: textures[i].1,
                    },
                }
            } else if i < textures.len() + buffers.len() {
                BindGroupLayoutEntry {
                    binding: i as u32,
                    visibility,
                    ty: BindingType::Buffer {
                        min_binding_size: if buffers[i - textures.len()] == 0 {
                            None
                        } else {
                            Some(buffers[i - textures.len()])
                        },
                    },
                }
            } else {
                BindGroupLayoutEntry {
                    binding: i as u32,
                    visibility,
                    ty: BindingType::Sampler(samplers[i - textures.len() - buffers.len()]),
                }
            },
    )
}

/// The slots a bind group fills for the given resources: texture views,
/// then buffers, then samplers, matching the layout expansion above.
pub open spec fn spec_bind_group_entries(
    textures: Seq<u64>,
    buffers: Seq<u64>,
    samplers: Seq<u64>,
) -> Seq<BindGroupEntry> {
    Seq::new(
        textures.len() + buffers.len() + samplers.len(),
        |i: int|
            if i < textures.len() {
                BindGroupEntry { binding: i as u32, resource: BindingResource::TextureView(textures[i]) }
            } else if i < textures.len() + buffers.len() {
                BindGroupEntry {
                    binding: i as u32,
                    resource: BindingResource::Buffer(buffers[i - textures.len()]),
                }
            } else {
                BindGroupEntry {
                    binding: i as u32,
                    resource: BindingResource::Sampler(samplers[i - textures.len() - buffers.len()]),
                }
            },
    )
}

/// A bind set matches a layout entry for entry: same binding index at each
/// position, and a texture view exactly where the layout declares a
/// texture, a buffer where it declares a buffer, a sampler where it
/// declares a sampler. This is the structural binding-order check the
/// shaders depend on.
pub open spec fn spec_entries_class_match(
    layout: Seq<BindGroupLayoutEntry>,
    entries: Seq<BindGroupEntry>,
) -> bool {
    &&& layout.len() == entries.len()
    &&& forall|i: int|
        0 <= i < layout.len() ==> (#[trigger] layout[i]).binding == entries[i].binding
    &&& forall|i: int|
        0 <= i < layout.len() ==> ((#[trigger] layout[i]).ty is Texture <==> entries[i].resource
            is TextureView)
    &&& forall|i: int|
        0 <= i < layout.len() ==> ((#[trigger] layout[i]).ty is Buffer <==> entries[i].resource
            is Buffer)
    &&& forall|i: int|
        0 <= i < layout.len() ==> ((#[trigger] layout[i]).ty is Sampler <==> entries[i].resource
            is Sampler)
}

/// A bind group's resources fit a layout when each class has exactly as many
/// resources as the layout has entries of that class, in the same positions.
pub open spec fn spec_bind_group_matches_layout(
    layout: Seq<BindGroupLayoutEntry>,
    textures: Seq<u64>,
    buffers: Seq<u64>,
    samplers: Seq<u64>,
) -> bool {
    &&& layout.len() == textures.len() + buffers.len() + samplers.len()
    &&& forall|i: int| 0 <= i < textures.len() ==> (#[trigger] layout[i].ty) is Texture
    &&& forall|i: int|
        textures.len() <= i < textures.len() + buffers.len() ==> (#[trigger] layout[i].ty) is Buffer
    &&& forall|i: int|
        textures.len() + buffers.len() <= i < layout.len() ==> (#[trigger] layout[i].ty) is Sampler
}

impl ResourceManager {
    pub fn new() -> ResourceManager {
        ResourceManager {  }
    }

    /// Allocate a buffer of `desc.byte_size` bytes and write `desc.data`
    /// into it from offset 0.
    pub fn create_buffer(&self, gpu: &mut Gpu, desc: BufferDesc) -> (buffer: Buffer)
        requires
            old(gpu).wf(),
            old(gpu).spec_next_id() < u64::MAX,
            desc.data@.len() <= desc.byte_size,
        ensures
            final(gpu).wf(),
            final(gpu).spec_live_textures() == old(gpu).spec_live_textures(),
            final(gpu).alive() == old(gpu).alive(),
            final(gpu).spec_next_id() == old(gpu).spec_next_id() + 1,
            buffer.byte_size == desc.byte_size,
            buffer.contents@ == desc.data@,
    {
        let id = gpu.fresh_id();
        Buffer { id, byte_size: desc.byte_size, contents: desc.data }
    }

    /// Allocate an image of the requested dimensions and format, with a
    /// default view; an initial upload, when present, is the image's
    /// contents and its length is the caller's obligation
    /// (see [`crate::texture::Texture::new_from_bytes`] for the checked path).
    pub fn create_texture(&self, gpu: &mut Gpu, desc: TextureDesc) -> (texture: Texture)
        requires
            old(gpu).wf(),
            old(gpu).spec_next_id() + 1 < u64::MAX,
            old(gpu).spec_live_textures() < u64::MAX,
        ensures
            final(gpu).wf(),
            final(gpu).spec_live_textures() == old(gpu).spec_live_textures() + 1,
            final(gpu).alive() == old(gpu).alive().insert(texture.id),
            !old(gpu).alive().contains(texture.id),
            final(gpu).spec_next_id() == old(gpu).spec_next_id() + 2,
            texture.desc_dimensions == desc.dimensions,
            texture.desc_format == desc.format,
    {
        let id = gpu.fresh_texture_id();
        let view = gpu.fresh_id();
        Texture { id, view, desc_dimensions: desc.dimensions, desc_format: desc.format }
    }

    /// Create a sampler of the described class.
    pub fn create_sampler(&self, gpu: &mut Gpu, desc: SamplerDesc) -> (sampler: Sampler)
        requires
            old(gpu).wf(),
            old(gpu).spec_next_id() < u64::MAX,
        ensures
            final(gpu).wf(),
            final(gpu).spec_live_textures() == old(gpu).spec_live_textures(),
            final(gpu).alive() == old(gpu).alive(),
            final(gpu).spec_next_id() == old(gpu).spec_next_id() + 1,
            sampler.sampler_type == desc.sampler_type,
    {
        let id = gpu.fresh_id();
        Sampler { id, sampler_type: desc.sampler_type }
    }

    /// Expand a compact layout description into its entry list: textures,
    /// then buffers, then samplers, bindings numbered consecutively.
    pub fn create_bind_group_layout(&self, gpu: &mut Gpu, desc: &BindGroupLayoutDesc) -> (layout:
        BindGroupLayout)
        requires
            old(gpu).wf(),
            old(gpu).spec_next_id() < u64::MAX,
            desc.textures@.len() + desc.buffers@.len() + desc.samplers@.len() <= u32::MAX,
        ensures
            final(gpu).wf(),
            final(gpu).spec_live_textures() == old(gpu).spec_live_textures(),
            final(gpu).alive() == old(gpu).alive(),
            final(gpu).spec_next_id() == old(gpu).spec_next_id() + 1,
            layout.entries@ == spec_layout_entries(
                desc.visibility,
                desc.textures@,
                desc.buffers@,
                desc.samplers@,
            ),
    {
        let ghost expected = spec_layout_entries(
            desc.visibility,
            desc.textures@,
            desc.buffers@,
            desc.samplers@,
        );
        let mut entries: Vec<BindGroupLayoutEntry> = Vec::new();
        let mut i: u32 = 0;

        let n_textures = desc.textures.len();
        let mut k: usize = 0;
        while k < n_textures
            invariant
                n_textures == desc.textures@.len(),
                desc.textures@.len() + desc.buffers@.len() + desc.samplers@.len() <= u32::MAX,
                0 <= k <= n_textures,
                i == k,
                entries@.len() == k,
                forall|j: int| 0 <= j < k ==> entries@[j] == expected[j],
                expected == spec_layout_entries(
                    desc.visibility,
                    desc.textures@,
                    desc.buffers@,
                    desc.samplers@,
                ),
            decreases n_textures - k,
        {
            let (sample_type, view_dimension) = desc.textures[k];
            entries.push(
                BindGroupLayoutEntry {
                    binding: i,
                    visibility: desc.visibility,
                    ty: BindingType::Texture { sample_type, view_dimension },
                },
            );
            i = i + 1;
            k = k + 1;
        }

        let n_buffers = desc.buffers.len();
        let mut k2: usize = 0;
        while k2 < n_buffers
            invariant
                n_textures == desc.textures@.len(),
                n_buffers == desc.buffers@.len(),
                desc.textures@.len() + desc.buffers@.len() + desc.samplers@.len() <= u32::MAX,
                0 <= k2 <= n_buffers,
                i == n_textures + k2,
                entries@.len() == n_textures + k2,
                forall|j: int| 0 <= j < n_textures + k2 ==> entries@[j] == expected[j],
                expected == spec_layout_entries(
                    desc.visibility,
                    desc.textures@,
                    desc.buffers@,
                    desc.samplers@,
                ),
            decreases n_buffers - k2,
        {
            let min = desc.buffers[k2];
            entries.push(
                BindGroupLayoutEntry {
                    binding: i,
                    visibility: desc.visibility,
                    ty: BindingType::Buffer {
                        min_binding_size: if min == 0 {
                            None
                        } else {
                            Some(min)
                        },
                    },
                },
            );
            i = i + 1;
            k2 = k2 + 1;
        }

        let n_samplers = desc.samplers.len();
        let mut k3: usize = 0;
        while k3 < n_samplers
            invariant
                n_textures == desc.textures@.len(),
                n_buffers == desc.buffers@.len(),
                n_samplers == desc.samplers@.len(),
                desc.textures@.len() + desc.buffers@.len() + desc.samplers@.len() <= u32::MAX,
                0 <= k3 <= n_samplers,
                i == n_textures + n_buffers + k3,
                entries@.len() == n_textures + n_buffers + k3,
                forall|j: int| 0 <= j < n_textures + n_buffers + k3 ==> entries@[j] == expected[j],
                expected == spec_layout_entries(
                    desc.visibility,
                    desc.textures@,
                    desc.buffers@,
                    desc.samplers@,
                ),
            decreases n_samplers - k3,
        {
            let sampler_type = desc.samplers[k3];
            entries.push(
                BindGroupLayoutEntry {
                    binding: i,
                    visibility: desc.visibility,
                    ty: BindingType::Sampler(sampler_type),
                },
            );
            i = i + 1;
            k3 = k3 + 1;
        }

        assert(entries@ =~= expected);
        let id = gpu.fresh_id();
        BindGroupLayout { id, entries }
    }

    /// Fill a bind group against a layout. The resources must fit the
    /// layout's entry classes position for position.
    pub fn create_bind_group(&self, gpu: &mut Gpu, desc: BindGroupDesc) -> (bind_group: BindGroup)
        requires
            old(gpu).wf(),
            old(gpu).spec_next_id() < u64::MAX,
            desc.textures@.len() + desc.buffers@.len() + desc.samplers@.len() <= u32::MAX,
            spec_bind_group_matches_layout(
                desc.layout.entries@,
                desc.textures@,
                desc.buffers@,
                desc.samplers@,
            ),
        ensures
            final(gpu).wf(),
            final(gpu).spec_live_textures() == old(gpu).spec_live_textures(),
            final(gpu).alive() == old(gpu).alive(),
            final(gpu).spec_next_id() == old(gpu).spec_next_id() + 1,
            bind_group.entries@ == spec_bind_group_entries(
                desc.textures@,
                desc.buffers@,
                desc.samplers@,
            ),
    {
        let ghost expected = spec_bind_group_entries(desc.textures@, desc.buffers@, desc.samplers@);
        let mut entries: Vec<BindGroupEntry> = Vec::new();
        let mut i: u32 = 0;

        let n_textures = desc.textures.len();
        let mut k: usize = 0;
        while k < n_textures
            invariant
                n_textures == desc.textures@.len(),
                desc.textures@.len() + desc.buffers@.len() + desc.samplers@.len() <= u32::MAX,
                0 <= k <= n_textures,
                i == k,
                entries@.len() == k,
                forall|j: int| 0 <= j < k ==> entries@[j] == expected[j],
                expected == spec_bind_group_entries(desc.textures@, desc.buffers@, desc.samplers@),
            decreases n_textures - k,
        {
            let view = desc.textures[k];
            entries.push(BindGroupEntry { binding: i, resource: BindingResource::TextureView(view) });
            i = i + 1;
            k = k + 1;
        }

        let n_buffers = desc.buffers.len();
        let mut k2: usize = 0;
        while k2 < n_buffers
            invariant
                n_textures == desc.textures@.len(),
                n_buffers == desc.buffers@.len(),
                desc.textures@.len() + desc.buffers@.len() + desc.samplers@.len() <= u32::MAX,
                0 <= k2 <= n_buffers,
                i == n_textures + k2,
                entries@.len() == n_textures + k2,
                forall|j: int| 0 <= j < n_textures + k2 ==> entries@[j] == expected[j],
                expected == spec_bind_group_entries(desc.textures@, desc.buffers@, desc.samplers@),
            decreases n_buffers - k2,
        {
            let buffer = desc.buffers[k2];
            entries.push(BindGroupEntry { binding: i, resource: BindingResource::Buffer(buffer) });
            i = i + 1;
            k2 = k2 + 1;
        }

        let n_samplers = desc.samplers.len();
        let mut k3: usize = 0;
        while k3 < n_samplers
            invariant
                n_textures == desc.textures@.len(),
                n_buffers == desc.buffers@.len(),
                n_samplers == desc.samplers@.len(),
                desc.textures@.len() + desc.buffers@.len() + desc.samplers@.len() <= u32::MAX,
                0 <= k3 <= n_samplers,
                i == n_textures + n_buffers + k3,
                entries@.len() == n_textures + n_buffers + k3,
                forall|j: int| 0 <= j < n_textures + n_buffers + k3 ==> entries@[j] == expected[j],
                expected == spec_bind_group_entries(desc.textures@, desc.buffers@, desc.samplers@),
            decreases n_samplers - k3,
        {
            let sampler = desc.samplers[k3];
            entries.push(BindGroupEntry { binding: i, resource: BindingResource::Sampler(sampler) });
            i = i + 1;
            k3 = k3 + 1;
        }

        assert(entries@ =~= expected);
        let id = gpu.fresh_id();
        BindGroup { id, entries }
    }
}

} // verus!
