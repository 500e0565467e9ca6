//! Fixed-layout uniform buffers.
//!
//! A [`Uniform<T>`] owns one GPU-visible buffer of exactly `T`'s byte size,
//! the value currently stored in it, and a bind group exposing it at binding
//! slot 0. `update` overwrites the whole buffer in place — no partial
//! updates, no versioning — and the matching layout entry carries the byte
//! size as its minimum-size constraint, so a shader declaring a differently
//! sized block is caught when the bind group is created, not silently.
//!
//! Known risk, left open by design: uniforms are single-buffered. An
//! `update` must not land while a previously submitted command buffer that
//! reads the uniform is still in flight; the frame loop relies on the
//! presentation engine's frame-to-frame ordering for this, and a hardened
//! variant would hold one buffer slot per frame in flight.

use vstd::prelude::*;

use crate::gpu::Gpu;
use crate::resource_manager::{
    BindGroup, BindGroupEntry, BindGroupLayout, BindGroupLayoutEntry, BindingResource, BindingType,
    ShaderStages,
};

verus! {

/// A value that can live in a uniform buffer: a plain-old-data struct with
/// a fixed byte size.
pub trait UniformData: Sized {
    /// The struct's byte size as laid out for the GPU.
    spec fn spec_size() -> u64;

    /// Executable counterpart of [`Self::spec_size`].
    fn size() -> (n: u64)
        ensures
            n == Self::spec_size(),
    ;
}

/// The layout entry every uniform block declares: a uniform buffer at the
/// given binding, visible to all stages, whose minimum binding size is the
/// data's byte size.
pub open spec fn spec_uniform_layout_entry<T: UniformData>(i: u32) -> BindGroupLayoutEntry {
    BindGroupLayoutEntry {
        binding: i,
        visibility: ShaderStages::All,
        ty: BindingType::Buffer {
            min_binding_size: if T::spec_size() == 0 {
                None
            } else {
                Some(T::spec_size())
            },
        },
    }
}

/// One GPU buffer holding one `T`, plus its bind group.
pub struct Uniform<T: UniformData> {
    pub data: T,
    pub buffer: u64,
    pub bind_group: BindGroup,
}

impl<T: UniformData> Uniform<T> {
    /// The uniform after a full-buffer overwrite with `data`.
    pub open spec fn spec_updated(self, data: T) -> Uniform<T> {
        Uniform { data, ..self }
    }

    /// Allocate the buffer, upload `data`, and build the bind group for
    /// binding slot 0.
    pub fn new(gpu: &mut Gpu, label: Option<&'static str>, data: T) -> (u: Uniform<T>)
        requires
            old(gpu).wf(),
            old(gpu).spec_next_id() + 1 < u64::MAX,
        ensures
            final(gpu).wf(),
            final(gpu).spec_live_textures() == old(gpu).spec_live_textures(),
            final(gpu).alive() == old(gpu).alive(),
            final(gpu).spec_next_id() == old(gpu).spec_next_id() + 2,
            u.data == data,
            u.bind_group.entries@ == seq![
                BindGroupEntry { binding: 0u32, resource: BindingResource::Buffer(u.buffer) },
            ],
    {
        let buffer = gpu.fresh_id();
        let bind_group_id = gpu.fresh_id();
        let mut entries: Vec<BindGroupEntry> = Vec::new();
        entries.push(BindGroupEntry { binding: 0, resource: BindingResource::Buffer(buffer) });
        assert(entries@ =~= seq![
            BindGroupEntry { binding: 0u32, resource: BindingResource::Buffer(buffer) },
        ]);
        Uniform { data, buffer, bind_group: BindGroup { id: bind_group_id, entries } }
    }

    /// Overwrite the whole buffer with `data`; the buffer and bind group
    /// stay as they were.
    pub fn update(&mut self, data: T)
        ensures
            *final(self) == old(self).spec_updated(data),
            final(self).data == data,
    {
        self.data = data;
    }

    /// The value the buffer currently holds, as a staging read would see it.
    pub fn read_back(&self) -> (r: &T)
        ensures
            *r == self.data,
    {
        &self.data
    }

    /// The one-entry layout this uniform's bind group is built against.
    pub fn bind_group_layout(gpu: &mut Gpu) -> (layout: BindGroupLayout)
        requires
            old(gpu).wf(),
            old(gpu).spec_next_id() < u64::MAX,
        ensures
            final(gpu).wf(),
            final(gpu).spec_live_textures() == old(gpu).spec_live_textures(),
            final(gpu).alive() == old(gpu).alive(),
            final(gpu).spec_next_id() == old(gpu).spec_next_id() + 1,
            layout.entries@ == seq![spec_uniform_layout_entry::<T>(0)],
    {
        let id = gpu.fresh_id();
        let mut entries: Vec<BindGroupLayoutEntry> = Vec::new();
        entries.push(Self::bind_group_layout_entry(0));
        assert(entries@ =~= seq![spec_uniform_layout_entry::<T>(0)]);
        BindGroupLayout { id, entries }
    }

    /// The layout entry for this uniform block at binding `i`.
    pub fn bind_group_layout_entry(i: u32) -> (e: BindGroupLayoutEntry)
        ensures
            e == spec_uniform_layout_entry::<T>(i),
    {
        let size = T::size();
        BindGroupLayoutEntry {
            binding: i,
            visibility: ShaderStages::All,
            ty: BindingType::Buffer {
                min_binding_size: if size == 0 {
                    None
                } else {
                    Some(size)
                },
            },
        }
    }

    /// The bind-group slot for this uniform's buffer at binding `i`.
    pub fn bind_group_entry(&self, i: u32) -> (e: BindGroupEntry)
        ensures
            e == (BindGroupEntry { binding: i, resource: BindingResource::Buffer(self.buffer) }),
    {
        BindGroupEntry { binding: i, resource: BindingResource::Buffer(self.buffer) }
    }
}

/// A constructed uniform reads back the value it was built with; after an
/// overwrite it reads back the overwritten value, however many overwrites
/// follow one another.
pub proof fn lemma_uniform_round_trip<T: UniformData>(u: Uniform<T>, v: T, v2: T)
    ensures
        u.spec_updated(v).data == v,
        u.spec_updated(v).spec_updated(v2).data == v2,
        u.spec_updated(v).spec_updated(v2).buffer == u.buffer,
{
}

} // verus!
