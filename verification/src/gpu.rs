//! Handle-level model of the GPU device and queue.
//!
//! Every live GPU object the renderer creates (buffer, texture, sampler,
//! bind-group layout, bind group, shader module, pipeline) is represented by
//! a numeric handle drawn from one counter, so distinct creations always get
//! distinct handles. Textures are additionally tracked in an alive set so
//! that hot-swap code can be shown to release the old image before the
//! replacement goes live, and so a harness can watch the live-texture count.

use vstd::prelude::*;

verus! {

/// The device/queue context handed to every constructor.
///
/// `next_id` is the next unused handle; `live_textures` counts texture
/// handles that have been created and not destroyed, and `textures_alive`
/// is the set of exactly those handles.
pub struct Gpu {
    pub next_id: u64,
    pub live_textures: u64,
    pub textures_alive: Ghost<Set<u64>>,
}

impl Gpu {
    /// Internal consistency of the handle tracker.
    pub open spec fn wf(self) -> bool {
        &&& self.textures_alive@.finite()
        &&& self.textures_alive@.len() == self.live_textures
        &&& forall|id: u64| self.textures_alive@.contains(id) ==> id < self.next_id
    }

    pub open spec fn spec_next_id(self) -> u64 {
        self.next_id
    }

    pub open spec fn spec_live_textures(self) -> u64 {
        self.live_textures
    }

    pub open spec fn alive(self) -> Set<u64> {
        self.textures_alive@
    }

    pub fn new() -> (gpu: Gpu)
        ensures
            gpu.wf(),
            gpu.spec_live_textures() == 0,
            gpu.alive() == Set::<u64>::empty(),
    {
        Gpu { next_id: 0, live_textures: 0, textures_alive: Ghost(Set::empty()) }
    }

    /// Number of texture handles currently alive; a test harness checks this
    /// across hot-swaps to rule out leaks.
    pub fn live_texture_count(&self) -> (n: u64)
        ensures
            n == self.spec_live_textures(),
    {
        self.live_textures
    }

    /// Draw a fresh handle for an object that needs no lifetime tracking
    /// (buffers, samplers, layouts, bind groups, shader modules, pipelines).
    pub fn fresh_id(&mut self) -> (id: u64)
        requires
            old(self).wf(),
            old(self).spec_next_id() < u64::MAX,
        ensures
            final(self).wf(),
            id == old(self).spec_next_id(),
            final(self).spec_next_id() == id + 1,
            final(self).spec_live_textures() == old(self).spec_live_textures(),
            final(self).alive() == old(self).alive(),
    {
        let id = self.next_id;
        self.next_id = self.next_id + 1;
        id
    }

    /// Allocate a texture handle and mark it alive.
    pub fn fresh_texture_id(&mut self) -> (id: u64)
        requires
            old(self).wf(),
            old(self).spec_next_id() < u64::MAX,
            old(self).spec_live_textures() < u64::MAX,
        ensures
            final(self).wf(),
            id == old(self).spec_next_id(),
            final(self).spec_next_id() == id + 1,
            final(self).spec_live_textures() == old(self).spec_live_textures() + 1,
            final(self).alive() == old(self).alive().insert(id),
            !old(self).alive().contains(id),
    {
        let id = self.next_id;
        self.next_id = self.next_id + 1;
        self.live_textures = self.live_textures + 1;
        proof {
            self.textures_alive@ = self.textures_alive@.insert(id);
        }
        id
    }

    /// Release a texture handle; the image no longer holds GPU memory.
    pub fn destroy_texture(&mut self, id: u64)
        requires
            old(self).wf(),
            old(self).alive().contains(id),
        ensures
            final(self).wf(),
            final(self).spec_next_id() == old(self).spec_next_id(),
            final(self).spec_live_textures() == old(self).spec_live_textures() - 1,
            final(self).alive() == old(self).alive().remove(id),
            !final(self).alive().contains(id),
    {
        proof {
            self.textures_alive@ = self.textures_alive@.remove(id);
        }
        self.live_textures = self.live_textures - 1;
    }
}

} // verus!
