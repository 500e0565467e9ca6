//! The GPU passes of the deferred pipeline and the command-encoding model.
//!
//! Each pass owns an immutable pipeline plus the bind sets it needs, and
//! its `pass` method appends one record to a [`CommandEncoder`]: which
//! targets it writes and whether it clears or loads them, which bind groups
//! it sets, which texture views it samples, and what it draws. The frame
//! orchestrator encodes the passes strictly in sequence, so the record list
//! is the frame's single linear dependency chain.

use vstd::prelude::*;

use crate::gpu::Gpu;
use crate::loader::Scene;
use crate::pipelines::ShaderModule;
use crate::resources::{Material, Mesh};
use crate::texture::TextureFormat;

pub mod compose;
pub mod fxaa;
pub mod skybox;
pub mod ssao;
pub mod tonemapping;
pub mod write_gbuffers;
pub mod write_shadowmaps;

verus! {

/// Size and pixel format of the presentable surface.
#[derive(Clone, Copy, PartialEq, Eq, Structural, Debug)]
pub struct SurfaceConfig {
    pub width: u32,
    pub height: u32,
    pub format: TextureFormat,
}

/// What happens to an attachment's previous contents when a pass begins:
/// cleared to a constant (given as the bit pattern of the scalar clear
/// value) or kept.
#[derive(Clone, Copy, PartialEq, Eq, Structural, Debug)]
pub enum LoadOp {
    Clear(u32),
    Load,
}

/// One color target of a pass.
#[derive(Clone, Copy, PartialEq, Eq, Structural, Debug)]
pub struct ColorAttachment {
    pub view: u64,
    pub load: LoadOp,
}

/// The depth target of a pass.
#[derive(Clone, Copy, PartialEq, Eq, Structural, Debug)]
pub struct DepthAttachment {
    pub view: u64,
    pub load: LoadOp,
}

/// Which pass a record belongs to.
#[derive(Clone, Copy, PartialEq, Eq, Structural, Debug)]
pub enum PassKind {
    WriteShadowmaps,
    WriteGBuffers,
    Ssao,
    Compose,
    Skybox,
    Tonemapping,
    Fxaa,
    Ui,
}

/// One indexed draw of a mesh: its buffers, its index count, and the bind
/// groups set for it (the material set where the pass samples materials).
#[derive(Clone, Copy, PartialEq, Eq, Structural, Debug)]
pub struct MeshDraw {
    pub material_bind_group: Option<u64>,
    pub mesh_bind_group: u64,
    pub vertex_buffer: u64,
    pub index_buffer: u64,
    pub index_count: u32,
}

/// Everything one encoded pass does.
#[derive(PartialEq, Eq, Debug)]
pub struct PassRecord {
    pub kind: PassKind,
    pub color_attachments: Vec<ColorAttachment>,
    pub depth_attachment: Option<DepthAttachment>,
    pub pipeline: u64,
    pub bind_groups: Vec<u64>,
    pub reads: Vec<u64>,
    pub mesh_draws: Vec<MeshDraw>,
    pub fullscreen_vertices: u32,
}

/// The frame's command buffer: its passes in encoding order.
#[derive(PartialEq, Eq, Debug)]
pub struct CommandEncoder {
    pub passes: Vec<PassRecord>,
}

impl CommandEncoder {
    pub fn new() -> (e: CommandEncoder)
        ensures
            e.passes@.len() == 0,
    {
        CommandEncoder { passes: Vec::new() }
    }
}

/// The texture views a record writes: its color attachments and its depth
/// attachment.
pub open spec fn spec_pass_writes(rec: PassRecord) -> Set<u64> {
    Set::new(
        |v: u64|
            (exists|i: int|
                0 <= i < rec.color_attachments@.len() && (#[trigger] rec.color_attachments@[i]).view
                    == v) || (rec.depth_attachment matches Some(d) && d.view == v),
    )
}

/// In a pass sequence, every view that pass `i` reads out of `checked` was
/// written by an earlier pass of the same frame.
pub open spec fn spec_reads_follow_writes(passes: Seq<PassRecord>, checked: Set<u64>) -> bool {
    forall|i: int, r: int|
        0 <= i < passes.len() && 0 <= r < (#[trigger] passes[i]).reads@.len() && checked.contains(
            #[trigger] passes[i].reads@[r],
        ) ==> exists|j: int| 0 <= j < i && spec_pass_writes(#[trigger] passes[j]).contains(
            passes[i].reads@[r],
        )
}

/// The per-mesh draw list a geometry pass issues over a scene: one indexed
/// draw per mesh in scene order, binding the mesh's transform set and, when
/// `with_materials` is set, the mesh's material set.
pub open spec fn spec_scene_draws(
    meshes: Seq<Mesh>,
    materials: Seq<Material>,
    with_materials: bool,
) -> Seq<MeshDraw> {
    Seq::new(
        meshes.len(),
        |i: int|
            MeshDraw {
                material_bind_group: if with_materials {
                    Some(materials[meshes[i].material_index as int].bind_group.id)
                } else {
                    None
                },
                mesh_bind_group: meshes[i].bind_group.id,
                vertex_buffer: meshes[i].vertex_buffer.id,
                index_buffer: meshes[i].index_buffer.id,
                index_count: meshes[i].index_count,
            },
    )
}

/// Build the draw list for a scene.
pub fn scene_mesh_draws(scene: &Scene, with_materials: bool) -> (draws: Vec<MeshDraw>)
    requires
        crate::loader::spec_meshes_materials_in_range(
            scene.meshes@,
            scene.materials@.len() as int,
        ),
    ensures
        draws@ == spec_scene_draws(scene.meshes@, scene.materials@, with_materials),
{
    let mut draws: Vec<MeshDraw> = Vec::new();
    let n = scene.meshes.len();
    let mut i: usize = 0;
    while i < n
        invariant
            0 <= i <= n,
            n == scene.meshes@.len(),
            crate::loader::spec_meshes_materials_in_range(
                scene.meshes@,
                scene.materials@.len() as int,
            ),
            draws@.len() == i,
            forall|k: int|
                0 <= k < i ==> #[trigger] draws@[k] == spec_scene_draws(
                    scene.meshes@,
                    scene.materials@,
                    with_materials,
                )[k],
        decreases n - i,
    {
        let mesh = &scene.meshes[i];
        let material_bind_group: Option<u64> = if with_materials {
            Some(scene.materials[mesh.material_index].bind_group.id)
        } else {
            None
        };
        draws.push(
            MeshDraw {
                material_bind_group,
                mesh_bind_group: mesh.bind_group.id,
                vertex_buffer: mesh.vertex_buffer.id,
                index_buffer: mesh.index_buffer.id,
                index_count: mesh.index_count,
            },
        );
        i = i + 1;
    }
    assert(draws@ =~= spec_scene_draws(scene.meshes@, scene.materials@, with_materials));
    draws
}

/// The hot-reload capability every pass implements: it can list its shader
/// files and rebuild its pipeline from an already validated shader module.
/// Rebuilding touches nothing but the pipeline — the bind sets and owned
/// resources stay exactly as they were.
pub trait ReloadableShaders: Sized {
    /// What a successful rebuild did to the pass: its pipeline was rebuilt
    /// against the new shader with the same layouts, and every other field
    /// kept its value.
    spec fn spec_reload_ok(pre: Self, post: Self, config: SurfaceConfig, shader: ShaderModule) -> bool;

    /// The shader files this pass can have reloaded.
    fn available_shaders() -> (shaders: Vec<&'static str>);

    /// Rebuild the pipeline from a validated shader module.
    fn reload(
        &mut self,
        gpu: &mut Gpu,
        config: &SurfaceConfig,
        index: usize,
        shader_module: ShaderModule,
    )
        requires
            old(gpu).wf(),
            old(gpu).spec_next_id() + 8 < u64::MAX,
        ensures
            final(gpu).wf(),
            final(gpu).spec_live_textures() == old(gpu).spec_live_textures(),
            final(gpu).alive() == old(gpu).alive(),
            old(gpu).spec_next_id() <= final(gpu).spec_next_id() <= old(gpu).spec_next_id() + 8,
            Self::spec_reload_ok(*old(self), *final(self), *config, shader_module),
    ;
}

} // verus!
