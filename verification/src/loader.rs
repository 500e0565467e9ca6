//! Building a [`Scene`] from a parsed document.
//!
//! The on-disk import (file reading, glTF parsing, image decoding, tangent
//! generation) happens outside; what arrives here is a plain document tree:
//! nodes with decomposed local transforms, mesh primitives with their
//! attribute arrays, and materials with their factors and decoded images.
//! This module owns the logic the renderer depends on: required attributes
//! are checked, vertices are interleaved and flipped to the renderer's
//! handedness, world transforms are accumulated depth-first down the node
//! tree — each node's transform is its parent's accumulated transform
//! composed with its own local one — material indices are checked against
//! the material table, and RGB images are expanded to RGBA.

use vstd::prelude::*;

use crate::common::{
    indices_to_bytes, spec_indices_bytes, spec_vertices_bytes, vertices_to_bytes, VertexAttributes,
};
use crate::gpu::Gpu;
use crate::mat4::{
    mat4_from_scale_rotation_translation, mat4_identity, mat4_mul, spec_flip_sign, spec_mat4_mul,
    spec_mat4_identity, spec_mat4_srt, flip_sign, Mat4, Quat, Vec2, Vec3, Vec4, F32_ONE_BITS,
};
use crate::resource_manager::{BufferDesc, BufferUsages, ResourceManager, TextureUsages};
use crate::resources::{
    LightingUniform, LightingUniformData, Material, MaterialUniformData, Mesh, MeshUniformData,
    SceneUniform, SceneUniformData,
};
use crate::texture::{spec_bytes_per_pixel, Texture, TextureFormat};

verus! {

/// One mesh primitive as the importer hands it over: attribute arrays are
/// present only if the source file provides the channel.
pub struct GltfPrimitive {
    pub material: Option<usize>,
    pub indices: Option<Vec<u32>>,
    pub positions: Option<Vec<Vec3>>,
    pub normals: Option<Vec<Vec3>>,
    pub uvs: Option<Vec<Vec2>>,
    pub tangents: Option<Vec<Vec4>>,
}

/// One node of the (tree-shaped) hierarchy: its decomposed local transform,
/// its primitives, and its children.
pub struct GltfNode {
    pub translation: Vec3,
    pub rotation: Quat,
    pub scale: Vec3,
    pub primitives: Vec<GltfPrimitive>,
    pub children: Vec<GltfNode>,
}

/// Why a scene failed to load; the previously loaded scene stays in place.
#[derive(Clone, Copy, PartialEq, Eq, Structural, Debug)]
pub enum SceneLoadError {
    /// A primitive lacks indices, positions, normals or texture
    /// coordinates.
    MissingAttribute,
    /// A decoded image has a channel layout the renderer cannot upload.
    UnsupportedImageFormat,
    /// The document could not be read at all.
    IoError,
    /// A primitive names a material beyond the document's material table.
    MaterialIndexOutOfRange,
}

/// The material index a primitive draws with: the named one, or 0 when the
/// source gives none.
pub open spec fn spec_prim_material_index(prim: GltfPrimitive) -> int {
    match prim.material {
        Some(i) => i as int,
        None => 0,
    }
}

/// All four required attribute channels are present.
pub open spec fn spec_prim_attrs_ok(prim: GltfPrimitive) -> bool {
    &&& prim.indices is Some
    &&& prim.positions is Some
    &&& prim.normals is Some
    &&& prim.uvs is Some
}

/// A primitive loads exactly when its required attributes are present and
/// its material index stays inside the table.
pub open spec fn spec_prim_ok(prim: GltfPrimitive, materials_len: int) -> bool {
    &&& spec_prim_attrs_ok(prim)
    &&& spec_prim_material_index(prim) < materials_len
}

pub open spec fn spec_min(a: int, b: int) -> int {
    if a < b {
        a
    } else {
        b
    }
}

/// Number of vertices a primitive yields: the shortest of its attribute
/// arrays (and of the tangent array, when present), as interleaving stops
/// at the first exhausted channel.
pub open spec fn spec_prim_vertex_count(prim: GltfPrimitive) -> int
    recommends
        spec_prim_attrs_ok(prim),
{
    let base = spec_min(
        prim.positions->0@.len() as int,
        spec_min(prim.normals->0@.len() as int, prim.uvs->0@.len() as int),
    );
    match prim.tangents {
        Some(t) => spec_min(base, t@.len() as int),
        None => base,
    }
}

/// Mirror a vector across the z axis by flipping the z component's sign
/// bit.
pub open spec fn spec_flip_z(v: Vec3) -> Vec3 {
    Vec3 { x: v.x, y: v.y, z: spec_flip_sign(v.z) }
}

/// The interleaved vertices of a primitive: position and normal flipped to
/// the renderer's handedness, the tangent taken from the source channel
/// (flipped) or zeroed for a later external generation pass.
pub open spec fn spec_prim_vertices(prim: GltfPrimitive) -> Seq<VertexAttributes>
    recommends
        spec_prim_attrs_ok(prim),
{
    Seq::new(
        spec_prim_vertex_count(prim) as nat,
        |i: int|
            VertexAttributes {
                position: spec_flip_z(prim.positions->0@[i]),
                normal: spec_flip_z(prim.normals->0@[i]),
                uv: prim.uvs->0@[i],
                tangent: match prim.tangents {
                    Some(t) => Vec3 { x: t@[i].x, y: t@[i].y, z: spec_flip_sign(t@[i].z) },
                    None => Vec3 { x: 0, y: 0, z: 0 },
                },
            },
    )
}

/// Machine limits a primitive must fit: counts in `u32`, serialized bytes
/// in `usize`.
pub open spec fn spec_prim_sizes_ok(prim: GltfPrimitive) -> bool {
    spec_prim_attrs_ok(prim) ==> {
        &&& prim.indices->0@.len() <= u32::MAX
        &&& prim.indices->0@.len() * 4 <= usize::MAX
        &&& spec_prim_vertex_count(prim) <= u32::MAX
        &&& spec_prim_vertex_count(prim) * 44 <= usize::MAX
    }
}

/// A node's local transform: the decomposed scale, rotation and
/// translation, with the rotation's z and w and the translation's z
/// sign-flipped to the renderer's handedness.
pub open spec fn spec_node_local(node: GltfNode) -> Mat4 {
    spec_mat4_srt(
        node.scale,
        Quat {
            x: node.rotation.x,
            y: node.rotation.y,
            z: spec_flip_sign(node.rotation.z),
            w: spec_flip_sign(node.rotation.w),
        },
        Vec3 {
            x: node.translation.x,
            y: node.translation.y,
            z: spec_flip_sign(node.translation.z),
        },
    )
}

/// A node's accumulated world transform under an accumulated parent
/// transform: the parent composed with the node's local transform.
pub open spec fn spec_node_world(node: GltfNode, parent: Mat4) -> Mat4 {
    spec_mat4_mul(parent, spec_node_local(node))
}

/// The world transforms of every mesh a node's subtree yields, depth
/// first: one per own primitive, then each child's subtree under this
/// node's accumulated transform.
pub open spec fn spec_node_mesh_worlds(node: GltfNode, parent: Mat4) -> Seq<Mat4>
    decreases node, 0int,
{
    Seq::new(node.primitives@.len(), |i: int| spec_node_world(node, parent))
        + spec_forest_mesh_worlds(node.children@, spec_node_world(node, parent), 0)
}

/// The world transforms yielded by the nodes of `nodes` from index `k` on,
/// each under the same accumulated parent transform.
pub open spec fn spec_forest_mesh_worlds(nodes: Seq<GltfNode>, parent: Mat4, k: int) -> Seq<Mat4>
    decreases nodes, nodes.len() - k,
{
    if k < 0 || k >= nodes.len() {
        Seq::empty()
    } else {
        spec_node_mesh_worlds(nodes[k], parent) + spec_forest_mesh_worlds(nodes, parent, k + 1)
    }
}

/// What one loaded mesh carries from its source primitive: the counts,
/// the interleaved flipped vertices and the raw indices serialized
/// little-endian into its buffers, and the primitive's material index.
pub open spec fn spec_mesh_from_prim(m: Mesh, prim: GltfPrimitive) -> bool {
    &&& m.vertex_count == spec_prim_vertex_count(prim)
    &&& m.index_count == prim.indices->0@.len()
    &&& m.vertex_buffer.contents@ == spec_vertices_bytes(spec_prim_vertices(prim))
    &&& m.index_buffer.contents@ == spec_indices_bytes(prim.indices->0@)
    &&& m.material_index == spec_prim_material_index(prim)
}

/// The primitives of a node's subtree in loading order: the node's own,
/// depth first through its children — one loaded mesh per entry.
pub open spec fn spec_node_prims(node: GltfNode) -> Seq<GltfPrimitive>
    decreases node, 0int,
{
    node.primitives@ + spec_forest_prims(node.children@, 0)
}

/// The primitives yielded by the nodes of `nodes` from index `k` on.
pub open spec fn spec_forest_prims(nodes: Seq<GltfNode>, k: int) -> Seq<GltfPrimitive>
    decreases nodes, nodes.len() - k,
{
    if k < 0 || k >= nodes.len() {
        Seq::empty()
    } else {
        spec_node_prims(nodes[k]) + spec_forest_prims(nodes, k + 1)
    }
}

/// How many meshes a node's subtree yields.
pub open spec fn spec_node_mesh_count(node: GltfNode) -> int
    decreases node, 0int,
{
    node.primitives@.len() + spec_forest_mesh_count(node.children@, 0)
}

/// How many meshes the nodes of `nodes` from index `k` on yield.
pub open spec fn spec_forest_mesh_count(nodes: Seq<GltfNode>, k: int) -> int
    decreases nodes, nodes.len() - k,
{
    if k < 0 || k >= nodes.len() {
        0
    } else {
        spec_node_mesh_count(nodes[k]) + spec_forest_mesh_count(nodes, k + 1)
    }
}

/// Every primitive in the subtree fits the machine limits.
pub open spec fn spec_node_sizes_ok(node: GltfNode) -> bool
    decreases node, 0int,
{
    (forall|i: int|
        0 <= i < node.primitives@.len() ==> spec_prim_sizes_ok(#[trigger] node.primitives@[i]))
        && spec_forest_sizes_ok(node.children@, 0)
}

pub open spec fn spec_forest_sizes_ok(nodes: Seq<GltfNode>, k: int) -> bool
    decreases nodes, nodes.len() - k,
{
    if k < 0 || k >= nodes.len() {
        true
    } else {
        spec_node_sizes_ok(nodes[k]) && spec_forest_sizes_ok(nodes, k + 1)
    }
}

/// Every primitive in the subtree loads against a material table of the
/// given length.
pub open spec fn spec_node_loadable(node: GltfNode, materials_len: int) -> bool
    decreases node, 0int,
{
    (forall|i: int|
        0 <= i < node.primitives@.len() ==> spec_prim_ok(
            #[trigger] node.primitives@[i],
            materials_len,
        )) && spec_forest_loadable(node.children@, materials_len, 0)
}

pub open spec fn spec_forest_loadable(nodes: Seq<GltfNode>, materials_len: int, k: int) -> bool
    decreases nodes, nodes.len() - k,
{
    if k < 0 || k >= nodes.len() {
        true
    } else {
        spec_node_loadable(nodes[k], materials_len) && spec_forest_loadable(
            nodes,
            materials_len,
            k + 1,
        )
    }
}

/// The world transforms of a mesh list, in order.
pub open spec fn spec_mesh_worlds(meshes: Seq<Mesh>) -> Seq<Mat4> {
    Seq::new(meshes.len(), |i: int| meshes[i].uniform_data.world)
}

/// Every mesh of the list indexes into a material table of the given
/// length.
pub open spec fn spec_meshes_materials_in_range(meshes: Seq<Mesh>, materials_len: int) -> bool {
    forall|i: int| 0 <= i < meshes.len() ==> (#[trigger] meshes[i]).material_index < materials_len
}

/// Load one primitive under an accumulated world transform: validate the
/// required attributes and the material index, interleave and flip the
/// vertices, serialize both buffers, and wrap them in a [`Mesh`].
fn load_primitive(
    gpu: &mut Gpu,
    prim: &GltfPrimitive,
    world: Mat4,
    materials_len: usize,
) -> (r: Result<Mesh, SceneLoadError>)
    requires
        old(gpu).wf(),
        spec_prim_sizes_ok(*prim),
        old(gpu).spec_next_id() + 4 < u64::MAX,
    ensures
        final(gpu).wf(),
        final(gpu).spec_live_textures() == old(gpu).spec_live_textures(),
        final(gpu).alive() == old(gpu).alive(),
        r is Err ==> *final(gpu) == *old(gpu),
        r is Ok ==> final(gpu).spec_next_id() == old(gpu).spec_next_id() + 4,
        !spec_prim_attrs_ok(*prim) ==> r == Err::<Mesh, SceneLoadError>(
            SceneLoadError::MissingAttribute,
        ),
        spec_prim_attrs_ok(*prim) && spec_prim_material_index(*prim) >= materials_len ==> r
            == Err::<Mesh, SceneLoadError>(SceneLoadError::MaterialIndexOutOfRange),
        spec_prim_ok(*prim, materials_len as int) ==> r is Ok,
        r matches Ok(m) ==> {
            &&& m.uniform_data.world == world
            &&& m.material_index == spec_prim_material_index(*prim)
            &&& m.material_index < materials_len
            &&& m.vertex_count == spec_prim_vertex_count(*prim)
            &&& m.index_count == prim.indices->0@.len()
            &&& m.vertex_buffer.contents@ == spec_vertices_bytes(spec_prim_vertices(*prim))
            &&& m.index_buffer.contents@ == spec_indices_bytes(prim.indices->0@)
        },
{
    let indices = match &prim.indices {
        Some(v) => v,
        None => {
            return Err(SceneLoadError::MissingAttribute);
        },
    };
    let positions = match &prim.positions {
        Some(v) => v,
        None => {
            return Err(SceneLoadError::MissingAttribute);
        },
    };
    let normals = match &prim.normals {
        Some(v) => v,
        None => {
            return Err(SceneLoadError::MissingAttribute);
        },
    };
    let uvs = match &prim.uvs {
        Some(v) => v,
        None => {
            return Err(SceneLoadError::MissingAttribute);
        },
    };
    let material_index = match prim.material {
        Some(i) => i,
        None => 0,
    };
    if material_index >= materials_len {
        return Err(SceneLoadError::MaterialIndexOutOfRange);
    }

    let mut n: usize = positions.len();
    if normals.len() < n {
        n = normals.len();
    }
    if uvs.len() < n {
        n = uvs.len();
    }
    let has_tangents = match &prim.tangents {
        Some(t) => {
            if t.len() < n {
                n = t.len();
            }
            true
        },
        None => false,
    };
    assert(n == spec_prim_vertex_count(*prim));

    let mut vertices: Vec<VertexAttributes> = Vec::new();
    let mut i: usize = 0;
    while i < n
        invariant
            0 <= i <= n,
            n == spec_prim_vertex_count(*prim),
            spec_prim_attrs_ok(*prim),
            positions@ == prim.positions->0@,
            normals@ == prim.normals->0@,
            uvs@ == prim.uvs->0@,
            n <= prim.positions->0@.len(),
            n <= prim.normals->0@.len(),
            n <= prim.uvs->0@.len(),
            prim.tangents matches Some(t) ==> n <= t@.len(),
            vertices@ == spec_prim_vertices(*prim).take(i as int),
        decreases n - i,
    {
        let position = positions[i];
        let normal = normals[i];
        let uv = uvs[i];
        let tangent: Vec3 = match &prim.tangents {
            Some(t) => {
                let tv = t[i];
                Vec3 { x: tv.x, y: tv.y, z: flip_sign(tv.z) }
            },
            None => Vec3 { x: 0, y: 0, z: 0 },
        };
        vertices.push(
            VertexAttributes {
                position: Vec3 { x: position.x, y: position.y, z: flip_sign(position.z) },
                normal: Vec3 { x: normal.x, y: normal.y, z: flip_sign(normal.z) },
                uv,
                tangent,
            },
        );
        i = i + 1;
        assert(vertices@ =~= spec_prim_vertices(*prim).take(i as int));
    }
    assert(vertices@ =~= spec_prim_vertices(*prim));

    let rm = ResourceManager::new();
    let vertex_bytes = vertices_to_bytes(&vertices);
    let vertex_byte_len = vertex_bytes.len() as u64;
    let vertex_buffer = rm.create_buffer(
        gpu,
        BufferDesc {
            debug: Some("Vertex buffer"),
            byte_size: vertex_byte_len,
            usage: Some(BufferUsages { copy_dst: true, vertex: true, index: false, uniform: false }),
            data: vertex_bytes,
        },
    );
    let index_bytes = indices_to_bytes(indices);
    let index_byte_len = index_bytes.len() as u64;
    let index_buffer = rm.create_buffer(
        gpu,
        BufferDesc {
            debug: Some("Index buffer"),
            byte_size: index_byte_len,
            usage: Some(BufferUsages { copy_dst: true, vertex: false, index: true, uniform: false }),
            data: index_bytes,
        },
    );

    let vertex_count = n as u32;
    let index_count = indices.len() as u32;
    Ok(
        Mesh::new(
            gpu,
            vertex_buffer,
            index_buffer,
            vertex_count,
            index_count,
            MeshUniformData::new(world),
            material_index,
            Some("Mesh"),
        ),
    )
}

} // verus!

verus! {

/// A mesh-subtree count is never negative.
pub proof fn lemma_node_mesh_count_nonneg(node: GltfNode)
    ensures
        spec_node_mesh_count(node) >= 0,
    decreases node, 0int,
{
    lemma_forest_mesh_count_nonneg(node.children@, 0);
}

pub proof fn lemma_forest_mesh_count_nonneg(nodes: Seq<GltfNode>, k: int)
    ensures
        spec_forest_mesh_count(nodes, k) >= 0,
    decreases nodes, nodes.len() - k,
{
    if 0 <= k < nodes.len() {
        lemma_node_mesh_count_nonneg(nodes[k]);
        lemma_forest_mesh_count_nonneg(nodes, k + 1);
    }
}

/// A forest loads exactly when each of its nodes from `k` on loads.
pub proof fn lemma_forest_loadable_iff(nodes: Seq<GltfNode>, materials_len: int, k: int)
    requires
        0 <= k,
    ensures
        spec_forest_loadable(nodes, materials_len, k) <==> (forall|j: int|
            k <= j < nodes.len() ==> spec_node_loadable(#[trigger] nodes[j], materials_len)),
    decreases nodes, nodes.len() - k,
{
    if 0 <= k < nodes.len() {
        lemma_forest_loadable_iff(nodes, materials_len, k + 1);
    }
}

impl Scene {
    /// Walk one node depth-first under an accumulated parent transform,
    /// loading every primitive of the node and then every child's subtree
    /// under the node's own accumulated transform.
    pub fn load_mesh(
        gpu: &mut Gpu,
        node: &GltfNode,
        original_transform: Mat4,
        materials_len: usize,
    ) -> (r: Result<Vec<Mesh>, SceneLoadError>)
        requires
            old(gpu).wf(),
            spec_node_sizes_ok(*node),
            old(gpu).spec_next_id() + 4 * spec_node_mesh_count(*node) < u64::MAX,
        ensures
            final(gpu).wf(),
            final(gpu).spec_live_textures() == old(gpu).spec_live_textures(),
            final(gpu).alive() == old(gpu).alive(),
            old(gpu).spec_next_id() <= final(gpu).spec_next_id() <= old(gpu).spec_next_id() + 4 * spec_node_mesh_count(*node),
            r is Ok <==> spec_node_loadable(*node, materials_len as int),
            r matches Ok(meshes) ==> {
                &&& spec_mesh_worlds(meshes@) == spec_node_mesh_worlds(*node, original_transform)
                &&& spec_meshes_materials_in_range(meshes@, materials_len as int)
                &&& meshes@.len() == spec_node_prims(*node).len()
                &&& forall|i: int|
                    0 <= i < meshes@.len() ==> spec_mesh_from_prim(
                        #[trigger] meshes@[i],
                        spec_node_prims(*node)[i],
                    )
            },
        decreases *node, 0int,
    {
        proof {
            lemma_forest_mesh_count_nonneg(node.children@, 0);
        }
        let local = mat4_from_scale_rotation_translation(
            node.scale,
            Quat {
                x: node.rotation.x,
                y: node.rotation.y,
                z: flip_sign(node.rotation.z),
                w: flip_sign(node.rotation.w),
            },
            Vec3 {
                x: node.translation.x,
                y: node.translation.y,
                z: flip_sign(node.translation.z),
            },
        );
        let transform = mat4_mul(&original_transform, &local);
        assert(transform == spec_node_world(*node, original_transform));

        let mut meshes: Vec<Mesh> = Vec::new();
        let n_prims = node.primitives.len();
        let mut i: usize = 0;
        while i < n_prims
            invariant
                0 <= i <= n_prims,
                n_prims == node.primitives@.len(),
                spec_node_sizes_ok(*node),
                transform == spec_node_world(*node, original_transform),
                gpu.wf(),
                gpu.spec_live_textures() == old(gpu).spec_live_textures(),
                gpu.alive() == old(gpu).alive(),
                gpu.spec_next_id() == old(gpu).spec_next_id() + 4 * i,
                old(gpu).spec_next_id() <= gpu.spec_next_id(),
                old(gpu).spec_next_id() + 4 * spec_node_mesh_count(*node) < u64::MAX,
                spec_node_mesh_count(*node) == node.primitives@.len() + spec_forest_mesh_count(
                    node.children@,
                    0,
                ),
                spec_forest_mesh_count(node.children@, 0) >= 0,
                meshes@.len() == i,
                forall|k: int|
                    0 <= k < i ==> (#[trigger] meshes@[k]).uniform_data.world == spec_node_world(
                        *node,
                        original_transform,
                    ),
                forall|k: int|
                    0 <= k < i ==> (#[trigger] meshes@[k]).material_index < materials_len,
                forall|k: int|
                    0 <= k < i ==> spec_mesh_from_prim(
                        #[trigger] meshes@[k],
                        node.primitives@[k],
                    ),
                forall|k: int|
                    0 <= k < i ==> spec_prim_ok(
                        #[trigger] node.primitives@[k],
                        materials_len as int,
                    ),
            decreases n_prims - i,
        {
            let ghost meshes_before = meshes@;
            match load_primitive(gpu, &node.primitives[i], transform, materials_len) {
                Ok(m) => {
                    meshes.push(m);
                },
                Err(e) => {
                    return Err(e);
                },
            }
            i = i + 1;
        }

        let n_children = node.children.len();
        let mut j: usize = 0;
        proof {
            lemma_forest_sizes_iff(node.children@, 0);
            assert(spec_mesh_worlds(meshes@) =~= Seq::new(
                n_prims as nat,
                |k: int| spec_node_world(*node, original_transform),
            ));
            assert(spec_node_mesh_worlds(*node, original_transform) =~= spec_mesh_worlds(meshes@)
                + spec_forest_mesh_worlds(node.children@, transform, 0));
            assert forall|k: int| 0 <= k < meshes@.len() implies spec_mesh_from_prim(
                #[trigger] meshes@[k],
                spec_node_prims(*node)[k],
            ) by {
                assert(spec_node_prims(*node)[k] == node.primitives@[k]);
            }
            assert forall|k: int|
                0 <= k < spec_forest_prims(node.children@, 0).len()
                    implies #[trigger] spec_forest_prims(node.children@, 0)[k] == spec_node_prims(
                *node,
            )[meshes@.len() + k] by {
                assert(spec_node_prims(*node)[n_prims + k] == spec_forest_prims(
                    node.children@,
                    0,
                )[k]);
            }
        }
        while j < n_children
            invariant
                0 <= j <= n_children,
                n_children == node.children@.len(),
                n_prims == node.primitives@.len(),
                spec_node_sizes_ok(*node),
                transform == spec_node_world(*node, original_transform),
                gpu.wf(),
                gpu.spec_live_textures() == old(gpu).spec_live_textures(),
                gpu.alive() == old(gpu).alive(),
                gpu.spec_next_id() + 4 * spec_forest_mesh_count(node.children@, j as int) <= old(
                    gpu,
                ).spec_next_id() + 4 * spec_node_mesh_count(*node),
                old(gpu).spec_next_id() <= gpu.spec_next_id(),
                old(gpu).spec_next_id() + 4 * spec_node_mesh_count(*node) < u64::MAX,
                spec_node_mesh_worlds(*node, original_transform) == spec_mesh_worlds(meshes@)
                    + spec_forest_mesh_worlds(node.children@, transform, j as int),
                spec_meshes_materials_in_range(meshes@, materials_len as int),
                forall|k: int|
                    0 <= k < n_children ==> spec_node_sizes_ok(#[trigger] node.children@[k]),
                forall|k: int|
                    0 <= k < n_prims ==> spec_prim_ok(
                        #[trigger] node.primitives@[k],
                        materials_len as int,
                    ),
                forall|k: int|
                    0 <= k < j ==> spec_node_loadable(
                        #[trigger] node.children@[k],
                        materials_len as int,
                    ),
                meshes@.len() + spec_forest_prims(node.children@, j as int).len()
                    == spec_node_prims(*node).len(),
                forall|k: int|
                    0 <= k < meshes@.len() ==> spec_mesh_from_prim(
                        #[trigger] meshes@[k],
                        spec_node_prims(*node)[k],
                    ),
                forall|k: int|
                    0 <= k < spec_forest_prims(node.children@, j as int).len()
                        ==> #[trigger] spec_forest_prims(node.children@, j as int)[k]
                        == spec_node_prims(*node)[meshes@.len() + k],
            decreases n_children - j,
        {
            proof {
                lemma_forest_mesh_count_nonneg(node.children@, j + 1);
                lemma_node_mesh_count_nonneg(node.children@[j as int]);
            }
            let ghost meshes_before = meshes@;
            match Scene::load_mesh(gpu, &node.children[j], transform, materials_len) {
                Ok(mut child_meshes) => {
                    let ghost child_seq = child_meshes@;
                    meshes.append(&mut child_meshes);
                    proof {
                        let before_w = spec_mesh_worlds(meshes_before);
                        let child_w = spec_mesh_worlds(child_seq);
                        let rest_w = spec_forest_mesh_worlds(node.children@, transform, j + 1);
                        assert forall|k: int| 0 <= k < meshes@.len() implies #[trigger] spec_mesh_worlds(
                            meshes@,
                        )[k] == (before_w + child_w)[k] by {
                            if k < meshes_before.len() {
                                assert(meshes@[k] == meshes_before[k]);
                            } else {
                                assert(meshes@[k] == child_seq[k - meshes_before.len()]);
                            }
                        }
                        assert(spec_mesh_worlds(meshes@) =~= before_w + child_w);
                        assert((before_w + child_w) + rest_w =~= before_w + (child_w + rest_w));
                        let prims_child = spec_node_prims(node.children@[j as int]);
                        let forest_j = spec_forest_prims(node.children@, j as int);
                        let forest_j1 = spec_forest_prims(node.children@, j + 1);
                        assert(forest_j =~= prims_child + forest_j1);
                        assert forall|k: int| 0 <= k < meshes@.len() implies spec_mesh_from_prim(
                            #[trigger] meshes@[k],
                            spec_node_prims(*node)[k],
                        ) by {
                            if k < meshes_before.len() {
                                assert(meshes@[k] == meshes_before[k]);
                            } else {
                                let t = k - meshes_before.len();
                                assert(meshes@[k] == child_seq[t]);
                                assert(forest_j[t] == prims_child[t]);
                                assert(spec_node_prims(*node)[k] == forest_j[t]);
                            }
                        }
                        assert forall|k: int|
                            0 <= k < forest_j1.len() implies #[trigger] forest_j1[k]
                            == spec_node_prims(*node)[meshes@.len() + k] by {
                            assert(forest_j[child_seq.len() + k] == forest_j1[k]);
                            assert(spec_node_prims(*node)[meshes_before.len() + child_seq.len()
                                + k] == forest_j[child_seq.len() + k]);
                        }
                        assert forall|k: int| 0 <= k < meshes@.len() implies (
                        #[trigger] meshes@[k]).material_index < materials_len as int by {
                            if k < meshes_before.len() {
                                assert(meshes@[k] == meshes_before[k]);
                            } else {
                                assert(meshes@[k] == child_seq[k - meshes_before.len()]);
                            }
                        }
                    }
                },
                Err(e) => {
                    proof {
                        lemma_forest_loadable_iff(node.children@, materials_len as int, 0);
                    }
                    return Err(e);
                },
            }
            j = j + 1;
        }
        proof {
            lemma_forest_loadable_iff(node.children@, materials_len as int, 0);
            assert(spec_mesh_worlds(meshes@) =~= spec_node_mesh_worlds(*node, original_transform));
            assert(spec_forest_prims(node.children@, n_children as int) =~= Seq::<
                GltfPrimitive,
            >::empty());
        }
        Ok(meshes)
    }
}

/// Transform composition down the hierarchy: under an accumulated parent
/// transform `p`, a node's own meshes bake to `p * local(node)`, and the
/// meshes of its `k`-th child bake to `(p * local(node)) * local(child)`.
pub proof fn lemma_transform_composition(node: GltfNode, k: int, p: Mat4)
    requires
        0 <= k < node.children@.len(),
    ensures
        forall|i: int|
            0 <= i < node.primitives@.len() ==> spec_node_mesh_worlds(node, p)[i] == spec_mat4_mul(
                p,
                spec_node_local(node),
            ),
        forall|i: int|
            0 <= i < node.children@[k].primitives@.len() ==> spec_node_mesh_worlds(
                node.children@[k],
                spec_node_world(node, p),
            )[i] == spec_mat4_mul(spec_node_world(node, p), spec_node_local(node.children@[k])),
{
}

} // verus!

verus! {

/// A loaded scene: every mesh's material index stays inside the material
/// table, mesh world transforms are the depth-first accumulation over the
/// source hierarchy, and the two global uniforms are ready to bind.
pub struct Scene {
    pub meshes: Vec<Mesh>,
    pub materials: Vec<Material>,
    pub scene: SceneUniform,
    pub lighting: LightingUniform,
}

/// Channel layout of a decoded image.
#[derive(Clone, Copy, PartialEq, Eq, Structural, Debug)]
pub enum GltfImageFormat {
    R8G8B8A8,
    R8G8B8,
    Unsupported,
}

/// One decoded image: its layout, size and pixel bytes.
pub struct GltfImage {
    pub format: GltfImageFormat,
    pub width: u32,
    pub height: u32,
    pub pixels: Vec<u8>,
}

/// One source material: PBR factors and its optional decoded images.
pub struct GltfMaterial {
    pub base_color_factor: Vec4,
    pub roughness_factor: u32,
    pub metallic_factor: u32,
    pub base_color_image: Option<GltfImage>,
    pub normal_image: Option<GltfImage>,
    pub metal_roughness_image: Option<GltfImage>,
}

/// A parsed document: the default scene's root nodes and the material
/// table.
pub struct GltfDocument {
    pub scene_nodes: Vec<GltfNode>,
    pub materials: Vec<GltfMaterial>,
}

/// A decoded image's pixel buffer agrees with its declared size, and the
/// RGBA expansion fits the address space.
pub open spec fn spec_image_sizes_ok(img: GltfImage) -> bool {
    match img.format {
        GltfImageFormat::R8G8B8A8 => img.pixels@.len() == 4 * ((img.width as int) * (
        img.height as int)),
        GltfImageFormat::R8G8B8 => img.pixels@.len() == 3 * ((img.width as int) * (
        img.height as int)) && 4 * ((img.width as int) * (img.height as int)) <= usize::MAX,
        GltfImageFormat::Unsupported => true,
    }
}

pub open spec fn spec_opt_image_sizes_ok(img: Option<GltfImage>) -> bool {
    match img {
        Some(i) => spec_image_sizes_ok(i),
        None => true,
    }
}

pub open spec fn spec_material_sizes_ok(m: GltfMaterial) -> bool {
    &&& spec_opt_image_sizes_ok(m.base_color_image)
    &&& spec_opt_image_sizes_ok(m.normal_image)
    &&& spec_opt_image_sizes_ok(m.metal_roughness_image)
}

/// An absent image falls back to a constant texel; a present one must have
/// a layout the renderer can upload.
pub open spec fn spec_image_supported(img: Option<GltfImage>) -> bool {
    match img {
        Some(i) => !(i.format is Unsupported),
        None => true,
    }
}

pub open spec fn spec_material_images_supported(m: GltfMaterial) -> bool {
    &&& spec_image_supported(m.base_color_image)
    &&& spec_image_supported(m.normal_image)
    &&& spec_image_supported(m.metal_roughness_image)
}

/// The three textures a material resolves from its source: albedo in
/// sRGB, normal and metal-roughness linear, each uploaded from the host;
/// a present image gives its own extent, an absent one falls back to a
/// 1x1 constant texel.
pub open spec fn spec_material_textures_from_source(m: Material, src: GltfMaterial) -> bool {
    &&& m.diffuse_texture.format == TextureFormat::Rgba8UnormSrgb
    &&& m.normal_texture.format == TextureFormat::Rgba8Unorm
    &&& m.metal_roughness_texture.format == TextureFormat::Rgba8Unorm
    &&& m.diffuse_texture.usage == crate::texture::spec_upload_usage()
    &&& m.normal_texture.usage == crate::texture::spec_upload_usage()
    &&& m.metal_roughness_texture.usage == crate::texture::spec_upload_usage()
    &&& m.diffuse_texture.contents@ == spec_resolved_texels(
        src.base_color_image,
        spec_fallback_albedo_texel(),
    )
    &&& m.normal_texture.contents@ == spec_resolved_texels(
        src.normal_image,
        spec_fallback_normal_texel(),
    )
    &&& m.metal_roughness_texture.contents@ == spec_resolved_texels(
        src.metal_roughness_image,
        spec_fallback_metal_roughness_texel(),
    )
    &&& (match src.base_color_image {
        Some(img) => m.diffuse_texture.width == img.width && m.diffuse_texture.height
            == img.height,
        None => m.diffuse_texture.width == 1 && m.diffuse_texture.height == 1,
    })
    &&& (match src.normal_image {
        Some(img) => m.normal_texture.width == img.width && m.normal_texture.height == img.height,
        None => m.normal_texture.width == 1 && m.normal_texture.height == 1,
    })
    &&& (match src.metal_roughness_image {
        Some(img) => m.metal_roughness_texture.width == img.width
            && m.metal_roughness_texture.height == img.height,
        None => m.metal_roughness_texture.width == 1 && m.metal_roughness_texture.height == 1,
    })
}

/// A document loads exactly when every subtree loads against its material
/// table and every material image is supported.
pub open spec fn spec_document_loadable(doc: GltfDocument) -> bool {
    &&& spec_forest_loadable(doc.scene_nodes@, doc.materials@.len() as int, 0)
    &&& forall|i: int|
        0 <= i < doc.materials@.len() ==> spec_material_images_supported(
            #[trigger] doc.materials@[i],
        )
}

/// All four components equal.
pub open spec fn spec_vec4_splat(x: u32) -> Vec4 {
    Vec4 { x, y: x, z: x, w: x }
}

/// Every subtree of the forest from `k` on fits the machine limits exactly
/// when each node's subtree does.
pub proof fn lemma_forest_sizes_iff(nodes: Seq<GltfNode>, k: int)
    requires
        0 <= k,
    ensures
        spec_forest_sizes_ok(nodes, k) <==> (forall|j: int|
            k <= j < nodes.len() ==> spec_node_sizes_ok(#[trigger] nodes[j])),
    decreases nodes, nodes.len() - k,
{
    if 0 <= k < nodes.len() {
        lemma_forest_sizes_iff(nodes, k + 1);
    }
}

/// Tightly packed RGB bytes expanded to RGBA with a fully opaque alpha.
pub open spec fn spec_rgb_to_rgba(pixels: Seq<u8>) -> Seq<u8> {
    Seq::new(
        (pixels.len() / 3 * 4) as nat,
        |b: int|
            if b % 4 == 3 {
                255u8
            } else {
                pixels[(b / 4) * 3 + (b % 4)]
            },
    )
}

/// The constant texel standing in for an absent albedo image: opaque
/// white.
pub open spec fn spec_fallback_albedo_texel() -> Seq<u8> {
    seq![255u8, 255u8, 255u8, 255u8]
}

/// The constant texel standing in for an absent normal map: the flat
/// up-facing normal.
pub open spec fn spec_fallback_normal_texel() -> Seq<u8> {
    seq![128u8, 128u8, 255u8, 255u8]
}

/// The constant texel standing in for an absent metal-roughness map.
pub open spec fn spec_fallback_metal_roughness_texel() -> Seq<u8> {
    seq![255u8, 128u8, 128u8, 255u8]
}

/// The texels a material slot uploads: a present image's pixels (RGB
/// expanded to RGBA), or the given constant fallback texel when the source
/// has none.
pub open spec fn spec_resolved_texels(image: Option<GltfImage>, fallback: Seq<u8>) -> Seq<u8> {
    match image {
        Some(img) => match img.format {
            GltfImageFormat::R8G8B8 => spec_rgb_to_rgba(img.pixels@),
            _ => img.pixels@,
        },
        None => fallback,
    }
}

/// Expand tightly packed RGB bytes to RGBA with a fully opaque alpha.
pub fn expand_rgb_to_rgba(pixels: &Vec<u8>) -> (out: Vec<u8>)
    requires
        pixels@.len() % 3 == 0,
        pixels@.len() / 3 * 4 <= usize::MAX,
    ensures
        out@ == spec_rgb_to_rgba(pixels@),
{
    let n = pixels.len() / 3;
    assert(pixels@.len() == 3 * n);
    let mut out: Vec<u8> = Vec::new();
    let mut k: usize = 0;
    while k < n
        invariant
            0 <= k <= n,
            n == pixels@.len() / 3,
            pixels@.len() == 3 * n,
            n * 4 <= usize::MAX,
            out@.len() == 4 * k,
            forall|b: int|
                0 <= b < out@.len() ==> #[trigger] out@[b] == (if b % 4 == 3 {
                    255u8
                } else {
                    pixels@[(b / 4) * 3 + (b % 4)]
                }),
        decreases n - k,
    {
        out.push(pixels[3 * k]);
        out.push(pixels[3 * k + 1]);
        out.push(pixels[3 * k + 2]);
        out.push(255);
        k = k + 1;
    }
    assert(out@ =~= spec_rgb_to_rgba(pixels@));
    out
}

/// Build one of a material's textures: the decoded image when present
/// (RGB expanded to RGBA), or a 1x1 constant texel when absent.
fn material_texture(
    gpu: &mut Gpu,
    image: &Option<GltfImage>,
    fallback: &Vec<u8>,
    format: TextureFormat,
    label: Option<&'static str>,
) -> (r: Result<Texture, SceneLoadError>)
    requires
        old(gpu).wf(),
        spec_opt_image_sizes_ok(*image),
        spec_bytes_per_pixel(format) == Some(4u64),
        fallback@.len() == 4,
        old(gpu).spec_next_id() + 2 < u64::MAX,
        old(gpu).spec_live_textures() < u64::MAX,
    ensures
        final(gpu).wf(),
        old(gpu).spec_next_id() <= final(gpu).spec_next_id() <= old(gpu).spec_next_id() + 2,
        r is Ok <==> spec_image_supported(*image),
        r is Err ==> *final(gpu) == *old(gpu),
        r is Err ==> r == Err::<Texture, SceneLoadError>(SceneLoadError::UnsupportedImageFormat),
        r matches Ok(t) ==> {
            &&& final(gpu).spec_live_textures() == old(gpu).spec_live_textures() + 1
            &&& final(gpu).alive() == old(gpu).alive().insert(t.texture)
            &&& !old(gpu).alive().contains(t.texture)
            &&& old(gpu).spec_next_id() <= t.texture < final(gpu).spec_next_id()
            &&& t.format == format
            &&& t.usage == crate::texture::spec_upload_usage()
            &&& t.contents@ == spec_resolved_texels(*image, fallback@)
            &&& (match *image {
                Some(img) => t.width == img.width && t.height == img.height,
                None => t.width == 1 && t.height == 1,
            })
        },
{
    let usage = TextureUsages { copy_dst: true, texture_binding: true, render_attachment: false };
    match image {
        None => {
            match Texture::new_1x1_texture(gpu, fallback, format, usage, label) {
                Ok(t) => Ok(t),
                Err(_) => {
                    proof {
                        assert(false);
                    }
                    Err(SceneLoadError::UnsupportedImageFormat)
                },
            }
        },
        Some(img) => {
            match img.format {
                GltfImageFormat::R8G8B8A8 => {
                    proof {
                        let w = img.width as int;
                        let h = img.height as int;
                        assert(4 * (w * h) == 4 * w * h) by (nonlinear_arith);
                    }
                    match Texture::new_from_bytes(
                        gpu,
                        &img.pixels,
                        img.width,
                        img.height,
                        format,
                        usage,
                        label,
                        false,
                    ) {
                        Ok(t) => Ok(t),
                        Err(_) => {
                            proof {
                                assert(false);
                            }
                            Err(SceneLoadError::UnsupportedImageFormat)
                        },
                    }
                },
                GltfImageFormat::R8G8B8 => {
                    proof {
                        let w = img.width as int;
                        let h = img.height as int;
                        assert((3 * (w * h)) % 3 == 0) by (nonlinear_arith);
                        assert((3 * (w * h)) / 3 == w * h) by (nonlinear_arith);
                        assert(4 * (w * h) == 4 * w * h) by (nonlinear_arith);
                    }
                    let rgba = expand_rgb_to_rgba(&img.pixels);
                    match Texture::new_from_bytes(
                        gpu,
                        &rgba,
                        img.width,
                        img.height,
                        format,
                        usage,
                        label,
                        false,
                    ) {
                        Ok(t) => Ok(t),
                        Err(_) => {
                            proof {
                                assert(false);
                            }
                            Err(SceneLoadError::UnsupportedImageFormat)
                        },
                    }
                },
                GltfImageFormat::Unsupported => Err(SceneLoadError::UnsupportedImageFormat),
            }
        },
    }
}

} // verus!

verus! {

/// Bit pattern of `4.0f32`.
pub const F32_FOUR_BITS: u32 = 0x4080_0000;

/// Bit pattern of `-4.0f32`.
pub const F32_NEG_FOUR_BITS: u32 = 0xC080_0000;

/// Bit pattern of `-1.0f32`.
pub const F32_NEG_ONE_BITS: u32 = 0xBF80_0000;

/// The four built-in white point lights every fresh scene starts with, at
/// the corners of a square facing the origin.
pub open spec fn spec_default_lights() -> Seq<(Vec3, Vec3)> {
    seq![
        (
            Vec3 { x: F32_NEG_FOUR_BITS, y: F32_FOUR_BITS, z: F32_NEG_ONE_BITS },
            Vec3 { x: F32_ONE_BITS, y: F32_ONE_BITS, z: F32_ONE_BITS },
        ),
        (
            Vec3 { x: F32_FOUR_BITS, y: F32_FOUR_BITS, z: F32_NEG_ONE_BITS },
            Vec3 { x: F32_ONE_BITS, y: F32_ONE_BITS, z: F32_ONE_BITS },
        ),
        (
            Vec3 { x: F32_NEG_FOUR_BITS, y: F32_NEG_FOUR_BITS, z: F32_NEG_ONE_BITS },
            Vec3 { x: F32_ONE_BITS, y: F32_ONE_BITS, z: F32_ONE_BITS },
        ),
        (
            Vec3 { x: F32_FOUR_BITS, y: F32_NEG_FOUR_BITS, z: F32_NEG_ONE_BITS },
            Vec3 { x: F32_ONE_BITS, y: F32_ONE_BITS, z: F32_ONE_BITS },
        ),
    ]
}

fn default_lights() -> (lights: Vec<(Vec3, Vec3)>)
    ensures
        lights@ == spec_default_lights(),
{
    let white = Vec3 { x: F32_ONE_BITS, y: F32_ONE_BITS, z: F32_ONE_BITS };
    let mut lights: Vec<(Vec3, Vec3)> = Vec::new();
    lights.push((Vec3 { x: F32_NEG_FOUR_BITS, y: F32_FOUR_BITS, z: F32_NEG_ONE_BITS }, white));
    lights.push((Vec3 { x: F32_FOUR_BITS, y: F32_FOUR_BITS, z: F32_NEG_ONE_BITS }, white));
    lights.push((Vec3 { x: F32_NEG_FOUR_BITS, y: F32_NEG_FOUR_BITS, z: F32_NEG_ONE_BITS }, white));
    lights.push((Vec3 { x: F32_FOUR_BITS, y: F32_NEG_FOUR_BITS, z: F32_NEG_ONE_BITS }, white));
    assert(lights@ =~= spec_default_lights());
    lights
}

impl Scene {
    /// Build a scene from a parsed document: every root subtree is walked
    /// depth-first under the identity transform, every material is built
    /// with its factors and its three textures (constant texels standing in
    /// for absent images), and the global uniforms are created. The shadow
    /// slot's matrices arrive ready-made from the caller's camera code.
    pub fn from_gltf(gpu: &mut Gpu, doc: &GltfDocument, shadow: SceneUniformData) -> (r: Result<
        Scene,
        SceneLoadError,
    >)
        requires
            old(gpu).wf(),
            spec_forest_sizes_ok(doc.scene_nodes@, 0),
            forall|i: int|
                0 <= i < doc.materials@.len() ==> spec_material_sizes_ok(
                    #[trigger] doc.materials@[i],
                ),
            old(gpu).spec_next_id() + 4 * spec_forest_mesh_count(doc.scene_nodes@, 0) + 11
                * doc.materials@.len() + 6 < u64::MAX,
            old(gpu).spec_live_textures() + 3 * doc.materials@.len() < u64::MAX,
        ensures
            final(gpu).wf(),
            r is Ok <==> spec_document_loadable(*doc),
            r is Ok ==> final(gpu).spec_live_textures() == old(gpu).spec_live_textures() + 3
                * doc.materials@.len(),
            r matches Ok(scene) ==> spec_materials_textures_alive(scene.materials@, *final(gpu)),
            r matches Ok(scene) ==> spec_materials_ids_ascending(scene.materials@),
            r is Err ==> final(gpu).spec_live_textures() == old(gpu).spec_live_textures(),
            r is Err ==> final(gpu).alive() == old(gpu).alive(),
            r matches Ok(scene) ==> {
                &&& scene.materials@.len() == doc.materials@.len()
                &&& spec_meshes_materials_in_range(scene.meshes@, scene.materials@.len() as int)
                &&& spec_mesh_worlds(scene.meshes@) == spec_forest_mesh_worlds(
                    doc.scene_nodes@,
                    spec_mat4_identity(),
                    0,
                )
                &&& forall|i: int|
                    0 <= i < doc.materials@.len() ==> {
                        &&& (#[trigger] scene.materials@[i]).uniform_data.ambient
                            == doc.materials@[i].base_color_factor
                        &&& scene.materials@[i].uniform_data.diffuse == spec_vec4_splat(
                            doc.materials@[i].roughness_factor,
                        )
                        &&& scene.materials@[i].uniform_data.specular == spec_vec4_splat(
                            doc.materials@[i].metallic_factor,
                        )
                    }
                &&& scene.meshes@.len() == spec_forest_prims(doc.scene_nodes@, 0).len()
                &&& forall|i: int|
                    0 <= i < scene.meshes@.len() ==> spec_mesh_from_prim(
                        #[trigger] scene.meshes@[i],
                        spec_forest_prims(doc.scene_nodes@, 0)[i],
                    )
                &&& forall|i: int|
                    0 <= i < doc.materials@.len() ==> spec_material_textures_from_source(
                        #[trigger] scene.materials@[i],
                        doc.materials@[i],
                    )
                &&& scene.lighting.data.count == 4
                &&& scene.scene.data_1 == shadow
            },
    {
        let identity = mat4_identity();
        let materials_len = doc.materials.len();

        let mut meshes: Vec<Mesh> = Vec::new();
        let n_roots = doc.scene_nodes.len();
        let mut r_idx: usize = 0;
        proof {
            lemma_forest_sizes_iff(doc.scene_nodes@, 0);
            lemma_forest_mesh_count_nonneg(doc.scene_nodes@, 0);
        }
        while r_idx < n_roots
            invariant
                0 <= r_idx <= n_roots,
                n_roots == doc.scene_nodes@.len(),
                materials_len == doc.materials@.len(),
                identity == spec_mat4_identity(),
                gpu.wf(),
                gpu.spec_live_textures() == old(gpu).spec_live_textures(),
                gpu.alive() == old(gpu).alive(),
                old(gpu).spec_next_id() <= gpu.spec_next_id(),
                gpu.spec_next_id() + 4 * spec_forest_mesh_count(doc.scene_nodes@, r_idx as int)
                    <= old(gpu).spec_next_id() + 4 * spec_forest_mesh_count(doc.scene_nodes@, 0),
                old(gpu).spec_next_id() + 4 * spec_forest_mesh_count(doc.scene_nodes@, 0) + 11
                    * doc.materials@.len() + 6 < u64::MAX,
                forall|k: int|
                    0 <= k < n_roots ==> spec_node_sizes_ok(#[trigger] doc.scene_nodes@[k]),
                spec_mesh_worlds(meshes@) + spec_forest_mesh_worlds(
                    doc.scene_nodes@,
                    spec_mat4_identity(),
                    r_idx as int,
                ) == spec_forest_mesh_worlds(doc.scene_nodes@, spec_mat4_identity(), 0),
                spec_meshes_materials_in_range(meshes@, materials_len as int),
                forall|k: int|
                    0 <= k < r_idx ==> spec_node_loadable(
                        #[trigger] doc.scene_nodes@[k],
                        materials_len as int,
                    ),
                meshes@.len() + spec_forest_prims(doc.scene_nodes@, r_idx as int).len()
                    == spec_forest_prims(doc.scene_nodes@, 0).len(),
                forall|k: int|
                    0 <= k < meshes@.len() ==> spec_mesh_from_prim(
                        #[trigger] meshes@[k],
                        spec_forest_prims(doc.scene_nodes@, 0)[k],
                    ),
                forall|k: int|
                    0 <= k < spec_forest_prims(doc.scene_nodes@, r_idx as int).len()
                        ==> #[trigger] spec_forest_prims(doc.scene_nodes@, r_idx as int)[k]
                        == spec_forest_prims(doc.scene_nodes@, 0)[meshes@.len() + k],
            decreases n_roots - r_idx,
        {
            proof {
                lemma_forest_mesh_count_nonneg(doc.scene_nodes@, r_idx + 1);
                lemma_node_mesh_count_nonneg(doc.scene_nodes@[r_idx as int]);
            }
            let ghost meshes_before = meshes@;
            match Scene::load_mesh(gpu, &doc.scene_nodes[r_idx], identity, materials_len) {
                Ok(mut root_meshes) => {
                    let ghost root_seq = root_meshes@;
                    meshes.append(&mut root_meshes);
                    proof {
                        let before_w = spec_mesh_worlds(meshes_before);
                        let root_w = spec_mesh_worlds(root_seq);
                        let rest_w = spec_forest_mesh_worlds(
                            doc.scene_nodes@,
                            spec_mat4_identity(),
                            r_idx + 1,
                        );
                        assert forall|k: int| 0 <= k < meshes@.len() implies #[trigger] spec_mesh_worlds(
                            meshes@,
                        )[k] == (before_w + root_w)[k] by {
                            if k < meshes_before.len() {
                                assert(meshes@[k] == meshes_before[k]);
                            } else {
                                assert(meshes@[k] == root_seq[k - meshes_before.len()]);
                            }
                        }
                        assert(spec_mesh_worlds(meshes@) =~= before_w + root_w);
                        assert((before_w + root_w) + rest_w =~= before_w + (root_w + rest_w));
                        let prims_root = spec_node_prims(doc.scene_nodes@[r_idx as int]);
                        let forest_r = spec_forest_prims(doc.scene_nodes@, r_idx as int);
                        let forest_r1 = spec_forest_prims(doc.scene_nodes@, r_idx + 1);
                        assert(forest_r =~= prims_root + forest_r1);
                        assert forall|k: int| 0 <= k < meshes@.len() implies spec_mesh_from_prim(
                            #[trigger] meshes@[k],
                            spec_forest_prims(doc.scene_nodes@, 0)[k],
                        ) by {
                            if k < meshes_before.len() {
                                assert(meshes@[k] == meshes_before[k]);
                            } else {
                                let t = k - meshes_before.len();
                                assert(meshes@[k] == root_seq[t]);
                                assert(forest_r[t] == prims_root[t]);
                                assert(spec_forest_prims(doc.scene_nodes@, 0)[k] == forest_r[t]);
                            }
                        }
                        assert forall|k: int|
                            0 <= k < forest_r1.len() implies #[trigger] forest_r1[k]
                            == spec_forest_prims(doc.scene_nodes@, 0)[meshes@.len() + k] by {
                            assert(forest_r[root_seq.len() + k] == forest_r1[k]);
                            assert(spec_forest_prims(doc.scene_nodes@, 0)[meshes_before.len()
                                + root_seq.len() + k] == forest_r[root_seq.len() + k]);
                        }
                        assert forall|k: int| 0 <= k < meshes@.len() implies (
                        #[trigger] meshes@[k]).material_index < materials_len as int by {
                            if k < meshes_before.len() {
                                assert(meshes@[k] == meshes_before[k]);
                            } else {
                                assert(meshes@[k] == root_seq[k - meshes_before.len()]);
                            }
                        }
                    }
                },
                Err(e) => {
                    proof {
                        lemma_forest_loadable_iff(doc.scene_nodes@, materials_len as int, 0);
                    }
                    return Err(e);
                },
            }
            r_idx = r_idx + 1;
        }

        let mut albedo_fallback: Vec<u8> = Vec::new();
        albedo_fallback.push(255);
        albedo_fallback.push(255);
        albedo_fallback.push(255);
        albedo_fallback.push(255);
        assert(albedo_fallback@ =~= spec_fallback_albedo_texel());
        let mut normal_fallback: Vec<u8> = Vec::new();
        normal_fallback.push(128);
        normal_fallback.push(128);
        normal_fallback.push(255);
        normal_fallback.push(255);
        assert(normal_fallback@ =~= spec_fallback_normal_texel());
        let mut metal_roughness_fallback: Vec<u8> = Vec::new();
        metal_roughness_fallback.push(255);
        metal_roughness_fallback.push(128);
        metal_roughness_fallback.push(128);
        metal_roughness_fallback.push(255);
        assert(metal_roughness_fallback@ =~= spec_fallback_metal_roughness_texel());

        let mut materials: Vec<Material> = Vec::new();
        let mut m_idx: usize = 0;
        while m_idx < materials_len
            invariant
                0 <= m_idx <= materials_len,
                materials_len == doc.materials@.len(),
                gpu.wf(),
                old(gpu).wf(),
                old(gpu).spec_next_id() <= gpu.spec_next_id(),
                gpu.spec_live_textures() == old(gpu).spec_live_textures() + 3 * m_idx,
                spec_materials_textures_alive(materials@, *gpu),
                spec_materials_ids_ascending(materials@),
                forall|i: int|
                    0 <= i < m_idx ==> {
                        let mm = #[trigger] materials@[i];
                        &&& old(gpu).spec_next_id() <= mm.diffuse_texture.texture
                        &&& mm.metal_roughness_texture.texture < gpu.spec_next_id()
                    },
                gpu.alive() == old(gpu).alive().union(spec_materials_owned_set(materials@)),
                gpu.spec_next_id() + 11 * (materials_len - m_idx) + 6 < u64::MAX,
                old(gpu).spec_live_textures() + 3 * doc.materials@.len() < u64::MAX,
                forall|i: int|
                    0 <= i < materials_len ==> spec_material_sizes_ok(#[trigger] doc.materials@[i]),
                albedo_fallback@ == spec_fallback_albedo_texel(),
                normal_fallback@ == spec_fallback_normal_texel(),
                metal_roughness_fallback@ == spec_fallback_metal_roughness_texel(),
                materials@.len() == m_idx,
                forall|i: int|
                    0 <= i < m_idx ==> {
                        &&& (#[trigger] materials@[i]).uniform_data.ambient
                            == doc.materials@[i].base_color_factor
                        &&& materials@[i].uniform_data.diffuse == spec_vec4_splat(
                            doc.materials@[i].roughness_factor,
                        )
                        &&& materials@[i].uniform_data.specular == spec_vec4_splat(
                            doc.materials@[i].metallic_factor,
                        )
                    },
                forall|i: int|
                    0 <= i < m_idx ==> spec_material_images_supported(#[trigger] doc.materials@[i]),
                forall|i: int|
                    0 <= i < m_idx ==> spec_material_textures_from_source(
                        #[trigger] materials@[i],
                        doc.materials@[i],
                    ),
            decreases materials_len - m_idx,
        {
            let ghost gpu_at_head = *gpu;
            let m = &doc.materials[m_idx];
            let material_data = MaterialUniformData {
                ambient: m.base_color_factor,
                diffuse: Vec4 {
                    x: m.roughness_factor,
                    y: m.roughness_factor,
                    z: m.roughness_factor,
                    w: m.roughness_factor,
                },
                specular: Vec4 {
                    x: m.metallic_factor,
                    y: m.metallic_factor,
                    z: m.metallic_factor,
                    w: m.metallic_factor,
                },
            };
            let albedo_texture = match material_texture(
                gpu,
                &m.base_color_image,
                &albedo_fallback,
                TextureFormat::Rgba8UnormSrgb,
                Some("Color texture"),
            ) {
                Ok(t) => t,
                Err(e) => {
                    release_materials(gpu, &materials);
                    proof {
                        assert forall|id: u64|
                            gpu.alive().contains(id) == old(gpu).alive().contains(id) by {
                            if spec_materials_own_texture(materials@, id) {
                                lemma_owned_ids_fresh(materials@, *old(gpu), id);
                            }
                        }
                        assert(gpu.alive() =~= old(gpu).alive());
                    }
                    return Err(e);
                },
            };
            let normal_texture = match material_texture(
                gpu,
                &m.normal_image,
                &normal_fallback,
                TextureFormat::Rgba8Unorm,
                Some("Normal texture"),
            ) {
                Ok(t) => t,
                Err(e) => {
                    gpu.destroy_texture(albedo_texture.texture);
                    proof {
                        assert(gpu.alive() =~= gpu_at_head.alive());
                    }
                    release_materials(gpu, &materials);
                    proof {
                        assert forall|id: u64|
                            gpu.alive().contains(id) == old(gpu).alive().contains(id) by {
                            if spec_materials_own_texture(materials@, id) {
                                lemma_owned_ids_fresh(materials@, *old(gpu), id);
                            }
                        }
                        assert(gpu.alive() =~= old(gpu).alive());
                    }
                    return Err(e);
                },
            };
            let metal_roughness_texture = match material_texture(
                gpu,
                &m.metal_roughness_image,
                &metal_roughness_fallback,
                TextureFormat::Rgba8Unorm,
                Some("Metallic-roughness texture"),
            ) {
                Ok(t) => t,
                Err(e) => {
                    gpu.destroy_texture(normal_texture.texture);
                    gpu.destroy_texture(albedo_texture.texture);
                    proof {
                        assert(gpu.alive() =~= gpu_at_head.alive());
                    }
                    release_materials(gpu, &materials);
                    proof {
                        assert forall|id: u64|
                            gpu.alive().contains(id) == old(gpu).alive().contains(id) by {
                            if spec_materials_own_texture(materials@, id) {
                                lemma_owned_ids_fresh(materials@, *old(gpu), id);
                            }
                        }
                        assert(gpu.alive() =~= old(gpu).alive());
                    }
                    return Err(e);
                },
            };
            let ghost materials_before = materials@;
            materials.push(
                Material::new(gpu, material_data, albedo_texture, normal_texture, metal_roughness_texture),
            );
            proof {
                assert forall|id: u64|
                    gpu.alive().contains(id) == old(gpu).alive().union(
                        spec_materials_owned_set(materials@),
                    ).contains(id) by {
                    lemma_owns_push(materials_before, materials@.last(), id);
                    assert(materials@ =~= materials_before.push(materials@.last()));
                }
                assert(gpu.alive() =~= old(gpu).alive().union(
                    spec_materials_owned_set(materials@),
                ));
            }
            m_idx = m_idx + 1;
        }

        let scene_uniform = SceneUniform::new(gpu, SceneUniformData::new(), shadow);
        let lighting = LightingUniform::new(gpu, LightingUniformData::new(default_lights()));
        proof {
            lemma_forest_loadable_iff(doc.scene_nodes@, materials_len as int, 0);
            assert(spec_forest_prims(doc.scene_nodes@, n_roots as int) =~= Seq::<
                GltfPrimitive,
            >::empty());
        }
        Ok(Scene { meshes, materials, scene: scene_uniform, lighting })
    }

    /// An empty scene with the default lighting and the given shadow-slot
    /// matrices: no meshes, no materials.
    pub fn new(gpu: &mut Gpu, shadow: SceneUniformData) -> (scene: Scene)
        requires
            old(gpu).wf(),
            old(gpu).spec_next_id() + 6 < u64::MAX,
        ensures
            final(gpu).wf(),
            final(gpu).spec_live_textures() == old(gpu).spec_live_textures(),
            final(gpu).alive() == old(gpu).alive(),
            old(gpu).spec_next_id() <= final(gpu).spec_next_id() <= old(gpu).spec_next_id() + 5,
            scene.meshes@.len() == 0,
            scene.materials@.len() == 0,
            scene.lighting.data.count == 4,
            scene.scene.data_1 == shadow,
    {
        let scene_uniform = SceneUniform::new(gpu, SceneUniformData::new(), shadow);
        let lighting = LightingUniform::new(gpu, LightingUniformData::new(default_lights()));
        Scene { meshes: Vec::new(), materials: Vec::new(), scene: scene_uniform, lighting }
    }
}

} // verus!

verus! {

/// Check one primitive against the machine limits the loader requires:
/// counts fit `u32`, serialized buffers fit the address space.
fn prim_within_limits(prim: &GltfPrimitive) -> (r: bool)
    ensures
        r == spec_prim_sizes_ok(*prim),
{
    let indices = match &prim.indices {
        Some(v) => v,
        None => {
            return true;
        },
    };
    let positions = match &prim.positions {
        Some(v) => v,
        None => {
            return true;
        },
    };
    let normals = match &prim.normals {
        Some(v) => v,
        None => {
            return true;
        },
    };
    let uvs = match &prim.uvs {
        Some(v) => v,
        None => {
            return true;
        },
    };
    let mut n: usize = positions.len();
    if normals.len() < n {
        n = normals.len();
    }
    if uvs.len() < n {
        n = uvs.len();
    }
    match &prim.tangents {
        Some(t) => {
            if t.len() < n {
                n = t.len();
            }
        },
        None => {},
    }
    assert(n == spec_prim_vertex_count(*prim));
    let index_count = indices.len();
    let indices_ok = (index_count as u64) <= (u32::MAX as u64) && (index_count as u128) * 4
        <= (usize::MAX as u128);
    let vertices_ok = (n as u64) <= (u32::MAX as u64) && (n as u128) * 44 <= (usize::MAX as u128);
    indices_ok && vertices_ok
}

/// Check a whole subtree against the loader's machine limits; `true` means
/// [`Scene::load_mesh`]'s size precondition holds for this node.
pub fn node_within_limits(node: &GltfNode) -> (r: bool)
    ensures
        r == spec_node_sizes_ok(*node),
    decreases *node, 0int,
{
    let n_prims = node.primitives.len();
    let mut i: usize = 0;
    while i < n_prims
        invariant
            0 <= i <= n_prims,
            n_prims == node.primitives@.len(),
            forall|k: int| 0 <= k < i ==> spec_prim_sizes_ok(#[trigger] node.primitives@[k]),
        decreases n_prims - i,
    {
        if !prim_within_limits(&node.primitives[i]) {
            return false;
        }
        i = i + 1;
    }
    let n_children = node.children.len();
    let mut j: usize = 0;
    while j < n_children
        invariant
            0 <= j <= n_children,
            n_children == node.children@.len(),
            forall|k: int| 0 <= k < n_prims ==> spec_prim_sizes_ok(#[trigger] node.primitives@[k]),
            n_prims == node.primitives@.len(),
            forall|k: int| 0 <= k < j ==> spec_node_sizes_ok(#[trigger] node.children@[k]),
        decreases n_children - j,
    {
        if !node_within_limits(&node.children[j]) {
            proof {
                lemma_forest_sizes_iff(node.children@, 0);
            }
            return false;
        }
        j = j + 1;
    }
    proof {
        lemma_forest_sizes_iff(node.children@, 0);
    }
    true
}

/// Check one optional decoded image: its pixel buffer agrees with its
/// declared extent and the RGBA expansion fits the address space.
fn image_within_limits(image: &Option<GltfImage>) -> (r: bool)
    ensures
        r == spec_opt_image_sizes_ok(*image),
{
    let img = match image {
        Some(img) => img,
        None => {
            return true;
        },
    };
    proof {
        assert((img.width as int) * (img.height as int) < 0x1_0000_0000_0000_0000)
            by (nonlinear_arith)
            requires
                0 <= img.width < 0x1_0000_0000,
                0 <= img.height < 0x1_0000_0000,
        ;
    }
    let texels: u128 = (img.width as u128) * (img.height as u128);
    match img.format {
        GltfImageFormat::R8G8B8A8 => (img.pixels.len() as u128) == 4 * texels,
        GltfImageFormat::R8G8B8 => (img.pixels.len() as u128) == 3 * texels && 4 * texels
            <= (usize::MAX as u128),
        GltfImageFormat::Unsupported => true,
    }
}

impl Scene {
    /// Check a whole document against the loader's machine limits; `true`
    /// means [`Scene::from_gltf`]'s size preconditions hold, so a caller
    /// can refuse an oversized document instead of being unable to load it.
    pub fn document_within_limits(doc: &GltfDocument) -> (r: bool)
        ensures
            r == (spec_forest_sizes_ok(doc.scene_nodes@, 0) && forall|i: int|
                0 <= i < doc.materials@.len() ==> spec_material_sizes_ok(
                    #[trigger] doc.materials@[i],
                )),
    {
        let n_roots = doc.scene_nodes.len();
        let mut r_idx: usize = 0;
        while r_idx < n_roots
            invariant
                0 <= r_idx <= n_roots,
                n_roots == doc.scene_nodes@.len(),
                forall|k: int|
                    0 <= k < r_idx ==> spec_node_sizes_ok(#[trigger] doc.scene_nodes@[k]),
            decreases n_roots - r_idx,
        {
            if !node_within_limits(&doc.scene_nodes[r_idx]) {
                proof {
                    lemma_forest_sizes_iff(doc.scene_nodes@, 0);
                }
                return false;
            }
            r_idx = r_idx + 1;
        }
        let n_materials = doc.materials.len();
        let mut m_idx: usize = 0;
        while m_idx < n_materials
            invariant
                0 <= m_idx <= n_materials,
                n_materials == doc.materials@.len(),
                forall|k: int|
                    0 <= k < n_roots ==> spec_node_sizes_ok(#[trigger] doc.scene_nodes@[k]),
                n_roots == doc.scene_nodes@.len(),
                forall|k: int|
                    0 <= k < m_idx ==> spec_material_sizes_ok(#[trigger] doc.materials@[k]),
            decreases n_materials - m_idx,
        {
            let m = &doc.materials[m_idx];
            if !image_within_limits(&m.base_color_image) {
                proof {
                    lemma_forest_sizes_iff(doc.scene_nodes@, 0);
                }
                return false;
            }
            if !image_within_limits(&m.normal_image) {
                proof {
                    lemma_forest_sizes_iff(doc.scene_nodes@, 0);
                }
                return false;
            }
            if !image_within_limits(&m.metal_roughness_image) {
                proof {
                    lemma_forest_sizes_iff(doc.scene_nodes@, 0);
                }
                return false;
            }
            m_idx = m_idx + 1;
        }
        proof {
            lemma_forest_sizes_iff(doc.scene_nodes@, 0);
        }
        true
    }
}

} // verus!

verus! {

/// `id` is one of the three texture handles some material of the list
/// owns.
pub open spec fn spec_materials_own_texture(materials: Seq<Material>, id: u64) -> bool {
    exists|i: int|
        0 <= i < materials.len() && {
            let m = #[trigger] materials[i];
            id == m.diffuse_texture.texture || id == m.normal_texture.texture || id
                == m.metal_roughness_texture.texture
        }
}

/// The set of texture handles the material list owns.
pub open spec fn spec_materials_owned_set(materials: Seq<Material>) -> Set<u64> {
    Set::new(|id: u64| spec_materials_own_texture(materials, id))
}

/// Every material's three textures are alive in the context.
pub open spec fn spec_materials_textures_alive(materials: Seq<Material>, gpu: Gpu) -> bool {
    forall|i: int|
        0 <= i < materials.len() ==> {
            let m = #[trigger] materials[i];
            gpu.alive().contains(m.diffuse_texture.texture) && gpu.alive().contains(
                m.normal_texture.texture,
            ) && gpu.alive().contains(m.metal_roughness_texture.texture)
        }
}

/// The texture handles ascend within each material and from one material
/// to the next, as sequential creation draws them, so no handle appears
/// twice and a release can walk the list destroying each exactly once.
pub open spec fn spec_materials_ids_ascending(materials: Seq<Material>) -> bool {
    &&& forall|i: int|
        0 <= i < materials.len() ==> {
            let m = #[trigger] materials[i];
            m.diffuse_texture.texture < m.normal_texture.texture && m.normal_texture.texture
                < m.metal_roughness_texture.texture
        }
    &&& forall|i: int, j: int|
        0 <= i < j < materials.len() ==> (#[trigger] materials[i]).metal_roughness_texture.texture
            < (#[trigger] materials[j]).diffuse_texture.texture
}

/// Ownership over a one-longer prefix: the new entry's three handles join.
proof fn lemma_owns_take_succ(materials: Seq<Material>, k: int, id: u64)
    requires
        0 <= k < materials.len(),
    ensures
        spec_materials_own_texture(materials.take(k + 1), id) <==> (spec_materials_own_texture(
            materials.take(k),
            id,
        ) || id == materials[k].diffuse_texture.texture || id == materials[k].normal_texture.texture
            || id == materials[k].metal_roughness_texture.texture),
{
    let pre = materials.take(k);
    let cur = materials.take(k + 1);
    if spec_materials_own_texture(cur, id) {
        let i = choose|i: int|
            0 <= i < cur.len() && {
                let m = #[trigger] cur[i];
                id == m.diffuse_texture.texture || id == m.normal_texture.texture || id
                    == m.metal_roughness_texture.texture
            };
        if i < k {
            assert(pre[i] == cur[i]);
            assert(spec_materials_own_texture(pre, id));
        } else {
            assert(cur[i] == materials[k]);
        }
    }
    if spec_materials_own_texture(pre, id) {
        let i = choose|i: int|
            0 <= i < pre.len() && {
                let m = #[trigger] pre[i];
                id == m.diffuse_texture.texture || id == m.normal_texture.texture || id
                    == m.metal_roughness_texture.texture
            };
        assert(cur[i] == pre[i]);
        assert(spec_materials_own_texture(cur, id));
    }
    if id == materials[k].diffuse_texture.texture || id == materials[k].normal_texture.texture || id
        == materials[k].metal_roughness_texture.texture {
        assert(cur[k] == materials[k]);
        assert(spec_materials_own_texture(cur, id));
    }
}

/// Ownership over a pushed list: the pushed entry's three handles join.
proof fn lemma_owns_push(materials: Seq<Material>, m: Material, id: u64)
    ensures
        spec_materials_own_texture(materials.push(m), id) <==> (spec_materials_own_texture(
            materials,
            id,
        ) || id == m.diffuse_texture.texture || id == m.normal_texture.texture || id
            == m.metal_roughness_texture.texture),
{
    let cur = materials.push(m);
    if spec_materials_own_texture(cur, id) {
        let i = choose|i: int|
            0 <= i < cur.len() && {
                let w = #[trigger] cur[i];
                id == w.diffuse_texture.texture || id == w.normal_texture.texture || id
                    == w.metal_roughness_texture.texture
            };
        if i < materials.len() {
            assert(cur[i] == materials[i]);
            assert(spec_materials_own_texture(materials, id));
        } else {
            assert(cur[i] == m);
        }
    }
    if spec_materials_own_texture(materials, id) {
        let i = choose|i: int|
            0 <= i < materials.len() && {
                let w = #[trigger] materials[i];
                id == w.diffuse_texture.texture || id == w.normal_texture.texture || id
                    == w.metal_roughness_texture.texture
            };
        assert(cur[i] == materials[i]);
        assert(spec_materials_own_texture(cur, id));
    }
    if id == m.diffuse_texture.texture || id == m.normal_texture.texture || id
        == m.metal_roughness_texture.texture {
        assert(cur[materials.len() as int] == m);
        assert(spec_materials_own_texture(cur, id));
    }
}

/// No handle at or above material `k`'s first handle is owned by the
/// prefix below `k`, since the handles ascend.
proof fn lemma_prefix_ids_below(materials: Seq<Material>, k: int, id: u64)
    requires
        spec_materials_ids_ascending(materials),
        0 <= k < materials.len(),
        id >= materials[k].diffuse_texture.texture,
    ensures
        !spec_materials_own_texture(materials.take(k), id),
{
    let pre = materials.take(k);
    if spec_materials_own_texture(pre, id) {
        let i = choose|i: int|
            0 <= i < pre.len() && {
                let m = #[trigger] pre[i];
                id == m.diffuse_texture.texture || id == m.normal_texture.texture || id
                    == m.metal_roughness_texture.texture
            };
        assert(pre[i] == materials[i]);
        assert(materials[i].metal_roughness_texture.texture
            < materials[k].diffuse_texture.texture);
        assert(false);
    }
}

/// A handle owned by materials whose ids all lie at or above the context's
/// old counter cannot have been alive in that old context.
proof fn lemma_owned_ids_fresh(materials: Seq<Material>, gpu_old: Gpu, id: u64)
    requires
        gpu_old.wf(),
        spec_materials_ids_ascending(materials),
        forall|i: int|
            0 <= i < materials.len() ==> gpu_old.spec_next_id() <= (
            #[trigger] materials[i]).diffuse_texture.texture,
        spec_materials_own_texture(materials, id),
    ensures
        gpu_old.spec_next_id() <= id,
        !gpu_old.alive().contains(id),
{
    let i = choose|i: int|
        0 <= i < materials.len() && {
            let m = #[trigger] materials[i];
            id == m.diffuse_texture.texture || id == m.normal_texture.texture || id
                == m.metal_roughness_texture.texture
        };
    assert(gpu_old.spec_next_id() <= materials[i].diffuse_texture.texture);
    assert(materials[i].diffuse_texture.texture <= id);
    if gpu_old.alive().contains(id) {
        assert(id < gpu_old.spec_next_id());
        assert(false);
    }
}

/// Destroy the three textures of every material in the list, releasing
/// their GPU memory: afterwards a handle is alive exactly when it was
/// alive before and is not one the list owned.
pub fn release_materials(gpu: &mut Gpu, materials: &Vec<Material>)
    requires
        old(gpu).wf(),
        spec_materials_textures_alive(materials@, *old(gpu)),
        spec_materials_ids_ascending(materials@),
    ensures
        final(gpu).wf(),
        final(gpu).spec_next_id() == old(gpu).spec_next_id(),
        final(gpu).spec_live_textures() == old(gpu).spec_live_textures() - 3 * materials@.len(),
        forall|id: u64|
            final(gpu).alive().contains(id) <==> (old(gpu).alive().contains(id)
                && !spec_materials_own_texture(materials@, id)),
{
    let n = materials.len();
    let mut idx: usize = 0;
    while idx < n
        invariant
            0 <= idx <= n,
            n == materials@.len(),
            gpu.wf(),
            gpu.spec_next_id() == old(gpu).spec_next_id(),
            spec_materials_ids_ascending(materials@),
            spec_materials_textures_alive(materials@, *old(gpu)),
            gpu.spec_live_textures() == old(gpu).spec_live_textures() - 3 * idx,
            forall|id: u64|
                gpu.alive().contains(id) <==> (old(gpu).alive().contains(id)
                    && !spec_materials_own_texture(materials@.take(idx as int), id)),
        decreases n - idx,
    {
        let m = &materials[idx];
        proof {
            lemma_prefix_ids_below(materials@, idx as int, m.diffuse_texture.texture@);
            lemma_prefix_ids_below(materials@, idx as int, m.normal_texture.texture@);
            lemma_prefix_ids_below(materials@, idx as int, m.metal_roughness_texture.texture@);
        }
        gpu.destroy_texture(m.diffuse_texture.texture);
        gpu.destroy_texture(m.normal_texture.texture);
        gpu.destroy_texture(m.metal_roughness_texture.texture);
        proof {
            assert forall|id: u64|
                gpu.alive().contains(id) <==> (old(gpu).alive().contains(id)
                    && !spec_materials_own_texture(materials@.take(idx + 1), id)) by {
                lemma_owns_take_succ(materials@, idx as int, id);
            }
        }
        idx = idx + 1;
    }
    proof {
        assert(materials@.take(n as int) =~= materials@);
    }
}

impl Scene {
    /// Release the scene's GPU resources before a replacement takes its
    /// place: every material texture is destroyed, and nothing outside the
    /// scene is touched. The live-texture count drops by exactly three per
    /// material.
    pub fn release(self, gpu: &mut Gpu)
        requires
            old(gpu).wf(),
            spec_materials_textures_alive(self.materials@, *old(gpu)),
            spec_materials_ids_ascending(self.materials@),
        ensures
            final(gpu).wf(),
            final(gpu).spec_next_id() == old(gpu).spec_next_id(),
            final(gpu).spec_live_textures() == old(gpu).spec_live_textures() - 3
                * self.materials@.len(),
            forall|id: u64|
                final(gpu).alive().contains(id) <==> (old(gpu).alive().contains(id)
                    && !spec_materials_own_texture(self.materials@, id)),
    {
        let Scene { meshes, materials, scene, lighting } = self;
        release_materials(gpu, &materials);
        proof {
            assert forall|id: u64|
                gpu.alive().contains(id) <==> (old(gpu).alive().contains(id)
                    && !spec_materials_own_texture(self.materials@, id)) by {
                assert(spec_materials_own_texture(self.materials@, id)
                    == spec_materials_own_texture(materials@, id));
                assert(gpu.alive().contains(id) <==> (old(gpu).alive().contains(id)
                    && !spec_materials_own_texture(materials@, id)));
            }
        }
    }
}

} // verus!
