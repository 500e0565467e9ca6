//! The interleaved vertex layout every mesh pipeline consumes, and the
//! little-endian serialization that turns vertices and indices into buffer
//! bytes.

use vstd::prelude::*;

use crate::mat4::{Vec2, Vec3};

verus! {

/// Byte stride of one interleaved vertex: position, normal, uv, tangent.
pub const VERTEX_ATTRIBUTES_SIZE: u64 = 44;

/// One vertex as the geometry pipelines read it; every component is an
/// `f32` bit pattern.
#[derive(Clone, Copy, PartialEq, Eq, Structural, Debug)]
pub struct VertexAttributes {
    pub position: Vec3,
    pub normal: Vec3,
    pub uv: Vec2,
    pub tangent: Vec3,
}

/// Component formats a vertex attribute can have.
#[derive(Clone, Copy, PartialEq, Eq, Structural, Debug)]
pub enum VertexFormat {
    Float32x2,
    Float32x3,
}

/// One attribute of a vertex-buffer layout.
#[derive(Clone, Copy, PartialEq, Eq, Structural, Debug)]
pub struct VertexAttributeDesc {
    pub shader_location: u32,
    pub format: VertexFormat,
    pub offset: u64,
}

/// A vertex-buffer layout: the stride and the attribute list, stepped per
/// vertex.
#[derive(Debug)]
pub struct VertexBufferLayoutDesc {
    pub array_stride: u64,
    pub attributes: Vec<VertexAttributeDesc>,
}

/// The attribute list of [`VertexAttributes`]: position at 0, normal at 12,
/// uv at 24, tangent at 32, shader locations 0 to 3.
pub open spec fn spec_vertex_attribute_descs() -> Seq<VertexAttributeDesc> {
    seq![
        VertexAttributeDesc { shader_location: 0u32, format: VertexFormat::Float32x3, offset: 0u64 },
        VertexAttributeDesc {
            shader_location: 1u32,
            format: VertexFormat::Float32x3,
            offset: 12u64,
        },
        VertexAttributeDesc {
            shader_location: 2u32,
            format: VertexFormat::Float32x2,
            offset: 24u64,
        },
        VertexAttributeDesc {
            shader_location: 3u32,
            format: VertexFormat::Float32x3,
            offset: 32u64,
        },
    ]
}

impl VertexAttributes {
    /// The buffer layout matching the interleaved vertex struct.
    pub fn buffer_layout() -> (l: VertexBufferLayoutDesc)
        ensures
            l.array_stride == VERTEX_ATTRIBUTES_SIZE,
            l.attributes@ == spec_vertex_attribute_descs(),
    {
        let mut attributes: Vec<VertexAttributeDesc> = Vec::new();
        attributes.push(
            VertexAttributeDesc { shader_location: 0, format: VertexFormat::Float32x3, offset: 0 },
        );
        attributes.push(
            VertexAttributeDesc { shader_location: 1, format: VertexFormat::Float32x3, offset: 12 },
        );
        attributes.push(
            VertexAttributeDesc { shader_location: 2, format: VertexFormat::Float32x2, offset: 24 },
        );
        attributes.push(
            VertexAttributeDesc { shader_location: 3, format: VertexFormat::Float32x3, offset: 32 },
        );
        assert(attributes@ =~= spec_vertex_attribute_descs());
        VertexBufferLayoutDesc { array_stride: VERTEX_ATTRIBUTES_SIZE, attributes }
    }
}

/// The four little-endian bytes of one 32-bit word.
pub open spec fn spec_u32_le(w: u32) -> Seq<u8> {
    seq![
        (w & 0xFF) as u8,
        ((w >> 8) & 0xFF) as u8,
        ((w >> 16) & 0xFF) as u8,
        ((w >> 24) & 0xFF) as u8,
    ]
}

/// The 44 bytes of one vertex: its eleven words, little-endian, in field
/// order.
pub open spec fn spec_vertex_bytes(v: VertexAttributes) -> Seq<u8> {
    spec_u32_le(v.position.x) + spec_u32_le(v.position.y) + spec_u32_le(v.position.z) + spec_u32_le(
        v.normal.x,
    ) + spec_u32_le(v.normal.y) + spec_u32_le(v.normal.z) + spec_u32_le(v.uv.x) + spec_u32_le(
        v.uv.y,
    ) + spec_u32_le(v.tangent.x) + spec_u32_le(v.tangent.y) + spec_u32_le(v.tangent.z)
}

/// The bytes of a whole vertex array, vertex after vertex.
pub open spec fn spec_vertices_bytes(vs: Seq<VertexAttributes>) -> Seq<u8>
    decreases vs.len(),
{
    if vs.len() == 0 {
        Seq::empty()
    } else {
        spec_vertices_bytes(vs.drop_last()) + spec_vertex_bytes(vs.last())
    }
}

/// The bytes of an index array, index after index, little-endian.
pub open spec fn spec_indices_bytes(indices: Seq<u32>) -> Seq<u8>
    decreases indices.len(),
{
    if indices.len() == 0 {
        Seq::empty()
    } else {
        spec_indices_bytes(indices.drop_last()) + spec_u32_le(indices.last())
    }
}

/// Append the four little-endian bytes of `w`.
pub fn push_u32_le(out: &mut Vec<u8>, w: u32)
    requires
        old(out)@.len() + 4 <= usize::MAX,
    ensures
        final(out)@ == old(out)@ + spec_u32_le(w),
{
    out.push((w & 0xFF) as u8);
    out.push(((w >> 8) & 0xFF) as u8);
    out.push(((w >> 16) & 0xFF) as u8);
    out.push(((w >> 24) & 0xFF) as u8);
    assert(out@ =~= old(out)@ + spec_u32_le(w));
}

/// Serialize a vertex array for upload into a vertex buffer.
pub fn vertices_to_bytes(vs: &Vec<VertexAttributes>) -> (out: Vec<u8>)
    requires
        vs@.len() * 44 <= usize::MAX,
    ensures
        out@ == spec_vertices_bytes(vs@),
        out@.len() == vs@.len() * 44,
{
    proof {
        lemma_vertices_bytes_len(vs@);
    }
    let mut out: Vec<u8> = Vec::new();
    let n = vs.len();
    let mut i: usize = 0;
    while i < n
        invariant
            n == vs@.len(),
            vs@.len() * 44 <= usize::MAX,
            0 <= i <= n,
            out@ == spec_vertices_bytes(vs@.take(i as int)),
            out@.len() == i * 44,
        decreases n - i,
    {
        proof {
            lemma_vertices_bytes_len(vs@.take(i as int));
            assert(vs@.take(i + 1).drop_last() =~= vs@.take(i as int));
            assert(vs@.take(i + 1).last() == vs@[i as int]);
        }
        let v = vs[i];
        push_u32_le(&mut out, v.position.x);
        push_u32_le(&mut out, v.position.y);
        push_u32_le(&mut out, v.position.z);
        push_u32_le(&mut out, v.normal.x);
        push_u32_le(&mut out, v.normal.y);
        push_u32_le(&mut out, v.normal.z);
        push_u32_le(&mut out, v.uv.x);
        push_u32_le(&mut out, v.uv.y);
        push_u32_le(&mut out, v.tangent.x);
        push_u32_le(&mut out, v.tangent.y);
        push_u32_le(&mut out, v.tangent.z);
        assert(out@ =~= spec_vertices_bytes(vs@.take(i as int)) + spec_vertex_bytes(vs@[i as int]));
        i = i + 1;
        assert(out@ =~= spec_vertices_bytes(vs@.take(i as int)));
    }
    assert(vs@.take(n as int) =~= vs@);
    out
}

/// Serialize an index array for upload into an index buffer.
pub fn indices_to_bytes(indices: &Vec<u32>) -> (out: Vec<u8>)
    requires
        indices@.len() * 4 <= usize::MAX,
    ensures
        out@ == spec_indices_bytes(indices@),
        out@.len() == indices@.len() * 4,
{
    proof {
        lemma_indices_bytes_len(indices@);
    }
    let mut out: Vec<u8> = Vec::new();
    let n = indices.len();
    let mut i: usize = 0;
    while i < n
        invariant
            n == indices@.len(),
            indices@.len() * 4 <= usize::MAX,
            0 <= i <= n,
            out@ == spec_indices_bytes(indices@.take(i as int)),
            out@.len() == i * 4,
        decreases n - i,
    {
        proof {
            lemma_indices_bytes_len(indices@.take(i as int));
            assert(indices@.take(i + 1).drop_last() =~= indices@.take(i as int));
            assert(indices@.take(i + 1).last() == indices@[i as int]);
        }
        push_u32_le(&mut out, indices[i]);
        i = i + 1;
        assert(out@ =~= spec_indices_bytes(indices@.take(i as int)));
    }
    assert(indices@.take(n as int) =~= indices@);
    out
}

/// Each vertex contributes exactly 44 bytes.
pub proof fn lemma_vertices_bytes_len(vs: Seq<VertexAttributes>)
    ensures
        spec_vertices_bytes(vs).len() == vs.len() * 44,
    decreases vs.len(),
{
    if vs.len() > 0 {
        lemma_vertices_bytes_len(vs.drop_last());
    }
}

/// Each index contributes exactly 4 bytes.
pub proof fn lemma_indices_bytes_len(indices: Seq<u32>)
    ensures
        spec_indices_bytes(indices).len() == indices.len() * 4,
    decreases indices.len(),
{
    if indices.len() > 0 {
        lemma_indices_bytes_len(indices.drop_last());
    }
}

} // verus!
