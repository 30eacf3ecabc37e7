//! The vertex record of the interface pass, its buffer layout
//! descriptor, and the byte encoding the GPU consumes.
//!
//! A vertex is nine 32-bit words: a 2D position, an RGBA color, a UV
//! pair (all single-precision values carried as bit patterns) and one
//! unsigned index tag. Its stride is fixed at 36 bytes with field
//! offsets 0, 8, 24 and 32; the layout descriptor built here must agree
//! with that encoding exactly, which is what the contracts pin down.

use vstd::prelude::*;
use crate::bits::u32_le_bytes;

verus! {

/// Byte stride of one vertex record.
pub const VERTEX_STRIDE: u64 = 36;

/// Byte offset of the position field.
pub const POSITION_OFFSET: u64 = 0;

/// Byte offset of the color field.
pub const COLOR_OFFSET: u64 = 8;

/// Byte offset of the UV field.
pub const UV_OFFSET: u64 = 24;

/// Byte offset of the index-tag field.
pub const INDEX_TAG_OFFSET: u64 = 32;

/// One vertex of the interface pass. The floating-point fields hold
/// IEEE-754 single-precision bit patterns.
#[derive(Clone, Copy, Debug, PartialEq, Eq, Structural)]
pub struct InterfaceVertex {
    /// Position x, as `f32` bits.
    pub pos_x: u32,
    /// Position y, as `f32` bits.
    pub pos_y: u32,
    /// Red channel, as `f32` bits.
    pub color_r: u32,
    /// Green channel, as `f32` bits.
    pub color_g: u32,
    /// Blue channel, as `f32` bits.
    pub color_b: u32,
    /// Alpha channel, as `f32` bits.
    pub color_a: u32,
    /// Texture coordinate u, as `f32` bits.
    pub uv_u: u32,
    /// Texture coordinate v, as `f32` bits.
    pub uv_v: u32,
    /// Index tag.
    pub index: u32,
}

/// Shader-side type of one vertex attribute.
#[derive(Clone, Copy, Debug, PartialEq, Eq, Structural)]
pub enum VertexFormat {
    /// Two single-precision floats.
    Float2,
    /// Four single-precision floats.
    Float4,
    /// One 32-bit unsigned integer.
    Uint,
}

/// How the vertex buffer advances per element.
#[derive(Clone, Copy, Debug, PartialEq, Eq, Structural)]
pub enum InputStepMode {
    /// Advance once per vertex.
    Vertex,
    /// Advance once per instance.
    Instance,
}

/// One attribute of the vertex buffer layout.
#[derive(Clone, Copy, Debug, PartialEq, Eq, Structural)]
pub struct VertexAttribute {
    /// Byte offset of the attribute inside one record.
    pub offset: u64,
    /// Shader location the attribute is bound to.
    pub shader_location: u32,
    /// Shader-side type of the attribute.
    pub format: VertexFormat,
}

/// The layout of one vertex buffer: stride, step mode and attributes.
#[derive(Debug, PartialEq, Eq)]
pub struct VertexBufferLayout {
    /// Byte stride between consecutive records.
    pub stride: u64,
    /// How the buffer advances.
    pub step_mode: InputStepMode,
    /// The attributes of one record, in shader-location order.
    pub attributes: Vec<VertexAttribute>,
}

/// A vertex type that can describe its own buffer layout.
pub trait Vertex {
    /// The layout descriptor of this vertex type.
    fn desc() -> VertexBufferLayout;
}

/// The attribute list of [`InterfaceVertex`]: position, color, UV and
/// index tag at offsets 0, 8, 24 and 32, bound to locations 0 to 3.
pub open spec fn interface_vertex_attributes() -> Seq<VertexAttribute> {
    seq![
        VertexAttribute { offset: 0, shader_location: 0, format: VertexFormat::Float2 },
        VertexAttribute { offset: 8, shader_location: 1, format: VertexFormat::Float4 },
        VertexAttribute { offset: 24, shader_location: 2, format: VertexFormat::Float2 },
        VertexAttribute { offset: 32, shader_location: 3, format: VertexFormat::Uint },
    ]
}

/// Builds the vertex buffer layout of [`InterfaceVertex`]: stride 36,
/// per-vertex stepping, and the fixed attribute table.
pub fn interface_vertex_layout() -> (r: VertexBufferLayout)
    ensures
        r.stride == VERTEX_STRIDE,
        r.step_mode == InputStepMode::Vertex,
        r.attributes@ == interface_vertex_attributes(),
{
    let mut attributes: Vec<VertexAttribute> = Vec::new();
    attributes.push(VertexAttribute { offset: 0, shader_location: 0, format: VertexFormat::Float2 });
    attributes.push(VertexAttribute { offset: 8, shader_location: 1, format: VertexFormat::Float4 });
    attributes.push(VertexAttribute { offset: 24, shader_location: 2, format: VertexFormat::Float2 });
    attributes.push(VertexAttribute { offset: 32, shader_location: 3, format: VertexFormat::Uint });
    proof {
        assert(attributes@ =~= interface_vertex_attributes());
    }
    VertexBufferLayout { stride: 36, step_mode: InputStepMode::Vertex, attributes }
}

impl Vertex for InterfaceVertex {
    fn desc() -> (r: VertexBufferLayout)
        ensures
            r.stride == VERTEX_STRIDE,
            r.step_mode == InputStepMode::Vertex,
            r.attributes@ == interface_vertex_attributes(),
    {
        interface_vertex_layout()
    }
}

/// The 36-byte encoding of one vertex record: all nine words in field
/// order, each little-endian.
pub open spec fn vertex_record_bytes(v: InterfaceVertex) -> Seq<u8> {
    u32_le_bytes(v.pos_x) + u32_le_bytes(v.pos_y)
        + u32_le_bytes(v.color_r) + u32_le_bytes(v.color_g)
        + u32_le_bytes(v.color_b) + u32_le_bytes(v.color_a)
        + u32_le_bytes(v.uv_u) + u32_le_bytes(v.uv_v)
        + u32_le_bytes(v.index)
}

/// The concatenated encodings of a whole vertex list.
pub open spec fn vertex_list_bytes(vs: Seq<InterfaceVertex>) -> Seq<u8>
    decreases vs.len(),
{
    if vs.len() == 0 {
        Seq::empty()
    } else {
        vertex_list_bytes(vs.drop_last()) + vertex_record_bytes(vs.last())
    }
}

/// The encoding of a vertex list is exactly stride bytes per record.
pub proof fn lemma_vertex_list_bytes_len(vs: Seq<InterfaceVertex>)
    ensures
        vertex_list_bytes(vs).len() == 36 * vs.len(),
    decreases vs.len(),
{
    if vs.len() > 0 {
        lemma_vertex_list_bytes_len(vs.drop_last());
    }
}

/// The record stride is 36 bytes whatever the vertex holds, and each
/// field's encoding sits at its fixed offset: position at 0, color at
/// 8, UV at 24, the index tag at 32.
pub proof fn lemma_vertex_record_layout(v: InterfaceVertex)
    ensures
        vertex_record_bytes(v).len() == VERTEX_STRIDE,
        vertex_record_bytes(v).subrange(POSITION_OFFSET as int, COLOR_OFFSET as int)
            == u32_le_bytes(v.pos_x) + u32_le_bytes(v.pos_y),
        vertex_record_bytes(v).subrange(COLOR_OFFSET as int, UV_OFFSET as int)
            == u32_le_bytes(v.color_r) + u32_le_bytes(v.color_g)
                + u32_le_bytes(v.color_b) + u32_le_bytes(v.color_a),
        vertex_record_bytes(v).subrange(UV_OFFSET as int, INDEX_TAG_OFFSET as int)
            == u32_le_bytes(v.uv_u) + u32_le_bytes(v.uv_v),
        vertex_record_bytes(v).subrange(INDEX_TAG_OFFSET as int, VERTEX_STRIDE as int)
            == u32_le_bytes(v.index),
{
    assert(vertex_record_bytes(v).subrange(0, 8)
        =~= u32_le_bytes(v.pos_x) + u32_le_bytes(v.pos_y));
    assert(vertex_record_bytes(v).subrange(8, 24)
        =~= u32_le_bytes(v.color_r) + u32_le_bytes(v.color_g)
            + u32_le_bytes(v.color_b) + u32_le_bytes(v.color_a));
    assert(vertex_record_bytes(v).subrange(24, 32)
        =~= u32_le_bytes(v.uv_u) + u32_le_bytes(v.uv_v));
    assert(vertex_record_bytes(v).subrange(32, 36)
        =~= u32_le_bytes(v.index));
}

/// Encodes one vertex record by appending its 36 bytes to `out`.
fn push_vertex(out: &mut Vec<u8>, v: &InterfaceVertex)
    requires
        old(out)@.len() + 36 <= usize::MAX,
    ensures
        final(out)@ == old(out)@ + vertex_record_bytes(*v),
{
    crate::bits::push_u32_le(out, v.pos_x);
    crate::bits::push_u32_le(out, v.pos_y);
    crate::bits::push_u32_le(out, v.color_r);
    crate::bits::push_u32_le(out, v.color_g);
    crate::bits::push_u32_le(out, v.color_b);
    crate::bits::push_u32_le(out, v.color_a);
    crate::bits::push_u32_le(out, v.uv_u);
    crate::bits::push_u32_le(out, v.uv_v);
    crate::bits::push_u32_le(out, v.index);
    proof {
        assert(out@ =~= old(out)@ + vertex_record_bytes(*v));
    }
}

/// Encodes a vertex list into the bytes the GPU vertex buffer holds.
pub fn encode_vertices(vs: &Vec<InterfaceVertex>) -> (r: Vec<u8>)
    requires
        vs@.len() * 36 <= usize::MAX,
    ensures
        r@ == vertex_list_bytes(vs@),
        r@.len() == 36 * vs@.len(),
{
    let mut out: Vec<u8> = Vec::new();
    let mut i: usize = 0;
    while i < vs.len()
        invariant
            i <= vs@.len(),
            vs@.len() * 36 <= usize::MAX,
            out@ == vertex_list_bytes(vs@.take(i as int)),
            out@.len() == 36 * i,
        decreases vs@.len() - i,
    {
        proof {
            assert(vs@.take(i + 1).drop_last() =~= vs@.take(i as int));
            assert(vs@.take(i + 1).last() == vs@[i as int]);
        }
        push_vertex(&mut out, &vs[i]);
        i = i + 1;
    }
    proof {
        assert(vs@.take(vs@.len() as int) =~= vs@);
        lemma_vertex_list_bytes_len(vs@);
    }
    out
}

/// The concatenated little-endian encodings of an index list.
pub open spec fn index_list_bytes(is: Seq<u32>) -> Seq<u8>
    decreases is.len(),
{
    if is.len() == 0 {
        Seq::empty()
    } else {
        index_list_bytes(is.drop_last()) + u32_le_bytes(is.last())
    }
}

/// The encoding of an index list is exactly four bytes per index.
pub proof fn lemma_index_list_bytes_len(is: Seq<u32>)
    ensures
        index_list_bytes(is).len() == 4 * is.len(),
    decreases is.len(),
{
    if is.len() > 0 {
        lemma_index_list_bytes_len(is.drop_last());
    }
}

/// Encodes an index list into the bytes the GPU index buffer holds.
pub fn encode_indices(is: &Vec<u32>) -> (r: Vec<u8>)
    requires
        is@.len() * 4 <= usize::MAX,
    ensures
        r@ == index_list_bytes(is@),
        r@.len() == 4 * is@.len(),
{
    let mut out: Vec<u8> = Vec::new();
    let mut i: usize = 0;
    while i < is.len()
        invariant
            i <= is@.len(),
            is@.len() * 4 <= usize::MAX,
            out@ == index_list_bytes(is@.take(i as int)),
            out@.len() == 4 * i,
        decreases is@.len() - i,
    {
        proof {
            assert(is@.take(i + 1).drop_last() =~= is@.take(i as int));
            assert(is@.take(i + 1).last() == is@[i as int]);
        }
        crate::bits::push_u32_le(&mut out, is[i]);
        i = i + 1;
    }
    proof {
        assert(is@.take(is@.len() as int) =~= is@);
        lemma_index_list_bytes_len(is@);
    }
    out
}

} // verus!
