//! Typed vertex/index data and the byte-exact images of their GPU buffers.
//!
//! A buffer wrapper owns a fixed-length record sequence together with the
//! exact bytes uploaded to its GPU copy at construction; the copy is never
//! partially updated. Binding a buffer records the attach command onto the
//! render pass.

use crate::encode::{
    le_bytes_of_u16s, lemma_le_bytes_of_u16s_len, push_u32_le, u16s_to_le_bytes,
};
use crate::math::{Vec2Bits, Vec3Bits};
use crate::pass::{Cmd, RenderCommand, RenderPass};
use vstd::bytes::spec_u32_to_le_bytes;
use vstd::prelude::*;

verus! {

/// Numeric format of one shader input attribute.
#[derive(Clone, Copy, PartialEq, Eq, Structural, Debug)]
pub enum VertexFormat {
    /// Two 32-bit floats.
    Float32x2,
    /// Three 32-bit floats.
    Float32x3,
}

impl VertexFormat {
    /// Byte size of one attribute of this format.
    pub open spec fn spec_size(self) -> nat {
        match self {
            VertexFormat::Float32x2 => 8,
            VertexFormat::Float32x3 => 12,
        }
    }
}

/// One attribute of a vertex layout: its byte offset inside the record, the
/// shader binding slot that reads it, and its numeric format.
#[derive(Clone, Copy, PartialEq, Eq, Structural, Debug)]
pub struct VertexAttribute {
    pub offset: u64,
    pub shader_location: u32,
    pub format: VertexFormat,
}

/// Describes how the raw bytes of one vertex record map to shader input
/// attributes.
pub struct VertexLayoutDescriptor {
    pub array_stride: u64,
    pub attributes: Vec<VertexAttribute>,
}

impl VertexLayoutDescriptor {
    /// Offsets strictly increase, every attribute lies inside one record,
    /// and the stride covers the whole record.
    pub open spec fn wf(self) -> bool {
        &&& forall|i: int, j: int|
            0 <= i < j < self.attributes@.len() ==> #[trigger] self.attributes@[i].offset
                < #[trigger] self.attributes@[j].offset
        &&& forall|i: int|
            0 <= i < self.attributes@.len() ==> (#[trigger] self.attributes@[i]).offset
                + self.attributes@[i].format.spec_size() <= self.array_stride
    }
}

/// A vertex record: a fixed-size tuple of `f32` components held as bit
/// patterns, with an exact byte image and a pure, reproducible layout
/// descriptor matching that image.
pub trait Vertex: Sized {
    /// Byte size of one record of this type.
    spec fn spec_size() -> nat;

    /// The exact attribute list of this record type's layout.
    spec fn spec_attributes() -> Seq<VertexAttribute>;

    /// The exact little-endian byte image of this record: the memory image
    /// of the corresponding packed `f32` struct.
    spec fn spec_bytes(self) -> Seq<u8>;

    /// The byte image always has exactly `spec_size()` bytes.
    proof fn lemma_size(self)
        ensures
            self.spec_bytes().len() == Self::spec_size(),
    ;

    /// Serializes this record to the bytes its GPU buffer holds.
    fn to_bytes(&self) -> (r: Vec<u8>)
        ensures
            r@ == self.spec_bytes(),
    ;

    /// The attribute layout of this record type, computed from the record's
    /// own memory layout alone, reproducibly: the descriptor is pinned down
    /// to its exact attribute values.
    fn desc() -> (r: VertexLayoutDescriptor)
        ensures
            r.wf(),
            r.array_stride == Self::spec_size(),
            r.attributes@ == Self::spec_attributes(),
    ;
}

/// A vertex with a 3D position and an RGB color.
#[derive(Clone, Copy, PartialEq, Eq, Structural, Debug)]
pub struct VertexColored {
    pub position: Vec3Bits,
    pub color: Vec3Bits,
}

/// A vertex with a 3D position and a 2D texture coordinate.
#[derive(Clone, Copy, PartialEq, Eq, Structural, Debug)]
pub struct VertexTextured {
    pub position: Vec3Bits,
    pub tex_coord: Vec2Bits,
}

impl Vertex for VertexColored {
    /// Six `f32` components: 24 bytes.
    open spec fn spec_size() -> nat {
        24
    }

    /// Position at offset 0 (slot 0), color at offset 12 (slot 1).
    open spec fn spec_attributes() -> Seq<VertexAttribute> {
        seq![
            VertexAttribute { offset: 0, shader_location: 0, format: VertexFormat::Float32x3 },
            VertexAttribute { offset: 12, shader_location: 1, format: VertexFormat::Float32x3 },
        ]
    }

    open spec fn spec_bytes(self) -> Seq<u8> {
        spec_u32_to_le_bytes(self.position.x) + spec_u32_to_le_bytes(self.position.y)
            + spec_u32_to_le_bytes(self.position.z) + spec_u32_to_le_bytes(self.color.x)
            + spec_u32_to_le_bytes(self.color.y) + spec_u32_to_le_bytes(self.color.z)
    }

    proof fn lemma_size(self) {
        vstd::bytes::lemma_auto_spec_u32_to_from_le_bytes();
    }

    fn to_bytes(&self) -> (r: Vec<u8>) {
        let mut out: Vec<u8> = Vec::new();
        push_u32_le(&mut out, self.position.x);
        push_u32_le(&mut out, self.position.y);
        push_u32_le(&mut out, self.position.z);
        push_u32_le(&mut out, self.color.x);
        push_u32_le(&mut out, self.color.y);
        push_u32_le(&mut out, self.color.z);
        out
    }

    /// Stride 24, attributes as `spec_attributes` fixes them.
    fn desc() -> (r: VertexLayoutDescriptor) {
        let mut attributes: Vec<VertexAttribute> = Vec::new();
        attributes.push(
            VertexAttribute { offset: 0, shader_location: 0, format: VertexFormat::Float32x3 },
        );
        attributes.push(
            VertexAttribute { offset: 12, shader_location: 1, format: VertexFormat::Float32x3 },
        );
        proof {
            assert(attributes@ =~= Self::spec_attributes());
        }
        VertexLayoutDescriptor { array_stride: 24, attributes }
    }
}

impl Vertex for VertexTextured {
    /// Five `f32` components: 20 bytes.
    open spec fn spec_size() -> nat {
        20
    }

    /// Position at offset 0 (slot 0), texture coordinate at offset 12
    /// (slot 1).
    open spec fn spec_attributes() -> Seq<VertexAttribute> {
        seq![
            VertexAttribute { offset: 0, shader_location: 0, format: VertexFormat::Float32x3 },
            VertexAttribute { offset: 12, shader_location: 1, format: VertexFormat::Float32x2 },
        ]
    }

    open spec fn spec_bytes(self) -> Seq<u8> {
        spec_u32_to_le_bytes(self.position.x) + spec_u32_to_le_bytes(self.position.y)
            + spec_u32_to_le_bytes(self.position.z) + spec_u32_to_le_bytes(self.tex_coord.x)
            + spec_u32_to_le_bytes(self.tex_coord.y)
    }

    proof fn lemma_size(self) {
        vstd::bytes::lemma_auto_spec_u32_to_from_le_bytes();
    }

    fn to_bytes(&self) -> (r: Vec<u8>) {
        let mut out: Vec<u8> = Vec::new();
        push_u32_le(&mut out, self.position.x);
        push_u32_le(&mut out, self.position.y);
        push_u32_le(&mut out, self.position.z);
        push_u32_le(&mut out, self.tex_coord.x);
        push_u32_le(&mut out, self.tex_coord.y);
        out
    }

    /// Stride 20, attributes as `spec_attributes` fixes them.
    fn desc() -> (r: VertexLayoutDescriptor) {
        let mut attributes: Vec<VertexAttribute> = Vec::new();
        attributes.push(
            VertexAttribute { offset: 0, shader_location: 0, format: VertexFormat::Float32x3 },
        );
        attributes.push(
            VertexAttribute { offset: 12, shader_location: 1, format: VertexFormat::Float32x2 },
        );
        proof {
            assert(attributes@ =~= Self::spec_attributes());
        }
        VertexLayoutDescriptor { array_stride: 20, attributes }
    }
}

/// Each attribute of the colored layout reads exactly its field's bytes in
/// the record's byte image: position occupies bytes 0..12 and color bytes
/// 12..24, matching the attribute offsets 0 and 12.
pub proof fn lemma_colored_offsets_match_bytes(v: VertexColored)
    ensures
        v.spec_bytes().subrange(0, 12) == spec_u32_to_le_bytes(v.position.x)
            + spec_u32_to_le_bytes(v.position.y) + spec_u32_to_le_bytes(v.position.z),
        v.spec_bytes().subrange(12, 24) == spec_u32_to_le_bytes(v.color.x)
            + spec_u32_to_le_bytes(v.color.y) + spec_u32_to_le_bytes(v.color.z),
{
    vstd::bytes::lemma_auto_spec_u32_to_from_le_bytes();
    assert(v.spec_bytes().subrange(0, 12) =~= spec_u32_to_le_bytes(v.position.x)
        + spec_u32_to_le_bytes(v.position.y) + spec_u32_to_le_bytes(v.position.z));
    assert(v.spec_bytes().subrange(12, 24) =~= spec_u32_to_le_bytes(v.color.x)
        + spec_u32_to_le_bytes(v.color.y) + spec_u32_to_le_bytes(v.color.z));
}

/// Each attribute of the textured layout reads exactly its field's bytes in
/// the record's byte image: position occupies bytes 0..12 and the texture
/// coordinate bytes 12..20, matching the attribute offsets 0 and 12.
pub proof fn lemma_textured_offsets_match_bytes(v: VertexTextured)
    ensures
        v.spec_bytes().subrange(0, 12) == spec_u32_to_le_bytes(v.position.x)
            + spec_u32_to_le_bytes(v.position.y) + spec_u32_to_le_bytes(v.position.z),
        v.spec_bytes().subrange(12, 20) == spec_u32_to_le_bytes(v.tex_coord.x)
            + spec_u32_to_le_bytes(v.tex_coord.y),
{
    vstd::bytes::lemma_auto_spec_u32_to_from_le_bytes();
    assert(v.spec_bytes().subrange(0, 12) =~= spec_u32_to_le_bytes(v.position.x)
        + spec_u32_to_le_bytes(v.position.y) + spec_u32_to_le_bytes(v.position.z));
    assert(v.spec_bytes().subrange(12, 20) =~= spec_u32_to_le_bytes(v.tex_coord.x)
        + spec_u32_to_le_bytes(v.tex_coord.y));
}

/// The byte image of a whole vertex sequence, record by record.
pub open spec fn bytes_of_vertices<T: Vertex>(s: Seq<T>) -> Seq<u8>
    decreases s.len(),
{
    if s.len() == 0 {
        Seq::empty()
    } else {
        bytes_of_vertices(s.drop_last()) + s.last().spec_bytes()
    }
}

/// A vertex sequence's byte image has exactly `spec_size()` bytes per
/// record: the GPU upload of `n` records is `n * sizeof(record)` bytes long.
pub proof fn lemma_bytes_of_vertices_len<T: Vertex>(s: Seq<T>)
    ensures
        bytes_of_vertices(s).len() == s.len() * T::spec_size(),
    decreases s.len(),
{
    if s.len() == 0 {
    } else {
        lemma_bytes_of_vertices_len::<T>(s.drop_last());
        s.last().lemma_size();
        assert((s.len() - 1) * T::spec_size() + T::spec_size() == s.len() * T::spec_size())
            by (nonlinear_arith);
    }
}

/// A GPU-resident buffer that can attach itself to a render pass. Binding
/// must happen before any draw call that reads the buffer's slot; its only
/// observable effect is on the pass's recorded binding state.
pub trait Buffer: Sized {
    /// The commands that binding this buffer records.
    spec fn bind_cmds(self) -> Seq<Cmd>;

    /// Attaches the buffer to the pass at its designated slot.
    fn set_buffer(&mut self, render_pass: &mut RenderPass)
        ensures
            *final(self) == *old(self),
            final(render_pass)@ == old(render_pass)@ + old(self).bind_cmds(),
    ;
}

/// An immutable, fixed-length vertex array paired with the exact byte image
/// uploaded to its GPU copy at construction. Changing the data requires
/// constructing a new buffer.
pub struct VertexBuffer<T: Vertex> {
    vertices: Vec<T>,
    bytes: Vec<u8>,
}

impl<T: Vertex> VertexBuffer<T> {
    /// The CPU-side records.
    pub closed spec fn spec_vertices(self) -> Seq<T> {
        self.vertices@
    }

    /// The byte image of the GPU-resident copy.
    pub closed spec fn spec_gpu_bytes(self) -> Seq<u8> {
        self.bytes@
    }

    /// The GPU copy is the byte-exact image of the records.
    pub open spec fn wf(self) -> bool {
        self.spec_gpu_bytes() == bytes_of_vertices(self.spec_vertices())
    }

    /// Uploads the raw bytes of `vertices` verbatim into a fresh GPU buffer
    /// tagged for vertex use, and returns the wrapper owning both copies.
    pub fn new(vertices: Vec<T>) -> (r: VertexBuffer<T>)
        ensures
            r.wf(),
            r.spec_vertices() == vertices@,
            r.spec_gpu_bytes() == bytes_of_vertices(vertices@),
            r.spec_gpu_bytes().len() == vertices@.len() * T::spec_size(),
    {
        let mut bytes: Vec<u8> = Vec::new();
        let mut i: usize = 0;
        while i < vertices.len()
            invariant
                i <= vertices@.len(),
                bytes@ == bytes_of_vertices(vertices@.take(i as int)),
            decreases vertices@.len() - i,
        {
            let mut record = vertices[i].to_bytes();
            bytes.append(&mut record);
            proof {
                assert(vertices@.take(i + 1).drop_last() =~= vertices@.take(i as int));
                assert(vertices@.take(i + 1).last() == vertices@[i as int]);
            }
            i = i + 1;
        }
        proof {
            assert(vertices@.take(vertices@.len() as int) =~= vertices@);
            lemma_bytes_of_vertices_len::<T>(vertices@);
        }
        VertexBuffer { vertices, bytes }
    }

    /// Number of records.
    pub fn len(&self) -> (r: usize)
        ensures
            r == self.spec_vertices().len(),
    {
        self.vertices.len()
    }

    /// Read access to the uploaded byte image: what a GPU read-back of the
    /// buffer returns.
    pub fn gpu_bytes(&self) -> (r: &Vec<u8>)
        ensures
            r@ == self.spec_gpu_bytes(),
    {
        &self.bytes
    }
}

impl<T: Vertex> Buffer for VertexBuffer<T> {
    /// A vertex buffer binds its full byte image at vertex slot 0.
    open spec fn bind_cmds(self) -> Seq<Cmd> {
        seq![Cmd::SetVertexBuffer { slot: 0, contents: self.spec_gpu_bytes() }]
    }

    fn set_buffer(&mut self, render_pass: &mut RenderPass) {
        let ghost before = render_pass@;
        let contents = vstd::slice::slice_to_vec(self.bytes.as_slice());
        render_pass.record(RenderCommand::SetVertexBuffer { slot: 0, contents });
        proof {
            assert(render_pass@ =~= before + self.bind_cmds());
        }
    }
}

/// An immutable, fixed-length array of unsigned 16-bit index values paired
/// with the exact byte image uploaded to its GPU copy at construction.
/// That every index is below the indexed buffer's vertex count is the
/// caller's contract, not enforced at this layer.
pub struct IndexBuffer {
    indices: Vec<u16>,
    bytes: Vec<u8>,
}

impl IndexBuffer {
    /// The CPU-side index values.
    pub closed spec fn spec_indices(self) -> Seq<u16> {
        self.indices@
    }

    /// The byte image of the GPU-resident copy.
    pub closed spec fn spec_gpu_bytes(self) -> Seq<u8> {
        self.bytes@
    }

    /// The GPU copy is the byte-exact image of the index values.
    pub open spec fn wf(self) -> bool {
        self.spec_gpu_bytes() == le_bytes_of_u16s(self.spec_indices())
    }

    /// Uploads the raw bytes of `indices` verbatim into a fresh GPU buffer
    /// tagged for index use, and returns the wrapper owning both copies.
    pub fn new(indices: Vec<u16>) -> (r: IndexBuffer)
        ensures
            r.wf(),
            r.spec_indices() == indices@,
            r.spec_gpu_bytes() == le_bytes_of_u16s(indices@),
            r.spec_gpu_bytes().len() == 2 * indices@.len(),
    {
        let bytes = u16s_to_le_bytes(&indices);
        proof {
            lemma_le_bytes_of_u16s_len(indices@);
        }
        IndexBuffer { indices, bytes }
    }

    /// Number of index values.
    pub fn len(&self) -> (r: usize)
        ensures
            r == self.spec_indices().len(),
    {
        self.indices.len()
    }

    /// Read access to the uploaded byte image: what a GPU read-back of the
    /// buffer returns.
    pub fn gpu_bytes(&self) -> (r: &Vec<u8>)
        ensures
            r@ == self.spec_gpu_bytes(),
    {
        &self.bytes
    }
}

impl Buffer for IndexBuffer {
    /// An index buffer binds its full byte image at the sole index slot,
    /// with a fixed 16-bit index width.
    open spec fn bind_cmds(self) -> Seq<Cmd> {
        seq![Cmd::SetIndexBuffer { contents: self.spec_gpu_bytes() }]
    }

    fn set_buffer(&mut self, render_pass: &mut RenderPass) {
        let ghost before = render_pass@;
        let contents = vstd::slice::slice_to_vec(self.bytes.as_slice());
        render_pass.record(RenderCommand::SetIndexBuffer { contents });
        proof {
            assert(render_pass@ =~= before + self.bind_cmds());
        }
    }
}

} // verus!
