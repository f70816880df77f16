//! Drawable primitives: triangle, quad and textured image.
//!
//! A primitive owns its vertex buffer (and, for quad and image, an index
//! buffer; for image, a texture with a sampler bind group) and exposes one
//! `draw` operation that binds every owned resource and issues exactly one
//! draw call covering the primitive's full range with a single instance.

use crate::buffer::{Buffer, IndexBuffer, Vertex, VertexBuffer, VertexTextured};
use crate::document::Extent3d;
use crate::error::RenderError;
use crate::math::{Rect, Vec2Bits, Vec3Bits};
use crate::pass::{Cmd, RenderCommand, RenderPass};
use crate::math::{F32_ONE_BITS, F32_ZERO_BITS};
use vstd::prelude::*;

verus! {

/// A drawable unit: binds all its GPU resources in a fixed order, then
/// issues exactly one draw call with a single instance.
pub trait Draw: Sized {
    /// The full command sequence one draw records.
    spec fn draw_cmds(self) -> Seq<Cmd>;

    /// Binds the primitive's resources and issues its draw call.
    fn draw(&mut self, render_pass: &mut RenderPass)
        ensures
            *final(self) == *old(self),
            final(render_pass)@ == old(render_pass)@ + old(self).draw_cmds(),
    ;
}

/// A triangle over exactly three vertices, drawn non-indexed.
pub struct Triangle<T: Vertex> {
    vertices: VertexBuffer<T>,
}

impl<T: Vertex> Triangle<T> {
    /// The owned vertex buffer.
    pub closed spec fn spec_vertex_buffer(self) -> VertexBuffer<T> {
        self.vertices
    }

    /// The vertex records.
    pub open spec fn spec_vertices(self) -> Seq<T> {
        self.spec_vertex_buffer().spec_vertices()
    }

    /// The byte image of the GPU vertex buffer.
    pub open spec fn spec_gpu_bytes(self) -> Seq<u8> {
        self.spec_vertex_buffer().spec_gpu_bytes()
    }

    /// The vertex buffer is intact and holds the triangle's fixed count of
    /// three records.
    pub open spec fn wf(self) -> bool {
        &&& self.spec_vertex_buffer().wf()
        &&& self.spec_vertices().len() == 3
    }

    /// Wraps a three-vertex buffer as a drawable triangle.
    pub fn new(vertices: VertexBuffer<T>) -> (r: Triangle<T>)
        requires
            vertices.wf(),
            vertices.spec_vertices().len() == 3,
        ensures
            r.wf(),
            r.spec_vertices() == vertices.spec_vertices(),
            r.spec_gpu_bytes() == vertices.spec_gpu_bytes(),
    {
        Triangle { vertices }
    }
}

impl<T: Vertex> Draw for Triangle<T> {
    /// Bind the vertex buffer, then one non-indexed draw over 3 vertices,
    /// 1 instance.
    open spec fn draw_cmds(self) -> Seq<Cmd> {
        self.spec_vertex_buffer().bind_cmds() + seq![
            Cmd::Draw { vertex_count: 3, instance_count: 1 },
        ]
    }

    fn draw(&mut self, render_pass: &mut RenderPass) {
        let ghost before = render_pass@;
        self.vertices.set_buffer(render_pass);
        render_pass.record(RenderCommand::Draw { vertex_count: 3, instance_count: 1 });
        proof {
            assert(render_pass@ =~= before + self.draw_cmds());
        }
    }
}

/// The fixed index sequence of a quad: two counter-clockwise triangles,
/// (0,3,2) and (0,1,3), over corners ordered bottom-left, bottom-right,
/// top-left, top-right.
pub open spec fn quad_indices() -> Seq<u16> {
    seq![0u16, 3u16, 2u16, 0u16, 1u16, 3u16]
}

/// The first triangle of the quad's index sequence.
pub open spec fn quad_triangle_first() -> Seq<u16> {
    quad_indices().subrange(0, 3)
}

/// The second triangle of the quad's index sequence.
pub open spec fn quad_triangle_second() -> Seq<u16> {
    quad_indices().subrange(3, 6)
}

/// The quad's six indices decode to two triangles that together visit all
/// four corners and share exactly the diagonal edge between corners 0 and 3.
pub proof fn lemma_quad_indices_two_triangles()
    ensures
        quad_indices() == quad_triangle_first() + quad_triangle_second(),
        quad_triangle_first().to_set().union(quad_triangle_second().to_set()) == set![
            0u16,
            1u16,
            2u16,
            3u16,
        ],
        quad_triangle_first().to_set().intersect(quad_triangle_second().to_set()) == set![
            0u16,
            3u16,
        ],
        forall|k: int| 0 <= k < 6 ==> quad_indices()[k] < 4,
{
    assert(quad_indices() =~= quad_triangle_first() + quad_triangle_second());
    let a = quad_triangle_first();
    let b = quad_triangle_second();
    assert(a[0] == 0u16 && a[1] == 3u16 && a[2] == 2u16);
    assert(b[0] == 0u16 && b[1] == 1u16 && b[2] == 3u16);
    assert forall|x: u16| a.to_set().contains(x) implies (x == 0u16 || x == 2u16 || x == 3u16) by {
        let k = choose|k: int| 0 <= k < a.len() && a[k] == x;
    }
    assert forall|x: u16| b.to_set().contains(x) implies (x == 0u16 || x == 1u16 || x == 3u16) by {
        let k = choose|k: int| 0 <= k < b.len() && b[k] == x;
    }
    assert(a.to_set().contains(0u16) && a.to_set().contains(3u16) && a.to_set().contains(2u16));
    assert(b.to_set().contains(0u16) && b.to_set().contains(1u16) && b.to_set().contains(3u16));
    assert(a.to_set().union(b.to_set()) =~= set![0u16, 1u16, 2u16, 3u16]);
    assert(a.to_set().intersect(b.to_set()) =~= set![0u16, 3u16]);
}

/// A quad over exactly four vertices ordered bottom-left, bottom-right,
/// top-left, top-right, drawn as two indexed triangles.
pub struct Quad<T: Vertex> {
    vertices: VertexBuffer<T>,
    indices: IndexBuffer,
}

impl<T: Vertex> Quad<T> {
    /// The owned vertex buffer.
    pub closed spec fn spec_vertex_buffer(self) -> VertexBuffer<T> {
        self.vertices
    }

    /// The owned index buffer.
    pub closed spec fn spec_index_buffer(self) -> IndexBuffer {
        self.indices
    }

    /// The vertex records.
    pub open spec fn spec_vertices(self) -> Seq<T> {
        self.spec_vertex_buffer().spec_vertices()
    }

    /// The byte image of the GPU vertex buffer.
    pub open spec fn spec_gpu_vertex_bytes(self) -> Seq<u8> {
        self.spec_vertex_buffer().spec_gpu_bytes()
    }

    /// The index values.
    pub open spec fn spec_indices(self) -> Seq<u16> {
        self.spec_index_buffer().spec_indices()
    }

    /// The byte image of the GPU index buffer.
    pub open spec fn spec_gpu_index_bytes(self) -> Seq<u8> {
        self.spec_index_buffer().spec_gpu_bytes()
    }

    /// Both buffers are intact, the quad holds its fixed count of four
    /// vertices, and the index buffer holds exactly the fixed six-index
    /// double-triangle sequence.
    pub open spec fn wf(self) -> bool {
        &&& self.spec_vertex_buffer().wf()
        &&& self.spec_index_buffer().wf()
        &&& self.spec_vertices().len() == 4
        &&& self.spec_indices() == quad_indices()
    }

    /// Wraps a four-vertex buffer as a drawable quad, creating the fixed
    /// index buffer `[0, 3, 2, 0, 1, 3]`.
    pub fn new(vertices: VertexBuffer<T>) -> (r: Quad<T>)
        requires
            vertices.wf(),
            vertices.spec_vertices().len() == 4,
        ensures
            r.wf(),
            r.spec_vertices() == vertices.spec_vertices(),
            r.spec_gpu_vertex_bytes() == vertices.spec_gpu_bytes(),
    {
        let mut index_values: Vec<u16> = Vec::new();
        index_values.push(0);
        index_values.push(3);
        index_values.push(2);
        index_values.push(0);
        index_values.push(1);
        index_values.push(3);
        proof {
            assert(index_values@ =~= quad_indices());
        }
        let indices = IndexBuffer::new(index_values);
        Quad { vertices, indices }
    }
}

impl<T: Vertex> Draw for Quad<T> {
    /// Bind the vertex buffer, then the index buffer, then one indexed draw
    /// over the full six-index range, 1 instance.
    open spec fn draw_cmds(self) -> Seq<Cmd> {
        self.spec_vertex_buffer().bind_cmds() + self.spec_index_buffer().bind_cmds() + seq![
            Cmd::DrawIndexed { index_count: 6, instance_count: 1 },
        ]
    }

    fn draw(&mut self, render_pass: &mut RenderPass) {
        let ghost before = render_pass@;
        self.vertices.set_buffer(render_pass);
        self.indices.set_buffer(render_pass);
        render_pass.record(RenderCommand::DrawIndexed { index_count: 6, instance_count: 1 });
        proof {
            assert(render_pass@ =~= before + self.draw_cmds());
        }
    }
}

/// A GPU texture: its extent (always depth 1 here) and the row-major RGBA8
/// texel bytes uploaded to it.
pub struct Texture {
    pub extent: Extent3d,
    pub texels: Vec<u8>,
}

impl Texture {
    /// Depth 1, and exactly four texel bytes per pixel, row-major.
    pub open spec fn wf(self) -> bool {
        &&& self.extent.depth_or_array_layers == 1
        &&& self.texels@.len() == 4 * self.extent.width * self.extent.height
    }
}

/// Texture addressing outside [0,1]: how a sampler extends the image.
#[derive(Clone, Copy, PartialEq, Eq, Structural, Debug)]
pub enum AddressMode {
    ClampToEdge,
    Repeat,
    MirrorRepeat,
}

/// How a sampler interpolates between texels.
#[derive(Clone, Copy, PartialEq, Eq, Structural, Debug)]
pub enum FilterMode {
    Nearest,
    Linear,
}

/// The sampler settings of an image's texture bind group.
#[derive(Clone, Copy, PartialEq, Eq, Structural, Debug)]
pub struct SamplerDescriptor {
    pub address_mode_u: AddressMode,
    pub address_mode_v: AddressMode,
    pub address_mode_w: AddressMode,
    pub mag_filter: FilterMode,
    pub min_filter: FilterMode,
    pub mipmap_filter: FilterMode,
}

/// The fixed sampler settings used for every image: clamp-to-edge
/// addressing, linear magnification, nearest minification and mipmap
/// filtering.
pub open spec fn image_sampler() -> SamplerDescriptor {
    SamplerDescriptor {
        address_mode_u: AddressMode::ClampToEdge,
        address_mode_v: AddressMode::ClampToEdge,
        address_mode_w: AddressMode::ClampToEdge,
        mag_filter: FilterMode::Linear,
        min_filter: FilterMode::Nearest,
        mipmap_filter: FilterMode::Nearest,
    }
}

/// The four textured vertices of an image quad over rectangle `rect`:
/// corners in the fixed order bottom-left, bottom-right, top-left,
/// top-right, all at depth 0, with the image's top-left pixel mapped to
/// texture coordinate (0,1)'s complement — bottom-left carries (0,1),
/// top-left carries (0,0).
pub open spec fn textured_quad_vertices(rect: Rect) -> Seq<VertexTextured> {
    seq![
        VertexTextured {
            position: Vec3Bits { x: rect.min.x, y: rect.min.y, z: F32_ZERO_BITS },
            tex_coord: Vec2Bits { x: F32_ZERO_BITS, y: F32_ONE_BITS },
        },
        VertexTextured {
            position: Vec3Bits { x: rect.max.x, y: rect.min.y, z: F32_ZERO_BITS },
            tex_coord: Vec2Bits { x: F32_ONE_BITS, y: F32_ONE_BITS },
        },
        VertexTextured {
            position: Vec3Bits { x: rect.min.x, y: rect.max.y, z: F32_ZERO_BITS },
            tex_coord: Vec2Bits { x: F32_ZERO_BITS, y: F32_ZERO_BITS },
        },
        VertexTextured {
            position: Vec3Bits { x: rect.max.x, y: rect.max.y, z: F32_ZERO_BITS },
            tex_coord: Vec2Bits { x: F32_ONE_BITS, y: F32_ZERO_BITS },
        },
    ]
}

/// The four vertex positions of a quad built from rectangle `rect` are
/// exactly the rectangle's four corners, in the fixed order bottom-left,
/// bottom-right, top-left, top-right.
pub proof fn lemma_quad_vertices_are_corners(rect: Rect)
    ensures
        textured_quad_vertices(rect).len() == 4,
        textured_quad_vertices(rect)[0].position == (Vec3Bits {
            x: rect.min.x,
            y: rect.min.y,
            z: F32_ZERO_BITS,
        }),
        textured_quad_vertices(rect)[1].position == (Vec3Bits {
            x: rect.max.x,
            y: rect.min.y,
            z: F32_ZERO_BITS,
        }),
        textured_quad_vertices(rect)[2].position == (Vec3Bits {
            x: rect.min.x,
            y: rect.max.y,
            z: F32_ZERO_BITS,
        }),
        textured_quad_vertices(rect)[3].position == (Vec3Bits {
            x: rect.max.x,
            y: rect.max.y,
            z: F32_ZERO_BITS,
        }),
{
}

/// What decoding a byte sequence as an encoded raster image and converting
/// it to RGBA8 yields: `None` when the bytes are not a valid encoded raster
/// image, otherwise the pixel width, the pixel height and the row-major
/// RGBA8 texel bytes. Decoding is a pure function of the input bytes.
pub uninterp spec fn rgba_decode(bytes: Seq<u8>) -> Option<(u32, u32, Seq<u8>)>;

/// Relies on `image::load_from_memory` (decoding is deterministic in the
/// input bytes; it fails exactly when the bytes are not a valid encoded
/// raster image) and `image::DynamicImage::to_rgba8` (a decoded image
/// converts to a tightly packed row-major RGBA8 buffer, four bytes per
/// pixel, whose dimensions are the decoded image's).
#[verifier::external_body]
fn decode_rgba(bytes: &Vec<u8>) -> (r: Option<(u32, u32, Vec<u8>)>)
    ensures
        r is Some <==> rgba_decode(bytes@) is Some,
        (r matches Some(d) ==> rgba_decode(bytes@) == Some((d.0, d.1, d.2@))),
        (r matches Some(d) ==> d.2@.len() == 4 * d.0 * d.1),
{
    match image::load_from_memory(bytes.as_slice()) {
        Ok(decoded) => {
            let rgba = decoded.to_rgba8();
            let (width, height) = rgba.dimensions();
            Some((width, height, rgba.into_raw()))
        },
        Err(_) => None,
    }
}

/// A textured image: a quad mapping a world-space rectangle to the texture's
/// corners, the texture holding the decoded RGBA8 texels, the sampler
/// settings of its bind group, and a human-readable label.
pub struct Image {
    quad: Quad<VertexTextured>,
    texture: Texture,
    sampler: SamplerDescriptor,
    label: String,
}

impl Image {
    /// The image's quad.
    pub closed spec fn spec_quad(self) -> Quad<VertexTextured> {
        self.quad
    }

    /// The texture: extent and uploaded texels.
    pub closed spec fn spec_texture(self) -> Texture {
        self.texture
    }

    /// The sampler settings.
    pub closed spec fn spec_sampler(self) -> SamplerDescriptor {
        self.sampler
    }

    /// The label.
    pub closed spec fn spec_label(self) -> Seq<char> {
        self.label@
    }

    /// The quad and the texture are intact and the sampler is the fixed
    /// image sampler.
    pub open spec fn wf(self) -> bool {
        &&& self.spec_quad().wf()
        &&& self.spec_texture().wf()
        &&& self.spec_sampler() == image_sampler()
    }

    /// Decodes `bytes` into an RGBA8 pixel buffer, uploads it row-major to
    /// a fresh texture sized to the decoded pixel dimensions (depth 1),
    /// creates the fixed clamp-to-edge/linear-mag/nearest-min sampler, and
    /// builds a quad whose four vertices map `rect`'s corners to the texture
    /// corners. Returns `Ok` exactly when the bytes are a valid encoded
    /// raster image; on `ImageDecodeFailure` no partial object is produced
    /// and no GPU resource is allocated.
    pub fn new(bytes: &Vec<u8>, label: String, rect: Rect) -> (r: Result<Image, RenderError>)
        ensures
            r is Ok <==> rgba_decode(bytes@) is Some,
            r is Err ==> r == Err::<Image, RenderError>(RenderError::ImageDecodeFailure),
            (r matches Ok(img) ==> {
                &&& img.wf()
                &&& rgba_decode(bytes@) matches Some(d) && img.spec_texture().extent == (Extent3d {
                    width: d.0,
                    height: d.1,
                    depth_or_array_layers: 1,
                }) && img.spec_texture().texels@ == d.2
                &&& img.spec_quad().spec_vertices() == textured_quad_vertices(rect)
                &&& img.spec_sampler() == image_sampler()
                &&& img.spec_label() == label@
            }),
    {
        let decoded = decode_rgba(bytes);
        match decoded {
            Option::None => Result::Err(RenderError::ImageDecodeFailure),
            Option::Some(d) => {
                let (width, height, texels) = d;
                let mut vertex_records: Vec<VertexTextured> = Vec::new();
                vertex_records.push(
                    VertexTextured {
                        position: Vec3Bits { x: rect.min.x, y: rect.min.y, z: F32_ZERO_BITS },
                        tex_coord: Vec2Bits { x: F32_ZERO_BITS, y: F32_ONE_BITS },
                    },
                );
                vertex_records.push(
                    VertexTextured {
                        position: Vec3Bits { x: rect.max.x, y: rect.min.y, z: F32_ZERO_BITS },
                        tex_coord: Vec2Bits { x: F32_ONE_BITS, y: F32_ONE_BITS },
                    },
                );
                vertex_records.push(
                    VertexTextured {
                        position: Vec3Bits { x: rect.min.x, y: rect.max.y, z: F32_ZERO_BITS },
                        tex_coord: Vec2Bits { x: F32_ZERO_BITS, y: F32_ZERO_BITS },
                    },
                );
                vertex_records.push(
                    VertexTextured {
                        position: Vec3Bits { x: rect.max.x, y: rect.max.y, z: F32_ZERO_BITS },
                        tex_coord: Vec2Bits { x: F32_ONE_BITS, y: F32_ZERO_BITS },
                    },
                );
                proof {
                    assert(vertex_records@ =~= textured_quad_vertices(rect));
                }
                let vertices = VertexBuffer::new(vertex_records);
                let quad = Quad::new(vertices);
                let texture = Texture {
                    extent: Extent3d { width, height, depth_or_array_layers: 1 },
                    texels,
                };
                let sampler = SamplerDescriptor {
                    address_mode_u: AddressMode::ClampToEdge,
                    address_mode_v: AddressMode::ClampToEdge,
                    address_mode_w: AddressMode::ClampToEdge,
                    mag_filter: FilterMode::Linear,
                    min_filter: FilterMode::Nearest,
                    mipmap_filter: FilterMode::Nearest,
                };
                Result::Ok(Image { quad, texture, sampler, label })
            },
        }
    }

    /// The texture's extent.
    pub fn texture_extent(&self) -> (r: Extent3d)
        ensures
            r == self.spec_texture().extent,
    {
        self.texture.extent
    }

    /// The uploaded texel bytes: what a GPU read-back of the texture
    /// returns.
    pub fn texels(&self) -> (r: &Vec<u8>)
        ensures
            r@ == self.spec_texture().texels@,
    {
        &self.texture.texels
    }

    /// The sampler settings.
    pub fn sampler(&self) -> (r: SamplerDescriptor)
        ensures
            r == self.spec_sampler(),
    {
        self.sampler
    }

    /// The label.
    pub fn label(&self) -> (r: &String)
        ensures
            r@ == self.spec_label(),
    {
        &self.label
    }
}

impl Draw for Image {
    /// Bind the texture-and-sampler bind group at per-primitive slot 0,
    /// then delegate entirely to the owned quad: its vertex buffer, its
    /// index buffer, and one indexed draw.
    open spec fn draw_cmds(self) -> Seq<Cmd> {
        seq![Cmd::SetBindGroup { slot: 0 }] + self.spec_quad().draw_cmds()
    }

    fn draw(&mut self, render_pass: &mut RenderPass) {
        let ghost before = render_pass@;
        render_pass.record(RenderCommand::SetBindGroup { slot: 0 });
        self.quad.draw(render_pass);
        proof {
            assert(render_pass@ =~= before + self.draw_cmds());
        }
    }
}

} // verus!
