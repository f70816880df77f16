use canvas2d::buffer::{
    Buffer, IndexBuffer, Vertex, VertexBuffer, VertexColored, VertexFormat, VertexTextured,
};
use canvas2d::camera::Camera;
use canvas2d::math::{Rect, Vec2Bits, Vec3Bits};
use canvas2d::pass::{RenderCommand, RenderPass};
use canvas2d::primitive::{Draw, Quad, Triangle};

fn v3(x: f32, y: f32, z: f32) -> Vec3Bits {
    Vec3Bits { x: x.to_bits(), y: y.to_bits(), z: z.to_bits() }
}

fn v2(x: f32, y: f32) -> Vec2Bits {
    Vec2Bits { x: x.to_bits(), y: y.to_bits() }
}

fn colored(p: [f32; 3], c: [f32; 3]) -> VertexColored {
    VertexColored { position: v3(p[0], p[1], p[2]), color: v3(c[0], c[1], c[2]) }
}

fn textured(p: [f32; 3], t: [f32; 2]) -> VertexTextured {
    VertexTextured { position: v3(p[0], p[1], p[2]), tex_coord: v2(t[0], t[1]) }
}

/// The byte image of a packed f32 struct, as the GPU receives it.
fn f32_bytes(floats: &[f32]) -> Vec<u8> {
    bytemuck::cast_slice::<f32, u8>(floats).to_vec()
}

#[test]
fn colored_vertex_buffer_bytes_match_memory_image() {
    let floats = [0.5f32, -1.25, 3.0, 0.125, 0.25, 1.0, -2.5, 7.5, 0.0, 1.0, 0.5, 0.75];
    let vertices = vec![
        colored([0.5, -1.25, 3.0], [0.125, 0.25, 1.0]),
        colored([-2.5, 7.5, 0.0], [1.0, 0.5, 0.75]),
    ];
    let buffer = VertexBuffer::new(vertices);
    assert_eq!(buffer.len(), 2);
    // N * sizeof(record): 2 * 24 bytes.
    assert_eq!(buffer.gpu_bytes().len(), 48);
    // Round trip: the uploaded bytes equal the exact memory image.
    assert_eq!(buffer.gpu_bytes().as_slice(), f32_bytes(&floats).as_slice());
}

#[test]
fn textured_vertex_buffer_bytes_match_memory_image() {
    let floats = [1.0f32, 2.0, 3.0, 0.0, 1.0];
    let vertices = vec![textured([1.0, 2.0, 3.0], [0.0, 1.0])];
    let buffer = VertexBuffer::new(vertices);
    assert_eq!(buffer.gpu_bytes().len(), 20);
    assert_eq!(buffer.gpu_bytes().as_slice(), f32_bytes(&floats).as_slice());
}

#[test]
fn index_buffer_bytes_are_little_endian_u16() {
    let buffer = IndexBuffer::new(vec![0, 3, 2, 0, 1, 3]);
    assert_eq!(buffer.len(), 6);
    assert_eq!(
        buffer.gpu_bytes().as_slice(),
        &[0u8, 0, 3, 0, 2, 0, 0, 0, 1, 0, 3, 0]
    );
}

#[test]
fn colored_layout_descriptor() {
    let desc = VertexColored::desc();
    assert_eq!(desc.array_stride, 24);
    assert_eq!(desc.attributes.len(), 2);
    assert_eq!(desc.attributes[0].offset, 0);
    assert_eq!(desc.attributes[0].shader_location, 0);
    assert_eq!(desc.attributes[0].format, VertexFormat::Float32x3);
    assert_eq!(desc.attributes[1].offset, 12);
    assert_eq!(desc.attributes[1].shader_location, 1);
    assert_eq!(desc.attributes[1].format, VertexFormat::Float32x3);
}

#[test]
fn textured_layout_descriptor() {
    let desc = VertexTextured::desc();
    assert_eq!(desc.array_stride, 20);
    assert_eq!(desc.attributes.len(), 2);
    assert_eq!(desc.attributes[0].offset, 0);
    assert_eq!(desc.attributes[0].format, VertexFormat::Float32x3);
    assert_eq!(desc.attributes[1].offset, 12);
    assert_eq!(desc.attributes[1].shader_location, 1);
    assert_eq!(desc.attributes[1].format, VertexFormat::Float32x2);
}

#[test]
fn vertex_buffer_binds_at_slot_zero() {
    let mut buffer = VertexBuffer::new(vec![textured([0.0, 0.0, 0.0], [0.0, 0.0])]);
    let expected = buffer.gpu_bytes().clone();
    let mut pass = RenderPass::new();
    buffer.set_buffer(&mut pass);
    assert_eq!(pass.commands.len(), 1);
    match &pass.commands[0] {
        RenderCommand::SetVertexBuffer { slot, contents } => {
            assert_eq!(*slot, 0);
            assert_eq!(contents, &expected);
        }
        _ => panic!("expected a vertex buffer binding"),
    }
}

#[test]
fn triangle_draw_binds_then_draws_three_vertices_once() {
    let vertices = vec![
        colored([0.0, 0.5, 0.0], [1.0, 0.0, 0.0]),
        colored([-0.5, -0.5, 0.0], [0.0, 1.0, 0.0]),
        colored([0.5, -0.5, 0.0], [0.0, 0.0, 1.0]),
    ];
    let buffer = VertexBuffer::new(vertices);
    let expected_bytes = buffer.gpu_bytes().clone();
    let mut triangle = Triangle::new(buffer);
    let mut pass = RenderPass::new();
    triangle.draw(&mut pass);
    assert_eq!(pass.commands.len(), 2);
    match &pass.commands[0] {
        RenderCommand::SetVertexBuffer { slot, contents } => {
            assert_eq!(*slot, 0);
            assert_eq!(contents, &expected_bytes);
        }
        _ => panic!("expected a vertex buffer binding first"),
    }
    match &pass.commands[1] {
        RenderCommand::Draw { vertex_count, instance_count } => {
            assert_eq!(*vertex_count, 3);
            assert_eq!(*instance_count, 1);
        }
        _ => panic!("expected a non-indexed draw last"),
    }
}

#[test]
fn quad_draw_binds_vertices_then_fixed_indices_then_draws() {
    let vertices = vec![
        textured([-1.0, -1.0, 0.0], [0.0, 1.0]),
        textured([1.0, -1.0, 0.0], [1.0, 1.0]),
        textured([-1.0, 1.0, 0.0], [0.0, 0.0]),
        textured([1.0, 1.0, 0.0], [1.0, 0.0]),
    ];
    let buffer = VertexBuffer::new(vertices);
    let expected_bytes = buffer.gpu_bytes().clone();
    let mut quad = Quad::new(buffer);
    let mut pass = RenderPass::new();
    quad.draw(&mut pass);
    assert_eq!(pass.commands.len(), 3);
    match &pass.commands[0] {
        RenderCommand::SetVertexBuffer { slot, contents } => {
            assert_eq!(*slot, 0);
            assert_eq!(contents, &expected_bytes);
        }
        _ => panic!("expected a vertex buffer binding first"),
    }
    match &pass.commands[1] {
        RenderCommand::SetIndexBuffer { contents } => {
            // The fixed index sequence [0, 3, 2, 0, 1, 3] as 16-bit
            // little-endian words.
            assert_eq!(contents.as_slice(), &[0u8, 0, 3, 0, 2, 0, 0, 0, 1, 0, 3, 0]);
        }
        _ => panic!("expected an index buffer binding second"),
    }
    match &pass.commands[2] {
        RenderCommand::DrawIndexed { index_count, instance_count } => {
            assert_eq!(*index_count, 6);
            assert_eq!(*instance_count, 1);
        }
        _ => panic!("expected an indexed draw last"),
    }
}

#[test]
fn camera_binds_its_uniform_at_group_one() {
    let mut camera = Camera::new();
    let mut pass = RenderPass::new();
    camera.set_buffer(&mut pass);
    assert_eq!(pass.commands.len(), 1);
    match &pass.commands[0] {
        RenderCommand::SetBindGroup { slot } => assert_eq!(*slot, 1),
        _ => panic!("expected a bind group binding"),
    }
}

#[test]
fn camera_defaults() {
    let camera = Camera::new();
    assert_eq!(camera.pos(), v3(0.0, 0.0, 0.0));
    assert_eq!(camera.up(), v3(0.0, 0.0, 1.0));
    let rect = camera.rect();
    assert_eq!(rect.min, v2(-0.5, -0.5));
    assert_eq!(rect.max, v2(0.5, 0.5));
    assert_eq!(camera.znear(), 0.1f32.to_bits());
    assert_eq!(camera.zfar(), 100.0f32.to_bits());
    // The initial transform is the identity, already uploaded.
    let identity: Vec<f32> = vec![
        1.0, 0.0, 0.0, 0.0, 0.0, 1.0, 0.0, 0.0, 0.0, 0.0, 1.0, 0.0, 0.0, 0.0, 0.0, 1.0,
    ];
    let identity_bits: Vec<u32> = identity.iter().map(|f| f.to_bits()).collect();
    assert_eq!(camera.view_proj(), &identity_bits);
    assert_eq!(camera.gpu_bytes().as_slice(), f32_bytes(&identity).as_slice());
}

#[test]
fn camera_translate_stores_and_uploads_immediately() {
    let mut camera = Camera::new();
    let matrix: Vec<f32> = (0..16).map(|i| i as f32 * 0.25 - 1.0).collect();
    let matrix_bits: Vec<u32> = matrix.iter().map(|f| f.to_bits()).collect();
    camera.translate(v3(2.0, -3.0, 4.0), matrix_bits.clone());
    assert_eq!(camera.pos(), v3(2.0, -3.0, 4.0));
    assert_eq!(camera.view_proj(), &matrix_bits);
    assert_eq!(camera.gpu_bytes().as_slice(), f32_bytes(&matrix).as_slice());
    // The other fields are untouched.
    assert_eq!(camera.up(), v3(0.0, 0.0, 1.0));
    assert_eq!(camera.znear(), 0.1f32.to_bits());
}

#[test]
fn rect_new_stores_corners() {
    let rect = Rect::new(
        (-2.0f32).to_bits(),
        1.0f32.to_bits(),
        3.0f32.to_bits(),
        5.5f32.to_bits(),
    );
    assert_eq!(rect.min, v2(-2.0, 1.0));
    assert_eq!(rect.max, v2(3.0, 5.5));
}

/// The view-projection derivation the rendering driver runs: look-at from
/// `pos` toward `pos + (0,0,-1)`, orthographic over the camera's view
/// rectangle and clip distances, pre-multiplied by the depth-range remap
/// from [-1,1] to [0,1].
fn derive_view_proj(camera: &Camera, pos: [f32; 3], up: [f32; 3]) -> Vec<u32> {
    let remap = nalgebra::Matrix4::new(
        1.0, 0.0, 0.0, 0.0, //
        0.0, 1.0, 0.0, 0.0, //
        0.0, 0.0, 0.5, 0.5, //
        0.0, 0.0, 0.0, 1.0,
    );
    let eye = nalgebra::Point3::new(pos[0], pos[1], pos[2]);
    let target = nalgebra::Point3::new(pos[0], pos[1], pos[2] - 1.0);
    let up = nalgebra::Vector3::new(up[0], up[1], up[2]);
    let view = nalgebra::Matrix4::look_at_rh(&eye, &target, &up);
    let rect = camera.rect();
    let proj = nalgebra::Matrix4::new_orthographic(
        f32::from_bits(rect.min.x),
        f32::from_bits(rect.max.x),
        f32::from_bits(rect.min.y),
        f32::from_bits(rect.max.y),
        f32::from_bits(camera.znear()),
        f32::from_bits(camera.zfar()),
    );
    let composed = remap * proj * view;
    composed.as_slice().iter().map(|f| f.to_bits()).collect()
}

#[test]
fn camera_translate_recomputed_twice_is_bit_identical() {
    let pos = [1.5f32, -2.0, 0.25];
    let up = [0.0f32, 1.0, 0.0];

    let mut first = Camera::new();
    let matrix = derive_view_proj(&first, pos, up);
    first.translate(v3(pos[0], pos[1], pos[2]), matrix);
    let uniform_once = first.gpu_bytes().clone();

    let mut second = Camera::new();
    let matrix_again = derive_view_proj(&second, pos, up);
    second.translate(v3(pos[0], pos[1], pos[2]), matrix_again);

    // Recomputing with no state change in between yields bit-identical
    // matrices and uniform bytes.
    assert_eq!(first.view_proj(), second.view_proj());
    assert_eq!(second.gpu_bytes(), &uniform_once);
}

#[test]
fn camera_view_proj_maps_rect_center_to_clip_center() {
    let mut camera = Camera::new();
    let matrix = derive_view_proj(&camera, [0.0, 0.0, 0.0], [0.0, 1.0, 0.0]);
    camera.translate(v3(0.0, 0.0, 0.0), matrix);

    let floats: Vec<f32> = camera.view_proj().iter().map(|b| f32::from_bits(*b)).collect();
    let m = nalgebra::Matrix4::from_column_slice(&floats);
    // The view rectangle's center, halfway between the near and far clip
    // planes in front of the camera.
    let znear = f32::from_bits(camera.znear());
    let zfar = f32::from_bits(camera.zfar());
    let center = nalgebra::Vector4::new(0.0, 0.0, -(znear + zfar) / 2.0, 1.0);
    let clip = m * center;
    assert!(clip.x.abs() < 1e-4, "x was {}", clip.x);
    assert!(clip.y.abs() < 1e-4, "y was {}", clip.y);
    assert!((clip.z - 0.5).abs() < 1e-4, "z was {}", clip.z);
}
