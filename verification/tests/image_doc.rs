use canvas2d::document::{Document, Extent3d, ImageBuffer};
use canvas2d::error::RenderError;
use canvas2d::math::{Rect, Vec2Bits};
use canvas2d::pass::{RenderCommand, RenderPass};
use canvas2d::primitive::{AddressMode, Draw, FilterMode, Image};

fn rect(min_x: f32, min_y: f32, max_x: f32, max_y: f32) -> Rect {
    Rect {
        min: Vec2Bits { x: min_x.to_bits(), y: min_y.to_bits() },
        max: Vec2Bits { x: max_x.to_bits(), y: max_y.to_bits() },
    }
}

/// A well-formed PNG encoding of a 2x2 raster whose four pixels are all
/// opaque red.
fn red_2x2_png() -> Vec<u8> {
    let img = image::RgbaImage::from_pixel(2, 2, image::Rgba([255, 0, 0, 255]));
    let mut bytes: Vec<u8> = Vec::new();
    img.write_to(
        &mut std::io::Cursor::new(&mut bytes),
        image::ImageFormat::Png,
    )
    .unwrap();
    bytes
}

#[test]
fn image_from_red_raster_has_extent_and_red_texels() {
    let bytes = red_2x2_png();
    let img = Image::new(&bytes, String::from("brush"), rect(0.0, 0.0, 1.0, 1.0)).unwrap();
    assert_eq!(
        img.texture_extent(),
        Extent3d { width: 2, height: 2, depth_or_array_layers: 1 }
    );
    assert_eq!(
        img.texels().as_slice(),
        &[255u8, 0, 0, 255, 255, 0, 0, 255, 255, 0, 0, 255, 255, 0, 0, 255]
    );
    assert_eq!(img.label().as_str(), "brush");
    let sampler = img.sampler();
    assert_eq!(sampler.address_mode_u, AddressMode::ClampToEdge);
    assert_eq!(sampler.address_mode_v, AddressMode::ClampToEdge);
    assert_eq!(sampler.address_mode_w, AddressMode::ClampToEdge);
    assert_eq!(sampler.mag_filter, FilterMode::Linear);
    assert_eq!(sampler.min_filter, FilterMode::Nearest);
    assert_eq!(sampler.mipmap_filter, FilterMode::Nearest);
}

#[test]
fn image_from_malformed_bytes_fails_with_decode_error() {
    let garbage = vec![0u8, 1, 2, 3, 4, 5, 6, 7];
    let result = Image::new(&garbage, String::from("bad"), rect(0.0, 0.0, 1.0, 1.0));
    match result {
        Err(e) => assert_eq!(e, RenderError::ImageDecodeFailure),
        Ok(_) => panic!("expected a decode failure"),
    }
}

#[test]
fn image_from_truncated_png_fails_with_decode_error() {
    let mut bytes = red_2x2_png();
    bytes.truncate(bytes.len() / 2);
    let result = Image::new(&bytes, String::from("cut"), rect(0.0, 0.0, 1.0, 1.0));
    match result {
        Err(e) => assert_eq!(e, RenderError::ImageDecodeFailure),
        Ok(_) => panic!("expected a decode failure"),
    }
}

#[test]
fn image_quad_maps_rect_corners_to_texture_corners() {
    let bytes = red_2x2_png();
    let r = rect(-2.0, -1.0, 3.0, 4.0);
    let mut img = Image::new(&bytes, String::from("sheet"), r).unwrap();
    let mut pass = RenderPass::new();
    img.draw(&mut pass);
    // Bind group first, then the quad's vertex buffer: its bytes hold the
    // four corners bottom-left, bottom-right, top-left, top-right at depth
    // 0, with texture coordinates (0,1), (1,1), (0,0), (1,0).
    let expected: Vec<f32> = vec![
        -2.0, -1.0, 0.0, 0.0, 1.0, // bottom-left
        3.0, -1.0, 0.0, 1.0, 1.0, // bottom-right
        -2.0, 4.0, 0.0, 0.0, 0.0, // top-left
        3.0, 4.0, 0.0, 1.0, 0.0, // top-right
    ];
    match &pass.commands[1] {
        RenderCommand::SetVertexBuffer { slot, contents } => {
            assert_eq!(*slot, 0);
            assert_eq!(
                contents.as_slice(),
                bytemuck::cast_slice::<f32, u8>(&expected)
            );
        }
        _ => panic!("expected the quad's vertex buffer binding"),
    }
}

#[test]
fn image_draw_binds_group_vertices_indices_then_draws() {
    let bytes = red_2x2_png();
    let mut img = Image::new(&bytes, String::from("sprite"), rect(0.0, 0.0, 1.0, 1.0)).unwrap();
    let mut pass = RenderPass::new();
    img.draw(&mut pass);
    assert_eq!(pass.commands.len(), 4);
    assert!(matches!(
        pass.commands[0],
        RenderCommand::SetBindGroup { slot: 0 }
    ));
    assert!(matches!(
        pass.commands[1],
        RenderCommand::SetVertexBuffer { slot: 0, .. }
    ));
    assert!(matches!(pass.commands[2], RenderCommand::SetIndexBuffer { .. }));
    assert!(matches!(
        pass.commands[3],
        RenderCommand::DrawIndexed { index_count: 6, instance_count: 1 }
    ));
}

#[test]
fn document_layers_always_match_document_extent() {
    let mut doc = Document::new(64, 48);
    assert_eq!(
        doc.extent(),
        Extent3d { width: 64, height: 48, depth_or_array_layers: 1 }
    );
    doc.add_image_buffer();
    doc.add_image_buffer();
    doc.add_layer(0);
    doc.add_layer(1);
    doc.add_layer(1);
    assert_eq!(doc.num_buffers(), 2);
    assert_eq!(doc.num_layers(0), 1);
    assert_eq!(doc.num_layers(1), 2);
    for (buffer, layers) in [(0usize, 1usize), (1, 2)] {
        for layer in 0..layers {
            assert_eq!(doc.layer_extent(buffer, layer), doc.extent());
        }
    }
}

#[test]
fn image_buffer_layers_take_the_shared_extent() {
    let extent = Extent3d { width: 7, height: 9, depth_or_array_layers: 1 };
    let mut buffer = ImageBuffer::new(extent);
    assert_eq!(buffer.num_layers(), 0);
    buffer.add_layer();
    buffer.add_layer();
    assert_eq!(buffer.num_layers(), 2);
    assert_eq!(buffer.layer_extent(0), extent);
    assert_eq!(buffer.layer_extent(1), extent);
}

#[test]
fn error_descriptions() {
    assert_eq!(
        RenderError::ResourceAllocationFailure.describe(),
        "GPU resource allocation failed"
    );
    assert_eq!(
        RenderError::ImageDecodeFailure.describe(),
        "input bytes are not a valid encoded raster image"
    );
}
