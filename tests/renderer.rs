use app_engine::frame::{push_constants, Command, DrawPass, Mat3, PipelineKind, RenderGraph};
use app_engine::ids::{new_uuid, ImageID, ShapeID, UUID_V4_BITS, UUID_VERSION_VARIANT_MASK};
use app_engine::render::{RenderError, Renderer};
use app_engine::shape::{
    interleave_colors, interleave_uvs, triangles_ok, Color, Point2, Point3, Shape2D,
    Shape2DInternal,
};

fn p(x: f32, y: f32) -> Point2 {
    Point2 { x: x.to_bits(), y: y.to_bits() }
}

fn c(r: f32, g: f32, b: f32, a: f32) -> Color {
    Color { r: r.to_bits(), g: g.to_bits(), b: b.to_bits(), a: a.to_bits() }
}

fn identity() -> Mat3 {
    let one = 1.0f32.to_bits();
    Mat3 {
        cols: [
            Point3 { x: one, y: 0, z: 0 },
            Point3 { x: 0, y: one, z: 0 },
            Point3 { x: 0, y: 0, z: one },
        ],
    }
}

fn checkerboard() -> Vec<u8> {
    vec![
        255, 255, 255, 255, 0, 0, 0, 255, //
        0, 0, 0, 255, 255, 255, 255, 255,
    ]
}

fn unit_square(texture: ImageID) -> Shape2D {
    Shape2D::TexturePolygon {
        texture,
        uvs: vec![p(0.0, 0.0), p(1.0, 0.0), p(0.0, 1.0), p(1.0, 1.0)],
        vertices: vec![p(0.0, 0.0), p(1.0, 0.0), p(0.0, 1.0), p(1.0, 1.0)],
        indices: vec![0, 1, 2, 3, 2, 1],
    }
}

fn triangle() -> Shape2D {
    Shape2D::ColorPolygon {
        colors: vec![c(1.0, 0.0, 0.0, 1.0), c(0.0, 1.0, 0.0, 1.0), c(0.0, 0.0, 1.0, 1.0)],
        vertices: vec![p(-0.5, -0.5), p(0.5, -0.5), p(0.0, 0.5)],
        indices: vec![0, 1, 2],
    }
}

fn passes(graph: &RenderGraph) -> Vec<&DrawPass> {
    graph
        .commands
        .iter()
        .filter_map(|cmd| match cmd {
            Command::Draw(pass) => Some(pass),
            Command::ClearColor => None,
        })
        .collect()
}

#[test]
fn valid_color_polygon_gets_fresh_id() {
    let mut r = Renderer::new(640, 480);
    let first = r.add_shape2d(triangle()).unwrap();
    let second = r.add_shape2d(triangle()).unwrap();
    assert_ne!(first, second);
    assert_eq!(r.d2.shapes.len(), 2);
    assert!(r.d2.shapes.contains_key(&first.0));
    assert!(r.d2.shapes.contains_key(&second.0));
}

#[test]
fn color_polygon_with_id_is_stored_with_its_buffers() {
    let mut r = Renderer::new(640, 480);
    assert_eq!(r.add_shape2d_with_id(ShapeID(7), triangle()), Ok(ShapeID(7)));
    let (internal, _) = &r.d2.shapes[&7];
    match internal {
        Shape2DInternal::ColorPoly { vertex_color, index_count, index } => {
            assert_eq!(vertex_color.len(), 18);
            assert_eq!(vertex_color[0], (-0.5f32).to_bits());
            assert_eq!(vertex_color[2], 1.0f32.to_bits());
            assert_eq!(vertex_color[6], 0.5f32.to_bits());
            assert_eq!(*index_count, 3);
            assert_eq!(index, &vec![0u16, 1, 2]);
        }
        _ => panic!("expected a flat-colored polygon"),
    }
}

#[test]
fn missing_texture_is_refused() {
    let mut r = Renderer::new(640, 480);
    assert_eq!(r.add_shape2d(unit_square(ImageID(42))), Err(RenderError::TextureNotFound));
    assert_eq!(
        r.add_shape2d_with_id(ShapeID(1), unit_square(ImageID(42))),
        Err(RenderError::TextureNotFound)
    );
    assert!(r.d2.shapes.is_empty());
}

#[test]
fn drawing_unknown_shape_changes_nothing() {
    let r = Renderer::new(640, 480);
    let mut frame = r.begin(true).unwrap();
    assert_eq!(frame.shape2d(&r, ShapeID(3), &identity()), Err(RenderError::ShapeNotFound));
    assert_eq!(frame.line_count, 0);
    assert_eq!(frame.clr_poly_count, 0);
    assert_eq!(frame.tex_poly_count, 0);
    let graph = frame.finish();
    assert_eq!(graph.commands.len(), 1);
    assert!(matches!(graph.commands[0], Command::ClearColor));
}

#[test]
fn textured_draw_binds_its_own_image() {
    let mut r = Renderer::new(640, 480);
    let other = r.upload_image(2, 2, &checkerboard()).unwrap();
    let img = r.upload_image(2, 2, &checkerboard()).unwrap();
    assert_ne!(other, img);
    let shape = r.add_shape2d(unit_square(img)).unwrap();
    let mut frame = r.begin(true).unwrap();
    frame.shape2d(&r, shape, &identity()).unwrap();
    let graph = frame.finish();
    let drawn = passes(&graph);
    assert_eq!(drawn.len(), 1);
    assert_eq!(drawn[0].texture, Some(img));
    assert_eq!(drawn[0].shape, shape);
}

#[test]
fn removing_twice_is_harmless() {
    let mut r = Renderer::new(640, 480);
    let a = r.upload_image(2, 2, &checkerboard()).unwrap();
    let b = r.upload_image(2, 2, &checkerboard()).unwrap();
    let s = r.add_shape2d(triangle()).unwrap();
    let t = r.add_shape2d(triangle()).unwrap();
    r.drop_image(a);
    r.drop_image(a);
    r.drop_shape2d(s);
    r.drop_shape2d(s);
    assert!(!r.images.contains_key(&a.0));
    assert!(r.images.contains_key(&b.0));
    assert!(!r.d2.shapes.contains_key(&s.0));
    assert!(r.d2.shapes.contains_key(&t.0));
    assert_eq!(r.images.len(), 1);
    assert_eq!(r.d2.shapes.len(), 1);
}

#[test]
fn textured_square_end_to_end() {
    let mut r = Renderer::new(640, 480);
    let img = r.upload_image(2, 2, &checkerboard()).unwrap();
    let shape = r.add_shape2d(unit_square(img)).unwrap();
    let mut frame = r.begin(true).unwrap();
    frame.shape2d(&r, shape, &identity()).unwrap();
    assert_eq!(frame.tex_poly_count, 1);
    assert_eq!(frame.line_count, 0);
    assert_eq!(frame.clr_poly_count, 0);
    let graph = frame.finish();
    assert!(matches!(graph.commands[0], Command::ClearColor));
    let drawn = passes(&graph);
    assert_eq!(drawn.len(), 1);
    assert_eq!(drawn[0].kind, PipelineKind::TexturePoly);
    assert_eq!(drawn[0].ordinal, 1);
    assert_eq!(drawn[0].element_count, 6);
    assert_eq!(drawn.iter().filter(|d| d.kind == PipelineKind::Line).count(), 0);
    assert_eq!(drawn.iter().filter(|d| d.kind == PipelineKind::ColorPoly).count(), 0);
}

#[test]
fn resize_sets_next_frame_size() {
    let mut r = Renderer::new(640, 480);
    r.on_resize_event(800, 600);
    let graph = r.begin(true).unwrap().finish();
    assert_eq!((graph.width, graph.height), (800, 600));
}

#[test]
fn begin_without_image_fails() {
    let r = Renderer::new(640, 480);
    assert!(matches!(r.begin(false), Err(RenderError::NoImageAvailable)));
}

#[test]
fn identity_push_constants_bytes() {
    let bytes = push_constants(&identity());
    let mut expected = vec![0u8; 48];
    for col in 0..3 {
        expected[col * 16 + col * 4..col * 16 + col * 4 + 4].copy_from_slice(&[0, 0, 0x80, 0x3f]);
    }
    assert_eq!(bytes, expected);
}

#[test]
fn push_constants_are_little_endian_and_padded() {
    let m = Mat3 {
        cols: [
            Point3 { x: 0x0403_0201, y: 0x0807_0605, z: 0x0c0b_0a09 },
            Point3 { x: 0x1413_1211, y: 0, z: 0 },
            Point3 { x: 0, y: 0, z: 0xffff_ffff },
        ],
    };
    let bytes = push_constants(&m);
    assert_eq!(bytes.len(), 48);
    assert_eq!(&bytes[0..16], &[1, 2, 3, 4, 5, 6, 7, 8, 9, 10, 11, 12, 0, 0, 0, 0]);
    assert_eq!(&bytes[16..20], &[0x11, 0x12, 0x13, 0x14]);
    assert_eq!(&bytes[40..48], &[0xff, 0xff, 0xff, 0xff, 0, 0, 0, 0]);
}

#[test]
fn interleaving_orders_words_per_vertex() {
    let vertices = vec![Point2 { x: 1, y: 2 }, Point2 { x: 3, y: 4 }];
    let colors = vec![Color { r: 10, g: 11, b: 12, a: 13 }, Color { r: 20, g: 21, b: 22, a: 23 }];
    assert_eq!(interleave_colors(&vertices, &colors), vec![1, 2, 10, 11, 12, 13, 3, 4, 20, 21, 22, 23]);
    let uvs = vec![Point2 { x: 5, y: 6 }, Point2 { x: 7, y: 8 }];
    assert_eq!(interleave_uvs(&vertices, &uvs), vec![1, 2, 5, 6, 3, 4, 7, 8]);
    assert_eq!(interleave_colors(&vec![], &vec![]), Vec::<u32>::new());
}

#[test]
fn line_draws_every_vertex() {
    let mut r = Renderer::new(640, 480);
    let line = Shape2D::Line(
        vec![c(1.0, 1.0, 1.0, 1.0), c(1.0, 1.0, 1.0, 1.0), c(1.0, 1.0, 1.0, 1.0)],
        vec![p(0.0, 0.0), p(0.5, 0.5), p(1.0, 0.0)],
    );
    let id = r.add_shape2d(line).unwrap();
    let tri = r.add_shape2d(triangle()).unwrap();
    let mut frame = r.begin(true).unwrap();
    frame.shape2d(&r, id, &identity()).unwrap();
    frame.shape2d(&r, tri, &identity()).unwrap();
    frame.shape2d(&r, id, &identity()).unwrap();
    assert_eq!(frame.line_count, 2);
    assert_eq!(frame.clr_poly_count, 1);
    let graph = frame.finish();
    let drawn = passes(&graph);
    assert_eq!(drawn.len(), 3);
    assert_eq!((drawn[0].kind, drawn[0].ordinal, drawn[0].element_count), (PipelineKind::Line, 1, 3));
    assert_eq!((drawn[1].kind, drawn[1].ordinal, drawn[1].element_count), (PipelineKind::ColorPoly, 1, 3));
    assert_eq!((drawn[2].kind, drawn[2].ordinal), (PipelineKind::Line, 2));
    assert_eq!(drawn[1].texture, None);
}

#[test]
fn malformed_shapes_are_refused() {
    let mut r = Renderer::new(640, 480);
    let uneven = Shape2D::Line(vec![c(1.0, 1.0, 1.0, 1.0)], vec![p(0.0, 0.0), p(1.0, 1.0)]);
    assert_eq!(r.add_shape2d(uneven), Err(RenderError::InvalidShape));
    let out_of_range = Shape2D::ColorPolygon {
        colors: vec![c(1.0, 0.0, 0.0, 1.0); 3],
        vertices: vec![p(0.0, 0.0); 3],
        indices: vec![0, 1, 3],
    };
    assert_eq!(r.add_shape2d(out_of_range), Err(RenderError::InvalidShape));
    let partial = Shape2D::ColorPolygon {
        colors: vec![c(1.0, 0.0, 0.0, 1.0); 3],
        vertices: vec![p(0.0, 0.0); 3],
        indices: vec![0, 1],
    };
    assert_eq!(r.add_shape2d(partial), Err(RenderError::InvalidShape));
    assert!(r.d2.shapes.is_empty());
    assert!(triangles_ok(&vec![], 0));
    assert!(!triangles_ok(&vec![0, 0, 0], 0));
}

#[test]
fn image_with_wrong_pixel_count_is_refused() {
    let mut r = Renderer::new(640, 480);
    assert_eq!(r.upload_image(2, 2, &vec![0u8; 15]), Err(RenderError::InvalidImage));
    assert_eq!(r.upload_image(0, 0, &vec![]).map(|_| ()), Ok(()));
    assert_eq!(r.images.len(), 1);
}

#[test]
fn identifier_in_use_is_refused() {
    let mut r = Renderer::new(640, 480);
    assert_eq!(r.upload_image_with_id(ImageID(1), 2, 2, &checkerboard()), Ok(ImageID(1)));
    assert_eq!(r.upload_image_with_id(ImageID(1), 2, 2, &checkerboard()), Err(RenderError::IdInUse));
    assert_eq!(r.add_shape2d_with_id(ShapeID(1), triangle()), Ok(ShapeID(1)));
    assert_eq!(r.add_shape2d_with_id(ShapeID(1), triangle()), Err(RenderError::IdInUse));
    assert_eq!(r.images.len(), 1);
    assert_eq!(r.d2.shapes.len(), 1);
}

#[test]
fn identifiers_are_version_four_uuids() {
    let a = new_uuid();
    let b = new_uuid();
    assert_ne!(a, b);
    assert_eq!(a & UUID_VERSION_VARIANT_MASK, UUID_V4_BITS);
    let mut r = Renderer::new(1, 1);
    let id = r.add_shape2d(triangle()).unwrap();
    assert_eq!(id.0 & UUID_VERSION_VARIANT_MASK, UUID_V4_BITS);
}
