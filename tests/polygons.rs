use lyon::math::{point, Box2D};
use lyon::path::{Path, Winding};
use lyon::tessellation::{BuffersBuilder, FillOptions, FillTessellator, FillVertex, VertexBuffers};
use phys_rs_render::poly::{IndexRange, PolyPipeline, MAX_DEFAULT_PRIMITIVES, MAX_DEFAULT_VERTICES};
use phys_rs_render::renderer::DrawError;
use phys_rs_render::Renderer;

fn rectangle(min: (f32, f32), max: (f32, f32)) -> (Vec<[f32; 2]>, Vec<u16>) {
    let mut builder = Path::builder();
    builder.add_rectangle(&Box2D::new(point(min.0, min.1), point(max.0, max.1)), Winding::Positive);
    let path = builder.build();
    let mut geometry: VertexBuffers<[f32; 2], u16> = VertexBuffers::new();
    FillTessellator::new()
        .tessellate_path(
            &path,
            &FillOptions::default(),
            &mut BuffersBuilder::new(&mut geometry, |v: FillVertex| v.position().to_array()),
        )
        .unwrap();
    (geometry.vertices, geometry.indices)
}

#[test]
fn rectangle_tessellates_to_four_vertices_and_six_indices() {
    let (vertices, indices) = rectangle((10.0, 10.0), (110.0, 60.0));
    assert_eq!(vertices.len(), 4);
    assert_eq!(indices.len(), 6);
    let mut poly: PolyPipeline<[f32; 2], &str> = PolyPipeline::create();
    assert_eq!(poly.add_mesh(vertices, indices, Some("red")), Ok(()));
    assert_eq!(poly.vertex_count(), 4);
    assert_eq!(poly.index_count(), 6);
    assert_eq!(poly.primitives().len(), 1);
    assert_eq!(poly.primitives()[0].indices_count, 6);
}

#[test]
fn second_shape_indices_follow_the_first_shape_vertices() {
    let mut poly: PolyPipeline<u8, u8> = PolyPipeline::create();
    let mut renderer = Renderer::new(800, 600);
    poly.add_mesh(vec![0, 1, 2], vec![0, 1, 2], Some(1)).unwrap();
    poly.add_mesh(vec![3, 4, 5, 6], vec![0, 1, 2, 0, 2, 3], Some(2)).unwrap();
    let draw = poly.execute(&mut renderer).expect("two shapes");
    assert_eq!(draw.indices, vec![0, 1, 2, 3, 4, 5, 3, 5, 6]);
    assert_eq!(draw.prim_ids, vec![0, 0, 0, 1, 1, 1, 1]);
    assert_eq!(draw.positions, vec![0, 1, 2, 3, 4, 5, 6]);
    assert_eq!(
        draw.ranges,
        vec![IndexRange { start: 0, end: 3 }, IndexRange { start: 3, end: 9 }]
    );
    assert_eq!(renderer.draw_calls, 2);
    assert_eq!(poly.vertex_count(), 0);
    assert_eq!(poly.index_count(), 0);
    assert!(poly.primitives().is_empty());
}

#[test]
fn unfinished_shapes_count_toward_the_next_primitive() {
    let mut poly: PolyPipeline<u8, u8> = PolyPipeline::create();
    poly.add_mesh(vec![0, 1, 2], vec![0, 1, 2], None).unwrap();
    poly.add_mesh(vec![3, 4, 5], vec![2, 1, 0], Some(9)).unwrap();
    assert_eq!(poly.primitives().len(), 1);
    assert_eq!(poly.primitives()[0].indices_count, 6);
    assert_eq!(poly.primitives()[0].style, 9);
}

#[test]
fn unfinished_shape_is_uploaded_and_dropped_without_draws() {
    let mut poly: PolyPipeline<u8, u8> = PolyPipeline::create();
    let mut renderer = Renderer::new(800, 600);
    poly.add_mesh(vec![0, 1, 2], vec![0, 1, 2], None).unwrap();
    let draw = poly.execute(&mut renderer).expect("vertices pending");
    assert_eq!(draw.positions, vec![0, 1, 2]);
    assert_eq!(draw.indices, vec![0, 1, 2]);
    assert!(draw.primitives.is_empty());
    assert!(draw.ranges.is_empty());
    assert_eq!(renderer.draw_calls, 0);
    assert_eq!(poly.vertex_count(), 0);
    assert_eq!(poly.index_count(), 0);
    poly.add_mesh(vec![3, 4, 5], vec![0, 1, 2], Some(1)).unwrap();
    let draw = poly.execute(&mut renderer).expect("one shape");
    assert_eq!(draw.prim_ids, vec![0, 0, 0]);
    assert_eq!(draw.ranges, vec![IndexRange { start: 0, end: 3 }]);
    assert_eq!(renderer.draw_calls, 1);
}

#[test]
fn empty_pipeline_executes_as_no_op() {
    let mut poly: PolyPipeline<u8, u8> = PolyPipeline::create();
    let mut renderer = Renderer::new(800, 600);
    assert!(poly.execute(&mut renderer).is_none());
    assert_eq!(renderer.draw_calls, 0);
}

#[test]
fn mesh_of_partial_triangle_is_refused() {
    let mut poly: PolyPipeline<u8, u8> = PolyPipeline::create();
    assert_eq!(poly.add_mesh(vec![0, 1, 2], vec![0, 1], Some(1)), Err(DrawError::InvalidMesh));
    assert_eq!(poly.vertex_count(), 0);
    assert!(poly.primitives().is_empty());
}

#[test]
fn mesh_with_index_past_its_vertices_is_refused() {
    let mut poly: PolyPipeline<u8, u8> = PolyPipeline::create();
    assert_eq!(poly.add_mesh(vec![0, 1, 2], vec![0, 1, 3], Some(1)), Err(DrawError::InvalidMesh));
    assert_eq!(poly.vertex_count(), 0);
    assert_eq!(poly.index_count(), 0);
}

#[test]
fn primitive_records_are_bounded() {
    let mut poly: PolyPipeline<u8, u8> = PolyPipeline::create();
    for i in 0..MAX_DEFAULT_PRIMITIVES {
        assert_eq!(poly.add_mesh(vec![0, 1, 2], vec![0, 1, 2], Some(i as u8)), Ok(()));
    }
    assert_eq!(poly.add_mesh(vec![0, 1, 2], vec![0, 1, 2], Some(5)), Err(DrawError::CapacityExceeded));
    assert_eq!(poly.vertex_count(), 3 * MAX_DEFAULT_PRIMITIVES);
    assert_eq!(poly.add_mesh(vec![0, 1, 2], vec![0, 1, 2], None), Ok(()));
}

#[test]
fn vertex_buffer_is_bounded() {
    let mut poly: PolyPipeline<u16, u8> = PolyPipeline::create();
    let vertices: Vec<u16> = (0..MAX_DEFAULT_VERTICES as u16 + 1).collect();
    assert_eq!(poly.add_mesh(vertices, vec![0, 1, 2], Some(1)), Err(DrawError::CapacityExceeded));
    let vertices: Vec<u16> = (0..MAX_DEFAULT_VERTICES as u16).collect();
    assert_eq!(poly.add_mesh(vertices, vec![0, 1, 999], Some(1)), Ok(()));
    assert_eq!(poly.add_mesh(vec![0], vec![], None), Err(DrawError::CapacityExceeded));
}

#[test]
fn clearing_drops_the_shared_mesh() {
    let mut poly: PolyPipeline<u8, u8> = PolyPipeline::create();
    let mut renderer = Renderer::new(800, 600);
    poly.add_mesh(vec![0, 1, 2], vec![0, 1, 2], Some(1)).unwrap();
    poly.clear();
    assert!(poly.execute(&mut renderer).is_none());
    assert_eq!(renderer.draw_calls, 0);
}
