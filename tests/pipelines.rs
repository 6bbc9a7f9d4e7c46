use phys_rs_render::color::{Color, StandardColorPalette};
use phys_rs_render::pipeline::{
    CirclePipeline, GridPipeline, QuadPipeline, DEFAULT_MAX_GRIDS, MAX_DEFAULT_CIRCLES,
    MAX_DEFAULT_QUADS,
};
use phys_rs_render::renderer::DrawError;
use phys_rs_render::Renderer;

/// center, radius, color, thickness
type Circle = ((f32, f32), f32, Color, f32);

#[test]
fn filled_circle_executes_as_one_draw_call() {
    let mut pipeline: CirclePipeline<Circle> = CirclePipeline::create();
    let mut renderer = Renderer::new(800, 600);
    let circle = ((0.0, 0.0), 10.0, StandardColorPalette::red(), 0.0);
    assert_eq!(pipeline.add_circle(circle), Ok(()));
    let drawn = pipeline.execute(&mut renderer).expect("one circle pending");
    assert_eq!(drawn.len(), 1);
    assert_eq!(drawn[0].1, 10.0);
    assert_eq!(drawn[0].3, 0.0);
    assert_eq!(renderer.draw_calls, 1);
    assert!(pipeline.circles().is_empty());
}

#[test]
fn executing_an_empty_pipeline_draws_nothing() {
    let mut pipeline: CirclePipeline<Circle> = CirclePipeline::create();
    let mut renderer = Renderer::new(800, 600);
    assert!(pipeline.execute(&mut renderer).is_none());
    assert_eq!(renderer.draw_calls, 0);
}

#[test]
fn cleared_pipeline_executes_as_no_op() {
    let mut pipeline: QuadPipeline<u32> = QuadPipeline::create();
    let mut renderer = Renderer::new(800, 600);
    pipeline.add_quad(1).unwrap();
    pipeline.add_quad(2).unwrap();
    pipeline.clear();
    assert!(pipeline.execute(&mut renderer).is_none());
    assert_eq!(renderer.draw_calls, 0);
}

#[test]
fn instances_keep_insertion_order() {
    let mut pipeline: QuadPipeline<u32> = QuadPipeline::create();
    let mut renderer = Renderer::new(800, 600);
    for i in 0..5u32 {
        pipeline.add_quad(i).unwrap();
    }
    assert_eq!(pipeline.execute(&mut renderer), Some(vec![0, 1, 2, 3, 4]));
    assert_eq!(renderer.draw_calls, 1);
}

#[test]
fn full_circle_buffer_refuses_more() {
    let mut pipeline: CirclePipeline<usize> = CirclePipeline::create();
    for i in 0..MAX_DEFAULT_CIRCLES {
        assert_eq!(pipeline.add_circle(i), Ok(()));
    }
    assert_eq!(pipeline.add_circle(MAX_DEFAULT_CIRCLES), Err(DrawError::CapacityExceeded));
    assert_eq!(pipeline.circles().len(), MAX_DEFAULT_CIRCLES);
    assert_eq!(pipeline.circles()[MAX_DEFAULT_CIRCLES - 1], MAX_DEFAULT_CIRCLES - 1);
}

#[test]
fn set_quads_refuses_an_oversized_list() {
    let mut pipeline: QuadPipeline<usize> = QuadPipeline::create();
    pipeline.add_quad(7).unwrap();
    let too_many: Vec<usize> = (0..MAX_DEFAULT_QUADS + 1).collect();
    assert_eq!(pipeline.set_quads(too_many), Err(DrawError::CapacityExceeded));
    assert_eq!(pipeline.quads(), &vec![7]);
    assert_eq!(pipeline.set_quads(vec![1, 2]), Ok(()));
    assert_eq!(pipeline.quads(), &vec![1, 2]);
}

#[test]
fn set_circles_replaces_pending_circles() {
    let mut pipeline: CirclePipeline<u8> = CirclePipeline::create();
    pipeline.add_circle(9).unwrap();
    assert_eq!(pipeline.set_circles(vec![1, 2, 3]), Ok(()));
    assert_eq!(pipeline.circles(), &vec![1, 2, 3]);
}

#[test]
fn grid_stays_set_after_execution() {
    let mut grid: GridPipeline<&str> = GridPipeline::create();
    let mut renderer = Renderer::new(800, 600);
    assert_eq!(grid.execute(&mut renderer), None);
    assert_eq!(grid.set_grids(vec!["fullscreen"]), Ok(()));
    assert_eq!(grid.execute(&mut renderer), Some(1));
    assert_eq!(grid.execute(&mut renderer), Some(1));
    assert_eq!(renderer.draw_calls, 2);
    assert_eq!(grid.grids(), Some(&vec!["fullscreen"]));
}

#[test]
fn grid_buffer_holds_one_grid() {
    let mut grid: GridPipeline<u8> = GridPipeline::create();
    assert_eq!(DEFAULT_MAX_GRIDS, 1);
    assert_eq!(grid.set_grids(vec![1, 2]), Err(DrawError::CapacityExceeded));
    assert_eq!(grid.grids(), None);
}
