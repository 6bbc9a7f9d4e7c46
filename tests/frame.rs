use phys_rs_render::brush::Brush;
use phys_rs_render::events::{on_event, AppAction, AppEvent};
use phys_rs_render::renderer::{DrawError, FramePhase, Globals};
use phys_rs_render::settings::WindowSettings;
use phys_rs_render::components::ui::BasicDataUI;
use phys_rs_render::Renderer;

type TestBrush = Brush<&'static str, u32, u8, u8, u32>;

fn brush() -> TestBrush {
    Brush::new("fullscreen grid")
}

#[test]
fn resize_uploads_globals_once_before_next_frame() {
    let mut renderer = Renderer::new(800, 600);
    let mut brush = brush();
    renderer.resize(1024, 768);
    assert_eq!(renderer.globals, Globals { width: 1024, height: 768 });
    assert_eq!(renderer.globals.width as f32, 1024.0);
    assert_eq!(renderer.globals.height as f32, 768.0);
    assert_eq!(renderer.get_window_size(), (1024, 768));
    let start = renderer.render_begin(&brush).unwrap();
    assert_eq!(start.upload_globals, Some(Globals { width: 1024, height: 768 }));
    renderer.render_end(&mut brush).unwrap();
    let start = renderer.render_begin(&brush).unwrap();
    assert_eq!(start.upload_globals, None);
}

#[test]
fn frame_begins_with_the_grid() {
    let mut renderer = Renderer::new(800, 600);
    let brush = brush();
    let start = renderer.render_begin(&brush).unwrap();
    assert_eq!(start.upload_globals, None);
    assert_eq!(start.grid_instances, Some(1));
    assert_eq!(renderer.draw_calls, 1);
    assert_eq!(renderer.phase, FramePhase::Open);
}

#[test]
fn second_begin_without_end_is_refused() {
    let mut renderer = Renderer::new(800, 600);
    let brush = brush();
    renderer.render_begin(&brush).unwrap();
    assert_eq!(renderer.render_begin(&brush).err(), Some(DrawError::FrameAlreadyOpen));
    assert_eq!(renderer.draw_calls, 1);
}

#[test]
fn end_without_open_frame_is_refused() {
    let mut renderer = Renderer::new(800, 600);
    let mut brush = brush();
    brush.add_circle(3).unwrap();
    assert_eq!(renderer.render_end(&mut brush).err(), Some(DrawError::NoOpenFrame));
    assert_eq!(brush.circle_pipeline.circles(), &vec![3]);
}

#[test]
fn flush_without_open_frame_is_refused() {
    let mut renderer = Renderer::new(800, 600);
    let mut brush = brush();
    brush.add_quad(4).unwrap();
    assert_eq!(brush.flush(&mut renderer).err(), Some(DrawError::NoOpenFrame));
    assert_eq!(renderer.execute_brush(&mut brush).err(), Some(DrawError::NoOpenFrame));
    assert_eq!(brush.quad_pipeline.quads(), &vec![4]);
}

#[test]
fn flush_then_draw_gives_two_submissions() {
    let mut renderer = Renderer::new(800, 600);
    let mut brush = brush();
    renderer.render_begin(&brush).unwrap();
    brush.add_circle(1).unwrap();
    let first = brush.flush(&mut renderer).unwrap();
    brush.add_circle(2).unwrap();
    let end = renderer.render_end(&mut brush).unwrap();
    assert_eq!(first.circles, Some(vec![1]));
    assert_eq!(end.draws.circles, Some(vec![2]));
    assert_eq!(end.draw_calls, 3);
    assert_eq!(renderer.draw_calls, 0);
    assert_eq!(renderer.phase, FramePhase::Idle);
}

#[test]
fn execute_brush_submits_and_clears() {
    let mut renderer = Renderer::new(800, 600);
    let mut brush = brush();
    renderer.render_begin(&brush).unwrap();
    brush.add_circle(5).unwrap();
    brush.add_quad(6).unwrap();
    brush.add_mesh(vec![0, 1, 2], vec![0, 1, 2], Some(7)).unwrap();
    let draws = renderer.execute_brush(&mut brush).unwrap();
    assert_eq!(draws.circles, Some(vec![5]));
    assert_eq!(draws.quads, Some(vec![6]));
    assert_eq!(draws.polygons.map(|m| m.primitives.len()), Some(1));
    assert_eq!(renderer.draw_calls, 4);
    assert!(brush.circle_pipeline.circles().is_empty());
    assert!(brush.quad_pipeline.quads().is_empty());
    assert_eq!(brush.polygon_pipeline.index_count(), 0);
}

#[test]
fn cleared_brush_executes_nothing() {
    let mut renderer = Renderer::new(800, 600);
    let mut brush = brush();
    brush.add_circle(1).unwrap();
    brush.add_quad(2).unwrap();
    brush.add_mesh(vec![0, 1, 2], vec![0, 1, 2], Some(3)).unwrap();
    brush.clear();
    let draws = brush.execute(&mut renderer);
    assert!(draws.circles.is_none());
    assert!(draws.polygons.is_none());
    assert!(draws.quads.is_none());
    assert_eq!(renderer.draw_calls, 0);
    assert_eq!(brush.grid_pipeline.grids(), Some(&vec!["fullscreen grid"]));
}

#[test]
fn events_map_to_actions() {
    let mut renderer = Renderer::new(800, 600);
    assert_eq!(on_event(&mut renderer, AppEvent::CloseRequested), AppAction::Exit);
    assert_eq!(on_event(&mut renderer, AppEvent::RedrawRequested), AppAction::RenderFrame);
    assert_eq!(on_event(&mut renderer, AppEvent::MainEventsCleared), AppAction::RequestRedraw);
    assert_eq!(on_event(&mut renderer, AppEvent::Other), AppAction::Wait);
    assert!(!renderer.has_to_update_globals);
    assert_eq!(on_event(&mut renderer, AppEvent::Resized { width: 1024, height: 768 }), AppAction::Wait);
    assert_eq!(renderer.get_window_size(), (1024, 768));
    assert!(renderer.has_to_update_globals);
}

#[test]
fn window_settings_keep_title_and_size() {
    let s = WindowSettings::new("Phys RS Test".to_string(), (800, 600));
    assert_eq!(s.title, "Phys RS Test");
    assert_eq!(s.size, (800, 600));
    let _ui = BasicDataUI::new();
}

#[test]
fn flush_then_set_circles_gives_two_submissions() {
    let mut renderer = Renderer::new(800, 600);
    let mut brush = brush();
    renderer.render_begin(&brush).unwrap();
    brush.add_circle(1).unwrap();
    brush.add_circle(2).unwrap();
    let first = renderer.execute_brush(&mut brush).unwrap();
    brush.circle_pipeline.set_circles(vec![3, 4, 5]).unwrap();
    let end = renderer.render_end(&mut brush).unwrap();
    assert_eq!(first.circles, Some(vec![1, 2]));
    assert_eq!(end.draws.circles, Some(vec![3, 4, 5]));
    assert_eq!(end.draw_calls, 3);
}
