use wasm_renderer::engine::RenderEngine;
use wasm_renderer::geometry::Point;
use wasm_renderer::model::{parse_shape_kind, parse_tool, ShapeKind, Stroke, Tool};

fn pt(x: i32, y: i32) -> Point {
    Point { x, y }
}

fn stroke(id: &str, tool: Tool, points: Vec<Point>, thickness: u32) -> Stroke {
    Stroke {
        id: id.to_string(),
        points,
        color: "#000000".to_string(),
        thickness,
        opacity: 100,
        tool,
        fill_color: None,
    }
}

#[test]
fn hit_on_freehand_sample_with_zero_radius() {
    let mut e = RenderEngine::new(800, 600);
    e.set_strokes(vec![stroke("p", Tool::Pen, vec![pt(10, 10), pt(50, 50)], 0)]);
    assert_eq!(e.hit_test(50, 50, 0), 0);
    assert_eq!(e.hit_test(51, 50, 0), -1);
}

#[test]
fn hit_freehand_uses_half_thickness() {
    let mut e = RenderEngine::new(800, 600);
    e.set_strokes(vec![stroke("p", Tool::Highlighter, vec![pt(0, 0)], 4)]);
    // radius 1 + thickness/2 = 3
    assert_eq!(e.hit_test(3, 0, 1), 0);
    assert_eq!(e.hit_test(3, 1, 1), -1);
    // samples only: the gap between widely spaced samples is not inside
    e.set_strokes(vec![stroke("p", Tool::Pen, vec![pt(0, 0), pt(100, 0)], 2)]);
    assert_eq!(e.hit_test(50, 0, 2), -1);
}

#[test]
fn hit_outside_everything_is_not_found() {
    let mut e = RenderEngine::new(800, 600);
    e.set_strokes(vec![
        stroke("r", Tool::Shape(ShapeKind::Rectangle), vec![pt(10, 10), pt(50, 30)], 2),
        stroke("t", Tool::Text("hi".to_string()), vec![pt(100, 100)], 2),
    ]);
    assert_eq!(e.hit_test(60, 20, 5), -1);
    assert_eq!(e.hit_test(55, 20, 5), 0);
    assert_eq!(e.hit_test(300, 300, 10), -1);
}

#[test]
fn hit_later_stroke_wins() {
    let mut e = RenderEngine::new(800, 600);
    e.set_strokes(vec![
        stroke("a", Tool::Shape(ShapeKind::Circle), vec![pt(0, 0), pt(100, 100)], 2),
        stroke("b", Tool::Shape(ShapeKind::Star), vec![pt(40, 40), pt(60, 60)], 2),
        stroke("c", Tool::Pen, vec![pt(500, 500)], 2),
    ]);
    assert_eq!(e.hit_test(50, 50, 0), 1);
    // a circle's bounding-box corner is hit-testable
    assert_eq!(e.hit_test(1, 1, 0), 0);
}

#[test]
fn hit_text_box_is_approximate() {
    let mut e = RenderEngine::new(800, 600);
    // font size max(14, 4 * 2) = 14; width = 2 * 14 * 0.6 = 16.8
    e.set_strokes(vec![stroke("t", Tool::Text("hi".to_string()), vec![pt(100, 100)], 2)]);
    assert_eq!(e.hit_test(116, 90, 0), 0);
    assert_eq!(e.hit_test(117, 90, 0), -1);
    assert_eq!(e.hit_test(110, 86, 0), 0);
    assert_eq!(e.hit_test(110, 85, 0), -1);
    assert_eq!(e.hit_test(110, 101, 0), -1);
    assert_eq!(e.hit_test(110, 101, 1), 0);
}

#[test]
fn fps_needs_five_deltas() {
    let mut e = RenderEngine::new(10, 10);
    assert_eq!(e.get_fps(), 0);
    let mut t: u64 = 1_000_000;
    for _ in 0..5 {
        e.record_frame(t);
        t += 16_667;
    }
    // five frames give four deltas
    assert_eq!(e.get_fps(), 0);
    e.record_frame(t);
    assert!(e.get_fps() > 0);
}

#[test]
fn fps_ten_frames_of_sixty_hertz() {
    let mut e = RenderEngine::new(10, 10);
    let mut t: u64 = 1_000_000;
    e.record_frame(t);
    for _ in 0..10 {
        t += 16_667;
        e.record_frame(t);
    }
    let fps = e.get_fps();
    assert_eq!(fps, 59_998);
    let approx = fps as f64 / 1000.0;
    assert!((approx - 60.0).abs() < 0.01);
}

#[test]
fn fps_long_gap_is_rejected() {
    let mut e = RenderEngine::new(10, 10);
    let mut t: u64 = 1_000_000;
    e.record_frame(t);
    for _ in 0..6 {
        t += 20_000;
        e.record_frame(t);
    }
    assert_eq!(e.get_fps(), 50_000);
    t += 2_000_000;
    e.record_frame(t);
    assert_eq!(e.get_fps(), 50_000);
    t += 20_000;
    e.record_frame(t);
    assert_eq!(e.get_fps(), 50_000);
}

#[test]
fn fps_first_frame_at_time_zero_counts() {
    let mut e = RenderEngine::new(10, 10);
    e.record_frame(0);
    e.record_frame(16_667);
    let mut t: u64 = 16_667;
    for _ in 0..3 {
        t += 16_667;
        e.record_frame(t);
    }
    // four deltas so far: the one from time 0 is among them
    assert_eq!(e.get_fps(), 0);
    t += 16_667;
    e.record_frame(t);
    assert_eq!(e.get_fps(), 59_998);
}

#[test]
fn fps_is_capped() {
    let mut e = RenderEngine::new(10, 10);
    let mut t: u64 = 1_000_000;
    e.record_frame(t);
    for _ in 0..40 {
        t += 1_000;
        e.record_frame(t);
    }
    assert_eq!(e.get_fps(), 144_000);
}

#[test]
fn fps_window_keeps_last_thirty() {
    let mut e = RenderEngine::new(10, 10);
    let mut t: u64 = 1_000_000;
    e.record_frame(t);
    for _ in 0..30 {
        t += 10_000;
        e.record_frame(t);
    }
    assert_eq!(e.get_fps(), 100_000);
    for _ in 0..30 {
        t += 40_000;
        e.record_frame(t);
    }
    assert_eq!(e.get_fps(), 25_000);
}

#[test]
fn selection_ids_round_trip() {
    let mut e = RenderEngine::new(10, 10);
    e.set_selected_ids("[\"a\",\"b\",\"c\"]");
    assert_eq!(e.primary_selection(), Some("a".to_string()));
    assert_eq!(e.selection(), vec!["a".to_string(), "b".to_string(), "c".to_string()]);
    e.set_selected_ids("[]");
    assert_eq!(e.primary_selection(), None);
    assert!(e.selection().is_empty());
}

#[test]
fn selection_malformed_json_is_ignored() {
    let mut e = RenderEngine::new(10, 10);
    e.set_selected_ids("[\"x\"]");
    e.set_selected_ids("not json");
    e.set_selected_ids("[1, 2]");
    assert_eq!(e.primary_selection(), Some("x".to_string()));
    assert_eq!(e.selection(), vec!["x".to_string()]);
}

#[test]
fn selection_single_and_clear() {
    let mut e = RenderEngine::new(10, 10);
    e.set_selected("k");
    assert_eq!(e.primary_selection(), Some("k".to_string()));
    assert_eq!(e.selection(), vec!["k".to_string()]);
    e.set_selected("");
    assert_eq!(e.primary_selection(), None);
    assert!(e.selection().is_empty());
    e.select_ids(vec!["q".to_string(), "r".to_string()]);
    assert_eq!(e.primary_selection(), Some("q".to_string()));
}

#[test]
fn tool_tags_parse() {
    assert!(matches!(parse_tool("pen"), Some(Tool::Pen)));
    assert!(matches!(parse_tool("highlighter"), Some(Tool::Highlighter)));
    assert!(matches!(parse_tool("shape-heart"), Some(Tool::Shape(ShapeKind::Heart))));
    assert!(matches!(parse_tool("shape-arrow"), Some(Tool::Shape(ShapeKind::Arrow))));
    match parse_tool("text:Hello, world") {
        Some(Tool::Text(t)) => assert_eq!(t, "Hello, world"),
        _ => panic!("text tag not parsed"),
    }
    match parse_tool("text:") {
        Some(Tool::Text(t)) => assert_eq!(t, ""),
        _ => panic!("empty text tag not parsed"),
    }
    assert!(parse_tool("shape-hexagon").is_none());
    assert!(parse_tool("eraser").is_none());
    assert!(parse_tool("pens").is_none());
    assert!(parse_tool("").is_none());
    assert_eq!(parse_shape_kind("diamond"), Some(ShapeKind::Diamond));
    assert_eq!(parse_shape_kind("Diamond"), None);
}
