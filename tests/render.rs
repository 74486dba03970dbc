use wasm_renderer::engine::RenderEngine;
use wasm_renderer::geometry::Point;
use wasm_renderer::model::{CurrentStrokeStyle, ShapeKind, ShapePreview, Stroke, SymbolPreview, Tool};
use wasm_renderer::render::{text_selection_ops, DrawOp, Paint};

fn pt(x: i32, y: i32) -> Point {
    Point { x, y }
}

fn rect_stroke(fill: Option<&str>) -> Stroke {
    Stroke {
        id: "r1".to_string(),
        points: vec![pt(10, 10), pt(50, 30)],
        color: "#000000".to_string(),
        thickness: 2,
        opacity: 100,
        tool: Tool::Shape(ShapeKind::Rectangle),
        fill_color: fill.map(|f| f.to_string()),
    }
}

fn border(w: i64, h: i64) -> Vec<DrawOp> {
    vec![
        DrawOp::StrokeStyle(Paint::Border),
        DrawOp::LineWidth(20),
        DrawOp::StrokeRect(0, 0, 20 * w, 20 * h),
    ]
}

fn filled_rect_ops() -> Vec<DrawOp> {
    vec![
        DrawOp::GlobalAlpha(100),
        DrawOp::StrokeStyle(Paint::Custom("#000000".to_string())),
        DrawOp::LineWidth(40),
        DrawOp::RoundCapsAndJoins,
        DrawOp::FillStyle(Paint::Custom("#ff0000".to_string())),
        DrawOp::BeginPath,
        DrawOp::FillRect(200, 200, 800, 400),
        DrawOp::StrokeRect(200, 200, 800, 400),
        DrawOp::GlobalAlpha(100),
    ]
}

#[test]
fn render_filled_rectangle() {
    let mut e = RenderEngine::new(100, 80);
    e.set_strokes(vec![rect_stroke(Some("#ff0000"))]);
    let mut expected = border(100, 80);
    expected.extend(filled_rect_ops());
    assert_eq!(e.render(true), expected);
}

#[test]
fn render_selected_rectangle_has_decoration() {
    let mut e = RenderEngine::new(100, 80);
    e.set_strokes(vec![rect_stroke(Some("#ff0000"))]);
    e.set_selected("r1");
    let mut expected = border(100, 80);
    expected.extend(filled_rect_ops());
    expected.extend(vec![
        DrawOp::FillStyle(Paint::AccentTint),
        // (5, 5) sized (50, 30), in twentieths
        DrawOp::FillRect(100, 100, 1000, 600),
        DrawOp::StrokeStyle(Paint::Accent),
        DrawOp::LineWidth(30),
        DrawOp::SolidLine,
        DrawOp::StrokeRect(100, 100, 1000, 600),
        DrawOp::FillStyle(Paint::White),
        DrawOp::StrokeStyle(Paint::Accent),
        DrawOp::LineWidth(40),
        DrawOp::FillRect(20, 20, 160, 160),
        DrawOp::StrokeRect(20, 20, 160, 160),
        DrawOp::FillRect(1020, 20, 160, 160),
        DrawOp::StrokeRect(1020, 20, 160, 160),
        DrawOp::FillRect(20, 620, 160, 160),
        DrawOp::StrokeRect(20, 620, 160, 160),
        DrawOp::FillRect(1020, 620, 160, 160),
        DrawOp::StrokeRect(1020, 620, 160, 160),
    ]);
    assert_eq!(e.render(true), expected);
}

#[test]
fn render_unfilled_rectangle_strokes_only() {
    let mut e = RenderEngine::new(100, 80);
    e.set_strokes(vec![rect_stroke(None)]);
    let ops = e.render(true);
    assert!(!ops.iter().any(|op| matches!(op, DrawOp::FillRect(..))));
    assert!(ops.contains(&DrawOp::StrokeRect(200, 200, 800, 400)));
}

#[test]
fn render_background_and_grid() {
    let e = RenderEngine::new(40, 20);
    let ops = e.render(false);
    let expected = vec![
        DrawOp::FillStyle(Paint::Background),
        DrawOp::FillRect(0, 0, 800, 400),
        DrawOp::StrokeStyle(Paint::Grid),
        DrawOp::LineWidth(10),
        DrawOp::BeginPath,
        DrawOp::MoveTo(0, 0),
        DrawOp::LineTo(0, 400),
        DrawOp::MoveTo(400, 0),
        DrawOp::LineTo(400, 400),
        DrawOp::MoveTo(800, 0),
        DrawOp::LineTo(800, 400),
        DrawOp::MoveTo(0, 0),
        DrawOp::LineTo(800, 0),
        DrawOp::MoveTo(0, 400),
        DrawOp::LineTo(800, 400),
        DrawOp::Stroke,
        DrawOp::StrokeStyle(Paint::Border),
        DrawOp::LineWidth(20),
        DrawOp::StrokeRect(0, 0, 800, 400),
    ];
    assert_eq!(ops, expected);
}

#[test]
fn render_pen_stroke_smoothing() {
    let mut e = RenderEngine::new(10, 10);
    e.set_strokes(vec![Stroke {
        id: "p".to_string(),
        points: vec![pt(0, 0), pt(10, 0), pt(10, 10)],
        color: "blue".to_string(),
        thickness: 3,
        opacity: 50,
        tool: Tool::Pen,
        fill_color: None,
    }]);
    let mut expected = border(10, 10);
    expected.extend(vec![
        DrawOp::GlobalAlpha(50),
        DrawOp::StrokeStyle(Paint::Custom("blue".to_string())),
        DrawOp::LineWidth(60),
        DrawOp::RoundCapsAndJoins,
        DrawOp::BeginPath,
        DrawOp::MoveTo(0, 0),
        DrawOp::QuadraticCurveTo(0, 0, 100, 0),
        DrawOp::QuadraticCurveTo(200, 0, 200, 100),
        DrawOp::LineTo(200, 200),
        DrawOp::Stroke,
        DrawOp::GlobalAlpha(100),
    ]);
    assert_eq!(e.render(true), expected);
}

#[test]
fn render_single_point_pen_draws_nothing() {
    let mut e = RenderEngine::new(10, 10);
    e.set_strokes(vec![Stroke {
        id: "p".to_string(),
        points: vec![pt(3, 3)],
        color: "blue".to_string(),
        thickness: 3,
        opacity: 50,
        tool: Tool::Pen,
        fill_color: None,
    }]);
    assert_eq!(e.render(true), border(10, 10));
}

#[test]
fn render_current_stroke_needs_style() {
    let mut e = RenderEngine::new(10, 10);
    e.set_current_stroke(Some(vec![pt(0, 0), pt(2, 2)]), None);
    assert_eq!(e.render(true), border(10, 10));
    e.set_current_stroke(
        None,
        Some(Some(CurrentStrokeStyle { color: "red".to_string(), thickness: 1, opacity: 100 })),
    );
    let ops = e.render(true);
    assert_eq!(ops.len(), 3 + 10);
    assert_eq!(ops[8], DrawOp::MoveTo(0, 0));
    e.set_current_stroke(None, Some(None));
    assert_eq!(e.render(true), border(10, 10));
}

#[test]
fn render_text_label() {
    let mut e = RenderEngine::new(10, 10);
    e.set_strokes(vec![Stroke {
        id: "t".to_string(),
        points: vec![pt(100, 100)],
        color: "green".to_string(),
        thickness: 5,
        opacity: 80,
        tool: Tool::Text("Hi".to_string()),
        fill_color: None,
    }]);
    e.set_selected("t");
    let mut expected = border(10, 10);
    expected.extend(vec![
        DrawOp::GlobalAlpha(80),
        DrawOp::FillStyle(Paint::Custom("green".to_string())),
        DrawOp::Font(20),
        DrawOp::FillText("Hi".to_string(), 2000, 2000),
        DrawOp::GlobalAlpha(100),
        DrawOp::TextSelection("Hi".to_string(), 2000, 2000, 20),
    ]);
    assert_eq!(e.render(true), expected);
}

#[test]
fn text_selection_box_geometry() {
    let ops = text_selection_ops(2000, 2000, 14, 336);
    assert_eq!(ops.len(), 17);
    // box from 5 left of the anchor and a font size above, grown by 5
    assert_eq!(ops[1], DrawOp::FillRect(1800, 1620, 736, 536));
}

#[test]
fn render_shape_preview_and_symbol_preview() {
    let mut e = RenderEngine::new(10, 10);
    e.set_shape_preview(Some(ShapePreview {
        shape_type: ShapeKind::Heart,
        start: pt(0, 0),
        end: pt(20, 40),
        color: "black".to_string(),
        thickness: 1,
        opacity: 100,
        fill_color: None,
    }));
    e.set_symbol_preview(Some(SymbolPreview {
        symbol: "*".to_string(),
        start: pt(100, 100),
        end: pt(130, 110),
        color: "red".to_string(),
        opacity: 60,
    }));
    let ops = e.render(true);
    let heart_start = DrawOp::MoveTo(200, 3 * 40);
    assert_eq!(ops[3 + 5], heart_start);
    assert_eq!(ops[3 + 6], DrawOp::BezierCurveTo(200, 0, 0, 0, 0, 6 * 40));
    let tail = &ops[ops.len() - 10..];
    assert_eq!(tail[2], DrawOp::Font(30));
    assert_eq!(tail[3], DrawOp::FillText("*".to_string(), 2000, 2480));
    assert_eq!(tail[7], DrawOp::DashedLine(80));
    assert_eq!(tail[8], DrawOp::StrokeRect(1920, 1920, 760, 760));
    assert_eq!(tail[9], DrawOp::SolidLine);
    e.set_shape_preview(None);
    e.set_symbol_preview(None);
    assert_eq!(e.render(true), border(10, 10));
}

#[test]
fn render_star_and_arrow() {
    let mut e = RenderEngine::new(10, 10);
    e.set_strokes(vec![
        Stroke {
            id: "s".to_string(),
            points: vec![pt(0, 0), pt(40, 20)],
            color: "k".to_string(),
            thickness: 2,
            opacity: 100,
            tool: Tool::Shape(ShapeKind::Star),
            fill_color: Some("y".to_string()),
        },
        Stroke {
            id: "a".to_string(),
            points: vec![pt(0, 0), pt(10, 0)],
            color: "k".to_string(),
            thickness: 2,
            opacity: 100,
            tool: Tool::Shape(ShapeKind::Arrow),
            fill_color: None,
        },
    ]);
    let ops = e.render(true);
    // star: outer radius half the smaller side (10), inner 0.4 of it
    assert!(ops.contains(&DrawOp::StarPath(400, 200, 200, 80)));
    assert!(ops.contains(&DrawOp::ArrowHead(0, 0, 200, 0, 280)));
}
