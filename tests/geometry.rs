use wasm_renderer::engine::RenderEngine;
use wasm_renderer::geometry::{douglas_peucker, scaled_distance, Point};

fn pt(x: i32, y: i32) -> Point {
    Point { x, y }
}

fn jog(height: i32) -> Vec<Point> {
    vec![pt(0, 0), pt(10, 0), pt(20, 0), pt(30, height), pt(40, 0), pt(50, 0), pt(60, 0)]
}

#[test]
fn simplify_short_input_unchanged() {
    let empty: Vec<Point> = Vec::new();
    assert_eq!(RenderEngine::simplify_points(&empty, 1), empty);
    let one = vec![pt(3, 4)];
    assert_eq!(RenderEngine::simplify_points(&one, 1), one);
    let two = vec![pt(3, 4), pt(5, 6)];
    assert_eq!(RenderEngine::simplify_points(&two, 100), two);
}

#[test]
fn simplify_small_jog_collapses_to_endpoints() {
    let r = RenderEngine::simplify_points(&jog(2), 6);
    assert_eq!(r, vec![pt(0, 0), pt(60, 0)]);
}

#[test]
fn simplify_large_jog_keeps_apex() {
    let r = RenderEngine::simplify_points(&jog(8), 6);
    assert_eq!(r, vec![pt(0, 0), pt(30, 8), pt(60, 0)]);
}

#[test]
fn simplify_keeps_endpoints_and_never_grows() {
    let pts = vec![pt(0, 0), pt(5, 9), pt(11, -3), pt(17, 14), pt(25, 2), pt(31, 30), pt(40, 1)];
    for tol in [0u32, 1, 3, 7, 15, 40] {
        let r = douglas_peucker(&pts, tol);
        assert_eq!(r[0], pts[0]);
        assert_eq!(r[r.len() - 1], pts[pts.len() - 1]);
        assert!(r.len() <= pts.len());
    }
}

#[test]
fn simplify_monotone_in_tolerance() {
    let pts = vec![pt(0, 0), pt(5, 9), pt(11, -3), pt(17, 14), pt(25, 2), pt(31, 30), pt(40, 1)];
    let mut prev = usize::MAX;
    for tol in [0u32, 1, 2, 4, 8, 16, 32, 64] {
        let n = douglas_peucker(&pts, tol).len();
        assert!(n <= prev);
        prev = n;
    }
    assert_eq!(douglas_peucker(&pts, 64).len(), 2);
}

#[test]
fn simplify_degenerate_chord_uses_point_distance() {
    let pts = vec![pt(0, 0), pt(3, 4), pt(0, 0)];
    assert_eq!(douglas_peucker(&pts, 4), vec![pt(0, 0), pt(3, 4), pt(0, 0)]);
    assert_eq!(douglas_peucker(&pts, 5), vec![pt(0, 0), pt(0, 0)]);
}

#[test]
fn scaled_distance_values() {
    // perpendicular: distance 3 from a chord of length 4 => 9 * 16
    assert_eq!(scaled_distance(pt(2, 3), pt(0, 0), pt(4, 0)), 144);
    // beyond the end: distance 5 to (4, 0), scaled by 16
    assert_eq!(scaled_distance(pt(7, 4), pt(0, 0), pt(4, 0)), 25 * 16);
    // before the start
    assert_eq!(scaled_distance(pt(-3, 0), pt(0, 0), pt(4, 0)), 9 * 16);
    // degenerate chord
    assert_eq!(scaled_distance(pt(3, 4), pt(0, 0), pt(0, 0)), 25);
}
