//! The per-frame render pass, as a display list.
//!
//! Rendering produces a sequence of `DrawOp`s that a drawing surface replays
//! in order. Every coordinate and length in a `DrawOp` is in twentieths of a
//! surface unit, which makes all of the engine's midpoints and fractions
//! (halves, 0.15, 0.3, 0.8, 1.2, ...) exact integers.
use vstd::prelude::*;
use crate::geometry::{Point, all_in_range};
use crate::hit::{font_size, max_of, min_of};
use crate::model::{CurrentStrokeStyle, ShapeKind, ShapePreview, Stroke, SymbolPreview, Tool};

verus! {

/// Twentieths per surface unit.
pub const SUBUNITS: i64 = 20;

/// Pitch of the background grid, in surface units.
pub const GRID_PITCH: u64 = 20;

/// A paint for strokes and fills: a caller's color, or one of the engine's
/// own.
#[derive(Clone, Debug, PartialEq, Eq)]
pub enum Paint {
    Custom(String),
    /// Flat background, white.
    Background,
    /// Thin light grid lines.
    Grid,
    /// Border around the surface.
    Border,
    /// Low-alpha accent tint filling a selection box.
    AccentTint,
    /// Solid accent.
    Accent,
    /// White fill of selection handles.
    White,
}

/// One drawing operation. Coordinates and lengths are in twentieths of a
/// surface unit; alpha is in percent; font sizes are in surface units.
#[derive(Clone, Debug, PartialEq, Eq)]
pub enum DrawOp {
    FillStyle(Paint),
    StrokeStyle(Paint),
    LineWidth(i64),
    GlobalAlpha(u32),
    RoundCapsAndJoins,
    SolidLine,
    /// Dash pattern of equal on and off lengths.
    DashedLine(i64),
    Font(u64),
    BeginPath,
    MoveTo(i64, i64),
    LineTo(i64, i64),
    QuadraticCurveTo(i64, i64, i64, i64),
    BezierCurveTo(i64, i64, i64, i64, i64, i64),
    /// Full ellipse: center and the two radii.
    Ellipse(i64, i64, i64, i64),
    ClosePath,
    Fill,
    Stroke,
    FillRect(i64, i64, i64, i64),
    StrokeRect(i64, i64, i64, i64),
    FillText(String, i64, i64),
    /// Path of a five-spike star: center, outer and inner radius; the first
    /// vertex is straight above the center and vertices alternate outer and
    /// inner every pi/5.
    StarPath(i64, i64, i64, i64),
    /// Two strokes of the given length from the tip `(x2, y2)` back along the
    /// line from `(x1, y1)`, spread by pi/7 to either side: `x1, y1, x2, y2,
    /// length`.
    ArrowHead(i64, i64, i64, i64, i64),
    /// Selection decoration of a text label: the surface measures the text's
    /// width and replays `text_selection_ops` for it. Text, anchor, font size.
    TextSelection(String, i64, i64, u64),
}

pub open spec fn tw(v: int) -> i64 {
    (SUBUNITS * v) as i64
}

/// Selection decoration around the region `(x, y, w, h)`: the region grown by
/// 5 units on every side is tinted and outlined, with four 8 by 8 handles
/// centered on its corners.
pub open spec fn selection_box_ops(x: int, y: int, w: int, h: int) -> Seq<DrawOp> {
    let bx = x - 100;
    let by = y - 100;
    let bw = w + 200;
    let bh = h + 200;
    seq![
        DrawOp::FillStyle(Paint::AccentTint),
        DrawOp::FillRect(bx as i64, by as i64, bw as i64, bh as i64),
        DrawOp::StrokeStyle(Paint::Accent),
        DrawOp::LineWidth(30),
        DrawOp::SolidLine,
        DrawOp::StrokeRect(bx as i64, by as i64, bw as i64, bh as i64),
        DrawOp::FillStyle(Paint::White),
        DrawOp::StrokeStyle(Paint::Accent),
        DrawOp::LineWidth(40),
        DrawOp::FillRect((bx - 80) as i64, (by - 80) as i64, 160, 160),
        DrawOp::StrokeRect((bx - 80) as i64, (by - 80) as i64, 160, 160),
        DrawOp::FillRect((bx + bw - 80) as i64, (by - 80) as i64, 160, 160),
        DrawOp::StrokeRect((bx + bw - 80) as i64, (by - 80) as i64, 160, 160),
        DrawOp::FillRect((bx - 80) as i64, (by + bh - 80) as i64, 160, 160),
        DrawOp::StrokeRect((bx - 80) as i64, (by + bh - 80) as i64, 160, 160),
        DrawOp::FillRect((bx + bw - 80) as i64, (by + bh - 80) as i64, 160, 160),
        DrawOp::StrokeRect((bx + bw - 80) as i64, (by + bh - 80) as i64, 160, 160),
    ]
}

/// Bound on the twentieths that callers hand to the decoration.
pub open spec fn small(v: int) -> bool {
    -0x10_0000_0000_0000 <= v <= 0x10_0000_0000_0000
}

/// Appends the selection decoration of region `(x, y, w, h)`.
pub fn push_selection_box(out: &mut Vec<DrawOp>, x: i64, y: i64, w: i64, h: i64)
    requires
        -0x100_0000_0000_0000 <= x <= 0x100_0000_0000_0000,
        -0x100_0000_0000_0000 <= y <= 0x100_0000_0000_0000,
        -0x100_0000_0000_0000 <= w <= 0x100_0000_0000_0000,
        -0x100_0000_0000_0000 <= h <= 0x100_0000_0000_0000,
    ensures
        final(out)@ == old(out)@ + selection_box_ops(x as int, y as int, w as int, h as int),
{
    let bx = x - 100;
    let by = y - 100;
    let bw = w + 200;
    let bh = h + 200;
    out.push(DrawOp::FillStyle(Paint::AccentTint));
    out.push(DrawOp::FillRect(bx, by, bw, bh));
    out.push(DrawOp::StrokeStyle(Paint::Accent));
    out.push(DrawOp::LineWidth(30));
    out.push(DrawOp::SolidLine);
    out.push(DrawOp::StrokeRect(bx, by, bw, bh));
    out.push(DrawOp::FillStyle(Paint::White));
    out.push(DrawOp::StrokeStyle(Paint::Accent));
    out.push(DrawOp::LineWidth(40));
    out.push(DrawOp::FillRect(bx - 80, by - 80, 160, 160));
    out.push(DrawOp::StrokeRect(bx - 80, by - 80, 160, 160));
    out.push(DrawOp::FillRect(bx + bw - 80, by - 80, 160, 160));
    out.push(DrawOp::StrokeRect(bx + bw - 80, by - 80, 160, 160));
    out.push(DrawOp::FillRect(bx - 80, by + bh - 80, 160, 160));
    out.push(DrawOp::StrokeRect(bx - 80, by + bh - 80, 160, 160));
    out.push(DrawOp::FillRect(bx + bw - 80, by + bh - 80, 160, 160));
    out.push(DrawOp::StrokeRect(bx + bw - 80, by + bh - 80, 160, 160));
    assert(final(out)@ =~= old(out)@ + selection_box_ops(x as int, y as int, w as int, h as int));
}

/// Selection decoration of a text label anchored at `(x, y)` (twentieths),
/// drawn at `font` units, whose rendered width is `width` twentieths: the box
/// starts 5 units left of the anchor and one font size above it, is
/// `width + 10` units wide and `1.2 * font` tall.
pub fn text_selection_ops(x: i64, y: i64, font: u64, width: i64) -> (r: Vec<DrawOp>)
    requires
        small(x as int),
        small(y as int),
        font <= 0x10_0000_0000,
        small(width as int),
    ensures
        r@ == selection_box_ops(x - 100, y - 20 * font, width + 200, 24 * font),
{
    let mut r: Vec<DrawOp> = Vec::new();
    let f = font as i64;
    push_selection_box(&mut r, x - 100, y - 20 * f, width + 200, 24 * f);
    assert(r@ =~= selection_box_ops(x - 100, y - 20 * font, width + 200, 24 * font));
    r
}

/// The quadratic segment of a freehand path that ends at the midpoint of
/// samples `i - 1` and `i`, with sample `i - 1` as control point.
pub open spec fn curve_op(pts: Seq<Point>, i: int) -> DrawOp {
    DrawOp::QuadraticCurveTo(
        tw(pts[i - 1].x as int),
        tw(pts[i - 1].y as int),
        (10 * (pts[i - 1].x + pts[i].x)) as i64,
        (10 * (pts[i - 1].y + pts[i].y)) as i64,
    )
}

/// A smoothed freehand path: nothing below two samples; otherwise the path
/// starts at the first sample, runs through the midpoints of consecutive
/// samples with each first sample of a pair as control point, and ends with a
/// straight line to the last sample.
pub open spec fn pen_ops(pts: Seq<Point>, color: String, thickness: u32, opacity: u32) -> Seq<
    DrawOp,
> {
    if pts.len() < 2 {
        seq![]
    } else {
        seq![
            DrawOp::GlobalAlpha(opacity),
            DrawOp::StrokeStyle(Paint::Custom(color)),
            DrawOp::LineWidth(tw(thickness as int)),
            DrawOp::RoundCapsAndJoins,
            DrawOp::BeginPath,
            DrawOp::MoveTo(tw(pts[0].x as int), tw(pts[0].y as int)),
        ] + Seq::new((pts.len() - 1) as nat, |i: int| curve_op(pts, i + 1)) + seq![
            DrawOp::LineTo(tw(pts.last().x as int), tw(pts.last().y as int)),
            DrawOp::Stroke,
            DrawOp::GlobalAlpha(100),
        ]
    }
}

/// Appends `pen_ops` of a freehand path.
pub fn push_pen_stroke(
    out: &mut Vec<DrawOp>,
    pts: &Vec<Point>,
    color: &String,
    thickness: u32,
    opacity: u32,
)
    requires
        all_in_range(pts@),
    ensures
        final(out)@ == old(out)@ + pen_ops(pts@, *color, thickness, opacity),
{
    let n = pts.len();
    if n < 2 {
        assert(final(out)@ =~= old(out)@ + pen_ops(pts@, *color, thickness, opacity));
        return;
    }
    let ghost start = out@;
    let p0 = pts[0];
    assert(p0.in_range());
    out.push(DrawOp::GlobalAlpha(opacity));
    out.push(DrawOp::StrokeStyle(Paint::Custom(color.clone())));
    out.push(DrawOp::LineWidth(20 * thickness as i64));
    out.push(DrawOp::RoundCapsAndJoins);
    out.push(DrawOp::BeginPath);
    out.push(DrawOp::MoveTo(20 * p0.x as i64, 20 * p0.y as i64));
    let ghost head = seq![
        DrawOp::GlobalAlpha(opacity),
        DrawOp::StrokeStyle(Paint::Custom(*color)),
        DrawOp::LineWidth(tw(thickness as int)),
        DrawOp::RoundCapsAndJoins,
        DrawOp::BeginPath,
        DrawOp::MoveTo(tw(p0.x as int), tw(p0.y as int)),
    ];
    assert(out@ =~= start + head + Seq::new(0, |i: int| curve_op(pts@, i + 1)));
    let mut i: usize = 1;
    while i < n
        invariant
            1 <= i <= n,
            n == pts@.len(),
            all_in_range(pts@),
            out@ == start + head + Seq::new((i - 1) as nat, |j: int| curve_op(pts@, j + 1)),
        decreases n - i,
    {
        let a = pts[i - 1];
        let b = pts[i];
        assert(a.in_range() && b.in_range());
        out.push(
            DrawOp::QuadraticCurveTo(
                20 * a.x as i64,
                20 * a.y as i64,
                10 * (a.x as i64 + b.x as i64),
                10 * (a.y as i64 + b.y as i64),
            ),
        );
        i = i + 1;
        assert(out@ =~= start + head + Seq::new((i - 1) as nat, |j: int| curve_op(pts@, j + 1)));
    }
    let last = pts[n - 1];
    assert(last.in_range());
    out.push(DrawOp::LineTo(20 * last.x as i64, 20 * last.y as i64));
    out.push(DrawOp::Stroke);
    out.push(DrawOp::GlobalAlpha(100));
    assert(final(out)@ =~= old(out)@ + pen_ops(pts@, *color, thickness, opacity));
}

/// Fill (when filled) then stroke of the current path.
pub open spec fn paint_ops(filled: bool) -> Seq<DrawOp> {
    if filled {
        seq![DrawOp::Fill, DrawOp::Stroke]
    } else {
        seq![DrawOp::Stroke]
    }
}

/// The figure of a shape of kind `k` dragged from `a` to `b`, drawn on its
/// bounding box.
pub open spec fn kind_ops(k: ShapeKind, a: Point, b: Point, thickness: u32, filled: bool) -> Seq<
    DrawOp,
> {
    let xu = min_of(a.x as int, b.x as int);
    let yu = min_of(a.y as int, b.y as int);
    let wu = max_of(a.x as int, b.x as int) - xu;
    let hu = max_of(a.y as int, b.y as int) - yu;
    let x = 20 * xu;
    let y = 20 * yu;
    let w = 20 * wu;
    let h = 20 * hu;
    let cx = 10 * (a.x + b.x);
    let cy = 10 * (a.y + b.y);
    match k {
        ShapeKind::Rectangle => (if filled {
            seq![DrawOp::FillRect(x as i64, y as i64, w as i64, h as i64)]
        } else {
            seq![]
        }) + seq![DrawOp::StrokeRect(x as i64, y as i64, w as i64, h as i64)],
        ShapeKind::Circle => seq![
            DrawOp::Ellipse(cx as i64, cy as i64, (10 * wu) as i64, (10 * hu) as i64),
        ] + paint_ops(filled),
        ShapeKind::Line => seq![
            DrawOp::MoveTo(tw(a.x as int), tw(a.y as int)),
            DrawOp::LineTo(tw(b.x as int), tw(b.y as int)),
            DrawOp::Stroke,
        ],
        ShapeKind::Arrow => seq![
            DrawOp::MoveTo(tw(a.x as int), tw(a.y as int)),
            DrawOp::LineTo(tw(b.x as int), tw(b.y as int)),
            DrawOp::Stroke,
            DrawOp::BeginPath,
            DrawOp::ArrowHead(
                tw(a.x as int),
                tw(a.y as int),
                tw(b.x as int),
                tw(b.y as int),
                tw(12 + thickness),
            ),
            DrawOp::Stroke,
        ],
        ShapeKind::Triangle => seq![
            DrawOp::MoveTo(cx as i64, y as i64),
            DrawOp::LineTo((x + w) as i64, (y + h) as i64),
            DrawOp::LineTo(x as i64, (y + h) as i64),
            DrawOp::ClosePath,
        ] + paint_ops(filled),
        ShapeKind::Diamond => seq![
            DrawOp::MoveTo(cx as i64, y as i64),
            DrawOp::LineTo((x + w) as i64, cy as i64),
            DrawOp::LineTo(cx as i64, (y + h) as i64),
            DrawOp::LineTo(x as i64, cy as i64),
            DrawOp::ClosePath,
        ] + paint_ops(filled),
        ShapeKind::Star => seq![
            DrawOp::StarPath(
                cx as i64,
                cy as i64,
                (10 * min_of(wu, hu)) as i64,
                (4 * min_of(wu, hu)) as i64,
            ),
            DrawOp::ClosePath,
        ] + paint_ops(filled),
        ShapeKind::Heart => seq![
            DrawOp::MoveTo(cx as i64, (y + 3 * hu) as i64),
            DrawOp::BezierCurveTo(
                cx as i64,
                y as i64,
                x as i64,
                y as i64,
                x as i64,
                (y + 6 * hu) as i64,
            ),
            DrawOp::BezierCurveTo(
                x as i64,
                (y + 16 * hu) as i64,
                cx as i64,
                (y + h) as i64,
                cx as i64,
                (y + h) as i64,
            ),
            DrawOp::BezierCurveTo(
                cx as i64,
                (y + h) as i64,
                (x + w) as i64,
                (y + 16 * hu) as i64,
                (x + w) as i64,
                (y + 6 * hu) as i64,
            ),
            DrawOp::BezierCurveTo(
                (x + w) as i64,
                y as i64,
                cx as i64,
                y as i64,
                cx as i64,
                (y + 3 * hu) as i64,
            ),
        ] + paint_ops(filled),
    }
}

pub open spec fn fill_style_ops(fill: Option<String>) -> Seq<DrawOp> {
    match fill {
        Some(f) => seq![DrawOp::FillStyle(Paint::Custom(f))],
        None => seq![],
    }
}

/// A shape dragged from `a` to `b`: style, the figure, restored alpha, and
/// the selection decoration around the bounding box when selected.
pub open spec fn shape_ops(
    k: ShapeKind,
    a: Point,
    b: Point,
    color: String,
    thickness: u32,
    opacity: u32,
    fill: Option<String>,
    selected: bool,
) -> Seq<DrawOp> {
    let x = 20 * min_of(a.x as int, b.x as int);
    let y = 20 * min_of(a.y as int, b.y as int);
    let w = 20 * (max_of(a.x as int, b.x as int) - min_of(a.x as int, b.x as int));
    let h = 20 * (max_of(a.y as int, b.y as int) - min_of(a.y as int, b.y as int));
    seq![
        DrawOp::GlobalAlpha(opacity),
        DrawOp::StrokeStyle(Paint::Custom(color)),
        DrawOp::LineWidth(tw(thickness as int)),
        DrawOp::RoundCapsAndJoins,
    ] + fill_style_ops(fill) + seq![DrawOp::BeginPath] + kind_ops(k, a, b, thickness, fill is Some)
        + seq![DrawOp::GlobalAlpha(100)] + if selected {
        selection_box_ops(x, y, w, h)
    } else {
        seq![]
    }
}


fn push_paint(out: &mut Vec<DrawOp>, filled: bool)
    ensures
        final(out)@ == old(out)@ + paint_ops(filled),
{
    if filled {
        out.push(DrawOp::Fill);
    }
    out.push(DrawOp::Stroke);
    assert(final(out)@ =~= old(out)@ + paint_ops(filled));
}

/// Appends `kind_ops`.
fn push_kind(out: &mut Vec<DrawOp>, k: ShapeKind, a: Point, b: Point, thickness: u32, filled: bool)
    requires
        a.in_range(),
        b.in_range(),
    ensures
        final(out)@ == old(out)@ + kind_ops(k, a, b, thickness, filled),
{
    let xu: i64 = if a.x <= b.x { a.x as i64 } else { b.x as i64 };
    let yu: i64 = if a.y <= b.y { a.y as i64 } else { b.y as i64 };
    let wu: i64 = (if a.x >= b.x { a.x as i64 } else { b.x as i64 }) - xu;
    let hu: i64 = (if a.y >= b.y { a.y as i64 } else { b.y as i64 }) - yu;
    let x = 20 * xu;
    let y = 20 * yu;
    let w = 20 * wu;
    let h = 20 * hu;
    let cx = 10 * (a.x as i64 + b.x as i64);
    let cy = 10 * (a.y as i64 + b.y as i64);
    let ax = 20 * a.x as i64;
    let ay = 20 * a.y as i64;
    let bx = 20 * b.x as i64;
    let by = 20 * b.y as i64;
    match k {
        ShapeKind::Rectangle => {
            if filled {
                out.push(DrawOp::FillRect(x, y, w, h));
            }
            out.push(DrawOp::StrokeRect(x, y, w, h));
        },
        ShapeKind::Circle => {
            out.push(DrawOp::Ellipse(cx, cy, 10 * wu, 10 * hu));
            push_paint(out, filled);
        },
        ShapeKind::Line => {
            out.push(DrawOp::MoveTo(ax, ay));
            out.push(DrawOp::LineTo(bx, by));
            out.push(DrawOp::Stroke);
        },
        ShapeKind::Arrow => {
            out.push(DrawOp::MoveTo(ax, ay));
            out.push(DrawOp::LineTo(bx, by));
            out.push(DrawOp::Stroke);
            out.push(DrawOp::BeginPath);
            out.push(DrawOp::ArrowHead(ax, ay, bx, by, 20 * (12 + thickness as i64)));
            out.push(DrawOp::Stroke);
        },
        ShapeKind::Triangle => {
            out.push(DrawOp::MoveTo(cx, y));
            out.push(DrawOp::LineTo(x + w, y + h));
            out.push(DrawOp::LineTo(x, y + h));
            out.push(DrawOp::ClosePath);
            push_paint(out, filled);
        },
        ShapeKind::Diamond => {
            out.push(DrawOp::MoveTo(cx, y));
            out.push(DrawOp::LineTo(x + w, cy));
            out.push(DrawOp::LineTo(cx, y + h));
            out.push(DrawOp::LineTo(x, cy));
            out.push(DrawOp::ClosePath);
            push_paint(out, filled);
        },
        ShapeKind::Star => {
            let m = if wu <= hu { wu } else { hu };
            out.push(DrawOp::StarPath(cx, cy, 10 * m, 4 * m));
            out.push(DrawOp::ClosePath);
            push_paint(out, filled);
        },
        ShapeKind::Heart => {
            out.push(DrawOp::MoveTo(cx, y + 3 * hu));
            out.push(DrawOp::BezierCurveTo(cx, y, x, y, x, y + 6 * hu));
            out.push(DrawOp::BezierCurveTo(x, y + 16 * hu, cx, y + h, cx, y + h));
            out.push(DrawOp::BezierCurveTo(cx, y + h, x + w, y + 16 * hu, x + w, y + 6 * hu));
            out.push(DrawOp::BezierCurveTo(x + w, y, cx, y, cx, y + 3 * hu));
            push_paint(out, filled);
        },
    }
    assert(final(out)@ =~= old(out)@ + kind_ops(k, a, b, thickness, filled));
}

/// Appends `shape_ops`.
pub fn push_shape(
    out: &mut Vec<DrawOp>,
    k: ShapeKind,
    a: Point,
    b: Point,
    color: &String,
    thickness: u32,
    opacity: u32,
    fill: &Option<String>,
    selected: bool,
)
    requires
        a.in_range(),
        b.in_range(),
    ensures
        final(out)@ == old(out)@ + shape_ops(k, a, b, *color, thickness, opacity, *fill, selected),
{
    let ghost start = out@;
    out.push(DrawOp::GlobalAlpha(opacity));
    out.push(DrawOp::StrokeStyle(Paint::Custom(color.clone())));
    out.push(DrawOp::LineWidth(20 * thickness as i64));
    out.push(DrawOp::RoundCapsAndJoins);
    match fill {
        Some(f) => out.push(DrawOp::FillStyle(Paint::Custom(f.clone()))),
        None => {},
    }
    out.push(DrawOp::BeginPath);
    let ghost mid = out@;
    assert(mid =~= start + seq![
        DrawOp::GlobalAlpha(opacity),
        DrawOp::StrokeStyle(Paint::Custom(*color)),
        DrawOp::LineWidth(tw(thickness as int)),
        DrawOp::RoundCapsAndJoins,
    ] + fill_style_ops(*fill) + seq![DrawOp::BeginPath]);
    push_kind(out, k, a, b, thickness, fill.is_some());
    out.push(DrawOp::GlobalAlpha(100));
    if selected {
        let xu: i64 = if a.x <= b.x { a.x as i64 } else { b.x as i64 };
        let yu: i64 = if a.y <= b.y { a.y as i64 } else { b.y as i64 };
        let wu: i64 = (if a.x >= b.x { a.x as i64 } else { b.x as i64 }) - xu;
        let hu: i64 = (if a.y >= b.y { a.y as i64 } else { b.y as i64 }) - yu;
        push_selection_box(out, 20 * xu, 20 * yu, 20 * wu, 20 * hu);
    }
    assert(final(out)@ =~= old(out)@ + shape_ops(k, a, b, *color, thickness, opacity, *fill, selected));
}

/// A text label anchored (baseline) at `p`, with its selection decoration
/// when selected.
pub open spec fn text_ops(
    text: String,
    p: Point,
    color: String,
    thickness: u32,
    opacity: u32,
    selected: bool,
) -> Seq<DrawOp> {
    seq![
        DrawOp::GlobalAlpha(opacity),
        DrawOp::FillStyle(Paint::Custom(color)),
        DrawOp::Font(font_size(thickness) as u64),
        DrawOp::FillText(text, tw(p.x as int), tw(p.y as int)),
        DrawOp::GlobalAlpha(100),
    ] + if selected {
        seq![
            DrawOp::TextSelection(text, tw(p.x as int), tw(p.y as int), font_size(thickness) as u64),
        ]
    } else {
        seq![]
    }
}

/// Appends `text_ops`.
pub fn push_text(
    out: &mut Vec<DrawOp>,
    text: &String,
    p: Point,
    color: &String,
    thickness: u32,
    opacity: u32,
    selected: bool,
)
    requires
        p.in_range(),
    ensures
        final(out)@ == old(out)@ + text_ops(*text, p, *color, thickness, opacity, selected),
{
    let fs: u64 = if 4 * (thickness as u64) > 14 {
        4 * (thickness as u64)
    } else {
        14
    };
    out.push(DrawOp::GlobalAlpha(opacity));
    out.push(DrawOp::FillStyle(Paint::Custom(color.clone())));
    out.push(DrawOp::Font(fs));
    out.push(DrawOp::FillText(text.clone(), 20 * p.x as i64, 20 * p.y as i64));
    out.push(DrawOp::GlobalAlpha(100));
    if selected {
        out.push(DrawOp::TextSelection(text.clone(), 20 * p.x as i64, 20 * p.y as i64, fs));
    }
    assert(final(out)@ =~= old(out)@ + text_ops(*text, p, *color, thickness, opacity, selected));
}

/// Side, in units, of the box a symbol preview occupies: the larger offset
/// of its end from its start, and at least 20.
pub open spec fn symbol_size(p: SymbolPreview) -> int {
    max_of(
        max_of(20, max_of(p.end.x - p.start.x, p.start.x - p.end.x)),
        max_of(p.end.y - p.start.y, p.start.y - p.end.y),
    )
}

/// A symbol preview: the symbol drawn at its start point, lowered by 0.8 of
/// its size, and a dashed square of side `size + 8` around it.
pub open spec fn symbol_ops(p: SymbolPreview) -> Seq<DrawOp> {
    let size = symbol_size(p);
    seq![
        DrawOp::GlobalAlpha(p.opacity),
        DrawOp::FillStyle(Paint::Custom(p.color)),
        DrawOp::Font(size as u64),
        DrawOp::FillText(p.symbol, tw(p.start.x as int), (20 * p.start.y + 16 * size) as i64),
        DrawOp::GlobalAlpha(100),
        DrawOp::StrokeStyle(Paint::Accent),
        DrawOp::LineWidth(20),
        DrawOp::DashedLine(80),
        DrawOp::StrokeRect(
            (20 * p.start.x - 80) as i64,
            (20 * p.start.y - 80) as i64,
            (20 * size + 160) as i64,
            (20 * size + 160) as i64,
        ),
        DrawOp::SolidLine,
    ]
}

/// Appends `symbol_ops`.
pub fn push_symbol(out: &mut Vec<DrawOp>, p: &SymbolPreview)
    requires
        p.in_range(),
    ensures
        final(out)@ == old(out)@ + symbol_ops(*p),
{
    let dx = p.end.x as i64 - p.start.x as i64;
    let dy = p.end.y as i64 - p.start.y as i64;
    let adx = if dx >= 0 { dx } else { -dx };
    let ady = if dy >= 0 { dy } else { -dy };
    let s1 = if adx > 20 { adx } else { 20 };
    let size = if ady > s1 { ady } else { s1 };
    let sx = 20 * p.start.x as i64;
    let sy = 20 * p.start.y as i64;
    out.push(DrawOp::GlobalAlpha(p.opacity));
    out.push(DrawOp::FillStyle(Paint::Custom(p.color.clone())));
    out.push(DrawOp::Font(size as u64));
    out.push(DrawOp::FillText(p.symbol.clone(), sx, sy + 16 * size));
    out.push(DrawOp::GlobalAlpha(100));
    out.push(DrawOp::StrokeStyle(Paint::Accent));
    out.push(DrawOp::LineWidth(20));
    out.push(DrawOp::DashedLine(80));
    out.push(DrawOp::StrokeRect(sx - 80, sy - 80, 20 * size + 160, 20 * size + 160));
    out.push(DrawOp::SolidLine);
    assert(final(out)@ =~= old(out)@ + symbol_ops(*p));
}

/// Op `i` of the vertical grid lines: even ops move to the top of line
/// `i / 2`, odd ones draw it down to height `h`.
pub open spec fn vline_op(i: int, h: u32) -> DrawOp {
    if i % 2 == 0 {
        DrawOp::MoveTo(tw(20 * (i / 2)), 0)
    } else {
        DrawOp::LineTo(tw(20 * (i / 2)), tw(h as int))
    }
}

/// Op `i` of the horizontal grid lines, across width `w`.
pub open spec fn hline_op(i: int, w: u32) -> DrawOp {
    if i % 2 == 0 {
        DrawOp::MoveTo(0, tw(20 * (i / 2)))
    } else {
        DrawOp::LineTo(tw(w as int), tw(20 * (i / 2)))
    }
}

/// The background grid of a `w` by `h` surface: vertical lines at every
/// `GRID_PITCH` units from 0 to `w`, then horizontal ones from 0 to `h`.
pub open spec fn grid_ops(w: u32, h: u32) -> Seq<DrawOp> {
    seq![DrawOp::StrokeStyle(Paint::Grid), DrawOp::LineWidth(10), DrawOp::BeginPath]
        + Seq::new((2 * (w / 20 + 1)) as nat, |i: int| vline_op(i, h))
        + Seq::new((2 * (h / 20 + 1)) as nat, |i: int| hline_op(i, w)) + seq![DrawOp::Stroke]
}

/// Appends `grid_ops`.
pub fn push_grid(out: &mut Vec<DrawOp>, w: u32, h: u32)
    ensures
        final(out)@ == old(out)@ + grid_ops(w, h),
{
    let ghost start = out@;
    out.push(DrawOp::StrokeStyle(Paint::Grid));
    out.push(DrawOp::LineWidth(10));
    out.push(DrawOp::BeginPath);
    let ghost head = out@;
    let mut k: u64 = 0;
    assert(out@ =~= head + Seq::new(0, |i: int| vline_op(i, h)));
    while k * GRID_PITCH <= w as u64
        invariant
            k <= w / 20 + 1,
            out@ == head + Seq::new((2 * k) as nat, |i: int| vline_op(i, h)),
        decreases w / 20 + 1 - k,
    {
        out.push(DrawOp::MoveTo(400 * k as i64, 0));
        out.push(DrawOp::LineTo(400 * k as i64, 20 * h as i64));
        k = k + 1;
        assert(out@ =~= head + Seq::new((2 * k) as nat, |i: int| vline_op(i, h)));
    }
    assert(k == w / 20 + 1);
    let ghost vdone = out@;
    let mut k: u64 = 0;
    assert(out@ =~= vdone + Seq::new(0, |i: int| hline_op(i, w)));
    while k * GRID_PITCH <= h as u64
        invariant
            k <= h / 20 + 1,
            out@ == vdone + Seq::new((2 * k) as nat, |i: int| hline_op(i, w)),
        decreases h / 20 + 1 - k,
    {
        out.push(DrawOp::MoveTo(0, 400 * k as i64));
        out.push(DrawOp::LineTo(20 * w as i64, 400 * k as i64));
        k = k + 1;
        assert(out@ =~= vdone + Seq::new((2 * k) as nat, |i: int| hline_op(i, w)));
    }
    assert(k == h / 20 + 1);
    out.push(DrawOp::Stroke);
    assert(final(out)@ =~= old(out)@ + grid_ops(w, h));
}

/// A persisted stroke, by its tool: shapes need two points and text one;
/// freehand paths are drawn by `pen_ops`.
pub open spec fn stroke_ops(s: Stroke, selected: bool) -> Seq<DrawOp> {
    match s.tool {
        Tool::Shape(k) => if s.points@.len() >= 2 {
            shape_ops(
                k,
                s.points@[0],
                s.points@[1],
                s.color,
                s.thickness,
                s.opacity,
                s.fill_color,
                selected,
            )
        } else {
            seq![]
        },
        Tool::Text(t) => if s.points@.len() >= 1 {
            text_ops(t, s.points@[0], s.color, s.thickness, s.opacity, selected)
        } else {
            seq![]
        },
        Tool::Pen | Tool::Highlighter => pen_ops(s.points@, s.color, s.thickness, s.opacity),
    }
}

/// Appends `stroke_ops`.
pub fn push_stroke(out: &mut Vec<DrawOp>, s: &Stroke, selected: bool)
    requires
        s.in_range(),
    ensures
        final(out)@ == old(out)@ + stroke_ops(*s, selected),
{
    match &s.tool {
        Tool::Shape(k) => {
            if s.points.len() >= 2 {
                assert(s.points@[0].in_range() && s.points@[1].in_range());
                push_shape(
                    out,
                    *k,
                    s.points[0],
                    s.points[1],
                    &s.color,
                    s.thickness,
                    s.opacity,
                    &s.fill_color,
                    selected,
                );
            } else {
                assert(final(out)@ =~= old(out)@ + stroke_ops(*s, selected));
            }
        },
        Tool::Text(t) => {
            if s.points.len() >= 1 {
                assert(s.points@[0].in_range());
                push_text(out, t, s.points[0], &s.color, s.thickness, s.opacity, selected);
            } else {
                assert(final(out)@ =~= old(out)@ + stroke_ops(*s, selected));
            }
        },
        Tool::Pen | Tool::Highlighter => {
            push_pen_stroke(out, &s.points, &s.color, s.thickness, s.opacity);
        },
    }
}

/// Whether `id` is among the selected ids `sel`.
pub open spec fn is_selected(sel: Seq<Seq<char>>, id: Seq<char>) -> bool {
    sel.contains(id)
}

/// Every stroke in order, oldest first, each decorated when selected.
pub open spec fn strokes_ops(strokes: Seq<Stroke>, sel: Seq<Seq<char>>) -> Seq<DrawOp>
    decreases strokes.len(),
{
    if strokes.len() == 0 {
        seq![]
    } else {
        strokes_ops(strokes.drop_last(), sel) + stroke_ops(
            strokes.last(),
            is_selected(sel, strokes.last().id@),
        )
    }
}

/// The ops of one frame of a `w` by `h` surface. Without a background
/// underneath, the surface is first filled and gridded; then come the border,
/// every persisted stroke (selected ones decorated), the in-progress path
/// when it has points and a style, the shape preview (never decorated) and
/// the symbol preview.
pub open spec fn frame_ops(
    w: u32,
    h: u32,
    has_background: bool,
    strokes: Seq<Stroke>,
    sel: Seq<Seq<char>>,
    current: Seq<Point>,
    style: Option<CurrentStrokeStyle>,
    shape: Option<ShapePreview>,
    symbol: Option<SymbolPreview>,
) -> Seq<DrawOp> {
    (if has_background {
        seq![]
    } else {
        seq![
            DrawOp::FillStyle(Paint::Background),
            DrawOp::FillRect(0, 0, tw(w as int), tw(h as int)),
        ] + grid_ops(w, h)
    }) + seq![
        DrawOp::StrokeStyle(Paint::Border),
        DrawOp::LineWidth(20),
        DrawOp::StrokeRect(0, 0, tw(w as int), tw(h as int)),
    ] + strokes_ops(strokes, sel) + (match style {
        Some(st) => if current.len() > 0 {
            pen_ops(current, st.color, st.thickness, st.opacity)
        } else {
            seq![]
        },
        None => seq![],
    }) + (match shape {
        Some(p) => shape_ops(
            p.shape_type,
            p.start,
            p.end,
            p.color,
            p.thickness,
            p.opacity,
            p.fill_color,
            false,
        ),
        None => seq![],
    }) + (match symbol {
        Some(p) => symbol_ops(p),
        None => seq![],
    })
}

} // verus!
