//! The document's data: strokes, their tool tags, previews and styles.
//!
//! Thickness is in surface units and opacity in percent (0 to 100).
use vstd::prelude::*;
use crate::geometry::{Point, all_in_range};

verus! {

/// The geometric figure of a shape stroke.
#[derive(Clone, Copy, Debug, PartialEq, Eq, Structural)]
pub enum ShapeKind {
    Rectangle,
    Circle,
    Line,
    Arrow,
    Triangle,
    Diamond,
    Star,
    Heart,
}

/// What a stroke is: a freehand path, a shape dragged out between two
/// points, or a text label anchored at its first point.
#[derive(Clone, Debug)]
pub enum Tool {
    Pen,
    Highlighter,
    Shape(ShapeKind),
    Text(String),
}

/// A persisted entity of the document.
#[derive(Clone, Debug)]
pub struct Stroke {
    pub id: String,
    pub points: Vec<Point>,
    pub color: String,
    pub thickness: u32,
    pub opacity: u32,
    pub tool: Tool,
    pub fill_color: Option<String>,
}

/// A shape being dragged out, not yet committed.
#[derive(Clone, Debug)]
pub struct ShapePreview {
    pub shape_type: ShapeKind,
    pub start: Point,
    pub end: Point,
    pub color: String,
    pub thickness: u32,
    pub opacity: u32,
    pub fill_color: Option<String>,
}

/// A symbol being stamped, not yet committed.
#[derive(Clone, Debug)]
pub struct SymbolPreview {
    pub symbol: String,
    pub start: Point,
    pub end: Point,
    pub color: String,
    pub opacity: u32,
}

/// Style of the freehand stroke currently being drawn.
#[derive(Clone, Debug)]
pub struct CurrentStrokeStyle {
    pub color: String,
    pub thickness: u32,
    pub opacity: u32,
}

impl Stroke {
    pub open spec fn in_range(self) -> bool {
        all_in_range(self.points@)
    }
}

impl ShapePreview {
    pub open spec fn in_range(self) -> bool {
        self.start.in_range() && self.end.in_range()
    }
}

impl SymbolPreview {
    pub open spec fn in_range(self) -> bool {
        self.start.in_range() && self.end.in_range()
    }
}

pub open spec fn kind_name(k: ShapeKind) -> Seq<char> {
    match k {
        ShapeKind::Rectangle => "rectangle"@,
        ShapeKind::Circle => "circle"@,
        ShapeKind::Line => "line"@,
        ShapeKind::Arrow => "arrow"@,
        ShapeKind::Triangle => "triangle"@,
        ShapeKind::Diamond => "diamond"@,
        ShapeKind::Star => "star"@,
        ShapeKind::Heart => "heart"@,
    }
}

/// The tag under which a tool is written in serialized strokes.
pub open spec fn tool_name(t: Tool) -> Seq<char> {
    match t {
        Tool::Pen => "pen"@,
        Tool::Highlighter => "highlighter"@,
        Tool::Shape(k) => "shape-"@ + kind_name(k),
        Tool::Text(s) => "text:"@ + s@,
    }
}

pub open spec fn is_prefix(p: Seq<char>, s: Seq<char>) -> bool {
    p.len() <= s.len() && s.subrange(0, p.len() as int) == p
}

/// Whether `p` is a prefix of `s`.
pub(crate) fn starts_with(s: &str, p: &str) -> (r: bool)
    ensures
        r == is_prefix(p@, s@),
{
    let n = s.unicode_len();
    let m = p.unicode_len();
    if m > n {
        return false;
    }
    let mut i: usize = 0;
    while i < m
        invariant
            m <= n,
            n == s@.len(),
            m == p@.len(),
            i <= m,
            s@.subrange(0, i as int) == p@.subrange(0, i as int),
        decreases m - i,
    {
        if s.get_char(i) != p.get_char(i) {
            assert(s@.subrange(0, m as int)[i as int] != p@[i as int]);
            return false;
        }
        i = i + 1;
        assert(s@.subrange(0, i as int) =~= p@.subrange(0, i as int));
    }
    assert(p@.subrange(0, m as int) =~= p@);
    true
}

/// Whether `s` and `p` hold the same characters.
fn same_text(s: &str, p: &str) -> (r: bool)
    ensures
        r == (s@ == p@),
{
    proof {
        assert(s@ =~= s@.subrange(0, s@.len() as int));
    }
    let eq = starts_with(s, p) && s.unicode_len() == p.unicode_len();
    eq
}

/// Reads a shape kind from its name (`"rectangle"`, `"circle"`, ...).
pub fn parse_shape_kind(s: &str) -> (r: Option<ShapeKind>)
    ensures
        r matches Some(k) ==> kind_name(k) == s@,
        r is None ==> forall|k: ShapeKind| kind_name(k) != s@,
{
    if same_text(s, "rectangle") {
        Some(ShapeKind::Rectangle)
    } else if same_text(s, "circle") {
        Some(ShapeKind::Circle)
    } else if same_text(s, "line") {
        Some(ShapeKind::Line)
    } else if same_text(s, "arrow") {
        Some(ShapeKind::Arrow)
    } else if same_text(s, "triangle") {
        Some(ShapeKind::Triangle)
    } else if same_text(s, "diamond") {
        Some(ShapeKind::Diamond)
    } else if same_text(s, "star") {
        Some(ShapeKind::Star)
    } else if same_text(s, "heart") {
        Some(ShapeKind::Heart)
    } else {
        None
    }
}

/// Reads a tool tag: `"pen"`, `"highlighter"`, `"shape-<kind>"` or
/// `"text:<literal text>"`. Any other tag is refused.
pub fn parse_tool(s: &str) -> (r: Option<Tool>)
    ensures
        r matches Some(t) ==> tool_name(t) == s@,
        r is None ==> forall|t: Tool| tool_name(t) != s@,
{
    let n = s.unicode_len();
    if same_text(s, "pen") {
        Some(Tool::Pen)
    } else if same_text(s, "highlighter") {
        Some(Tool::Highlighter)
    } else if starts_with(s, "shape-") {
        proof {
            reveal_strlit("shape-");
            reveal_strlit("text:");
        }
        let rest = s.substring_char(6, n);
        let k = parse_shape_kind(rest);
        proof {
            assert(s@ =~= "shape-"@ + rest@);
        }
        match k {
            Some(k) => Some(Tool::Shape(k)),
            None => {
                proof {
                    assert forall|t: Tool| tool_name(t) != s@ by {
                        match t {
                            Tool::Shape(k2) => {
                                if tool_name(t) == s@ {
                                    assert(rest@ =~= s@.subrange(6, s@.len() as int));
                                    assert(kind_name(k2) =~= (
                                    "shape-"@ + kind_name(k2)).subrange(6, s@.len() as int));
                                }
                            },
                            Tool::Text(x) => {
                                if tool_name(t) == s@ {
                                    assert(s@[0] == ("text:"@ + x@)[0]);
                                }
                            },
                            _ => {},
                        }
                    }
                }
                None
            },
        }
    } else if starts_with(s, "text:") {
        proof {
            reveal_strlit("text:");
        }
        let rest = s.substring_char(5, n);
        let text = rest.to_owned();
        proof {
            assert(s@ =~= "text:"@ + text@);
        }
        Some(Tool::Text(text))
    } else {
        proof {
            reveal_strlit("shape-");
            reveal_strlit("text:");
            assert forall|t: Tool| tool_name(t) != s@ by {
                match t {
                    Tool::Shape(k2) => {
                        if tool_name(t) == s@ {
                            assert(s@.subrange(0, 6) =~= "shape-"@);
                        }
                    },
                    Tool::Text(x) => {
                        if tool_name(t) == s@ {
                            assert(s@.subrange(0, 5) =~= "text:"@);
                        }
                    },
                    _ => {},
                }
            }
        }
        None
    }
}

} // verus!
