//! Deciding whether a query point, widened by a tolerance radius, touches a
//! stroke.
use vstd::prelude::*;
use crate::geometry::{Point, sq_dist, sq_len};
use crate::model::{Stroke, Tool};

verus! {

/// Font size, in surface units, of a text label drawn at `thickness`.
pub open spec fn font_size(thickness: u32) -> int {
    if 4 * thickness > 14 {
        4 * thickness
    } else {
        14
    }
}

pub open spec fn min_of(a: int, b: int) -> int {
    if a <= b {
        a
    } else {
        b
    }
}

pub open spec fn max_of(a: int, b: int) -> int {
    if a >= b {
        a
    } else {
        b
    }
}

/// `q` lies within `radius + thickness / 2` of sample `p`.
pub open spec fn near_sample(q: Point, p: Point, radius: nat, thickness: u32) -> bool {
    4 * sq_dist(q, p) <= (2 * radius + thickness) * (2 * radius + thickness)
}

/// `q` lies in the box spanned by `a` and `b`, grown by `radius` on every side.
pub open spec fn in_grown_box(q: Point, a: Point, b: Point, radius: nat) -> bool {
    min_of(a.x as int, b.x as int) - radius <= q.x <= max_of(a.x as int, b.x as int) + radius
        && min_of(a.y as int, b.y as int) - radius <= q.y <= max_of(a.y as int, b.y as int)
        + radius
}

/// `q` lies in the approximate box of a text of `len` characters anchored at
/// `p` (its width taken as `len * font size * 0.6`), grown by `radius`.
pub open spec fn in_text_box(q: Point, p: Point, len: nat, fs: int, radius: nat) -> bool {
    p.x - radius <= q.x && 5 * (q.x - p.x - radius) <= 3 * (len * fs) && p.y - fs - radius <= q.y
        && q.y <= p.y + radius
}

/// Whether the query point `q` with tolerance `radius` touches stroke `s`.
pub open spec fn stroke_hit(s: Stroke, q: Point, radius: nat) -> bool {
    match s.tool {
        Tool::Shape(_) => s.points@.len() >= 2 && in_grown_box(
            q,
            s.points@[0],
            s.points@[1],
            radius,
        ),
        Tool::Text(t) => s.points@.len() >= 1 && in_text_box(
            q,
            s.points@[0],
            t@.len(),
            font_size(s.thickness),
            radius,
        ),
        Tool::Pen | Tool::Highlighter => exists|i: int|
            0 <= i < s.points@.len() && near_sample(q, #[trigger] s.points@[i], radius, s.thickness),
    }
}

/// Decides `stroke_hit` for one stroke.
pub fn hits_stroke(s: &Stroke, q: Point, radius: u32) -> (r: bool)
    requires
        s.in_range(),
        q.in_range(),
    ensures
        r == stroke_hit(*s, q, radius as nat),
{
    match &s.tool {
        Tool::Shape(_) => {
            if s.points.len() < 2 {
                return false;
            }
            let a = s.points[0];
            let b = s.points[1];
            let r = radius as i64;
            let (x0, x1) = if a.x <= b.x {
                (a.x as i64, b.x as i64)
            } else {
                (b.x as i64, a.x as i64)
            };
            let (y0, y1) = if a.y <= b.y {
                (a.y as i64, b.y as i64)
            } else {
                (b.y as i64, a.y as i64)
            };
            let qx = q.x as i64;
            let qy = q.y as i64;
            x0 - r <= qx && qx <= x1 + r && y0 - r <= qy && qy <= y1 + r
        },
        Tool::Text(t) => {
            if s.points.len() < 1 {
                return false;
            }
            let p = s.points[0];
            let fs: i128 = if 4 * (s.thickness as i128) > 14 {
                4 * (s.thickness as i128)
            } else {
                14
            };
            let len = t.as_str().unicode_len() as i128;
            let r = radius as i128;
            let qx = q.x as i128;
            let qy = q.y as i128;
            let px = p.x as i128;
            let py = p.y as i128;
            proof {
                assert(0 <= len * fs <= 0x1_0000_0000_0000_0000 * 0x10_0000_0000) by (nonlinear_arith)
                    requires
                        0 <= len <= 0x1_0000_0000_0000_0000,
                        0 <= fs <= 0x10_0000_0000,
                ;
            }
            px - r <= qx && 5 * (qx - px - r) <= 3 * (len * fs) && py - fs - r <= qy && qy <= py + r
        },
        Tool::Pen | Tool::Highlighter => {
            let reach = 2 * (radius as u128) + s.thickness as u128;
            proof {
                assert(reach * reach <= 0x3_0000_0000 * 0x3_0000_0000) by (nonlinear_arith)
                    requires
                        0 <= reach <= 0x3_0000_0000,
                ;
            }
            let bound = reach * reach;
            let mut i: usize = 0;
            while i < s.points.len()
                invariant
                    i <= s.points@.len(),
                    s.in_range(),
                    q.in_range(),
                    s.tool is Pen || s.tool is Highlighter,
                    bound == (2 * radius + s.thickness) * (2 * radius + s.thickness),
                    forall|j: int|
                        0 <= j < i ==> !near_sample(q, #[trigger] s.points@[j], radius as nat, s.thickness),
                decreases s.points@.len() - i,
            {
                let p = s.points[i];
                assert(p.in_range());
                let d = sq_len(q.x as i64 - p.x as i64, q.y as i64 - p.y as i64);
                if 4 * d <= bound {
                    assert(near_sample(q, s.points@[i as int], radius as nat, s.thickness));
                    return true;
                }
                i = i + 1;
            }
            false
        },
    }
}

/// A query point lying exactly on a sample of a freehand stroke touches it,
/// even with a zero radius.
pub proof fn lemma_sample_is_hit(s: Stroke, i: int, radius: nat)
    requires
        s.tool is Pen || s.tool is Highlighter,
        0 <= i < s.points@.len(),
    ensures
        stroke_hit(s, s.points@[i], radius),
{
    let q = s.points@[i];
    assert(sq_dist(q, q) == 0);
    let r = 2 * radius + s.thickness;
    assert(r * r >= 0) by (nonlinear_arith);
    assert(near_sample(q, s.points@[i], radius, s.thickness));
}

} // verus!
