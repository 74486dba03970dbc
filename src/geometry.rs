//! Points, exact distance comparisons, and Ramer-Douglas-Peucker polyline
//! simplification.
//!
//! Coordinates are integers in surface units. Distances are never taken as
//! square roots: every comparison is made between squared quantities, scaled
//! by the squared length of the reference segment, so that it is exact.
use vstd::prelude::*;

verus! {

/// Largest magnitude a coordinate may have; it keeps every scaled squared
/// distance within 128-bit arithmetic.
pub const COORD_LIMIT: i32 = 0x4000_0000;

/// A 2D coordinate in surface units.
#[derive(Clone, Copy, Debug, PartialEq, Eq, Structural)]
pub struct Point {
    pub x: i32,
    pub y: i32,
}

impl Point {
    pub open spec fn in_range(self) -> bool {
        -COORD_LIMIT <= self.x <= COORD_LIMIT && -COORD_LIMIT <= self.y <= COORD_LIMIT
    }
}

pub open spec fn all_in_range(pts: Seq<Point>) -> bool {
    forall|i: int| 0 <= i < pts.len() ==> (#[trigger] pts[i]).in_range()
}

/// Squared Euclidean distance.
pub open spec fn sq_dist(p: Point, q: Point) -> int {
    (p.x - q.x) * (p.x - q.x) + (p.y - q.y) * (p.y - q.y)
}

/// Dot product of `p - a` with `b - a`.
pub open spec fn dot(p: Point, a: Point, b: Point) -> int {
    (p.x - a.x) * (b.x - a.x) + (p.y - a.y) * (b.y - a.y)
}

/// Cross product of `b - a` with `p - a`.
pub open spec fn cross(p: Point, a: Point, b: Point) -> int {
    (b.x - a.x) * (p.y - a.y) - (b.y - a.y) * (p.x - a.x)
}

/// The scale applied to squared distances measured against segment `[a, b]`:
/// its squared length, or 1 when the segment is a single point.
pub open spec fn seg_scale(a: Point, b: Point) -> int {
    if sq_dist(a, b) == 0 {
        1
    } else {
        sq_dist(a, b)
    }
}

/// Squared distance from `p` to the closest point of segment `[a, b]`,
/// multiplied by `seg_scale(a, b)`. For a projection strictly inside the
/// segment this is `cross * cross`; otherwise the closer endpoint is used.
pub open spec fn scaled_seg_dist(p: Point, a: Point, b: Point) -> int {
    let l = sq_dist(a, b);
    if l == 0 {
        sq_dist(p, a)
    } else if dot(p, a, b) <= 0 {
        sq_dist(p, a) * l
    } else if dot(p, a, b) >= l {
        sq_dist(p, b) * l
    } else {
        cross(p, a, b) * cross(p, a, b)
    }
}

/// A distance `tol`, squared and put on the same scale as `scaled_seg_dist`.
pub open spec fn scaled_tol(tol: nat, a: Point, b: Point) -> int {
    (tol * tol) as int * seg_scale(a, b)
}

/// Scaled distance of `pts[k]` from the segment joining the first and last
/// points; index 0 stands for "no point found" and measures 0.
pub open spec fn interior_dist(pts: Seq<Point>, k: int) -> int {
    if k == 0 {
        0
    } else {
        scaled_seg_dist(pts[k], pts[0], pts.last())
    }
}

/// Among the interior indices `1 .. j - 1`, the first whose distance from the
/// chord is strictly the largest and positive; 0 when all are on the chord.
pub open spec fn farthest_upto(pts: Seq<Point>, j: int) -> int
    decreases j,
{
    if j <= 1 {
        0
    } else {
        let k = farthest_upto(pts, j - 1);
        if interior_dist(pts, j - 1) > interior_dist(pts, k) {
            j - 1
        } else {
            k
        }
    }
}

/// The interior point farthest from the chord (0 when there is none).
pub open spec fn farthest(pts: Seq<Point>) -> int {
    farthest_upto(pts, pts.len() - 1)
}

/// Ramer-Douglas-Peucker simplification with distance tolerance `tol`.
pub open spec fn rdp(pts: Seq<Point>, tol: nat) -> Seq<Point>
    decreases pts.len(),
{
    if pts.len() < 3 {
        pts
    } else {
        let k = farthest(pts);
        if interior_dist(pts, k) > scaled_tol(tol, pts[0], pts.last()) && 0 < k < pts.len() - 1 {
            rdp(pts.subrange(0, k + 1), tol).drop_last() + rdp(pts.subrange(k, pts.len() as int), tol)
        } else {
            seq![pts[0], pts.last()]
        }
    }
}

proof fn lemma_farthest_upto_bounds(pts: Seq<Point>, j: int)
    ensures
        0 <= farthest_upto(pts, j),
        j >= 1 ==> farthest_upto(pts, j) < j,
        j <= 1 ==> farthest_upto(pts, j) == 0,
    decreases j,
{
    if j > 1 {
        lemma_farthest_upto_bounds(pts, j - 1);
    }
}

/// When the farthest point lies strictly beyond a nonnegative threshold, it is
/// a genuine interior index.
proof fn lemma_split_index(pts: Seq<Point>, tol: nat)
    requires
        pts.len() >= 3,
        interior_dist(pts, farthest(pts)) > scaled_tol(tol, pts[0], pts.last()),
    ensures
        0 < farthest(pts) < pts.len() - 1,
{
    lemma_farthest_upto_bounds(pts, pts.len() - 1);
    let t = (tol * tol) as int;
    let s = seg_scale(pts[0], pts.last());
    assert(sq_dist(pts[0], pts.last()) >= 0) by (nonlinear_arith);
    assert(t * s >= 0) by (nonlinear_arith)
        requires
            t >= 0,
            s >= 1,
    ;
}

/// Every simplification keeps at least the two endpoints and starts and ends
/// where its input does.
pub proof fn lemma_rdp_endpoints(pts: Seq<Point>, tol: nat)
    ensures
        pts.len() >= 2 ==> rdp(pts, tol).len() >= 2,
        pts.len() >= 1 ==> rdp(pts, tol).len() >= 1,
        pts.len() >= 1 ==> rdp(pts, tol)[0] == pts[0],
        pts.len() >= 1 ==> rdp(pts, tol).last() == pts.last(),
    decreases pts.len(),
{
    if pts.len() >= 3 {
        let k = farthest(pts);
        if interior_dist(pts, k) > scaled_tol(tol, pts[0], pts.last()) && 0 < k < pts.len() - 1 {
            let left = pts.subrange(0, k + 1);
            let right = pts.subrange(k, pts.len() as int);
            lemma_rdp_endpoints(left, tol);
            lemma_rdp_endpoints(right, tol);
            let l = rdp(left, tol);
            let r = rdp(right, tol);
            assert((l.drop_last() + r)[0] == l[0]);
            assert((l.drop_last() + r).last() == r.last());
        }
    }
}

/// Inputs with fewer than three points are returned unchanged.
pub proof fn lemma_rdp_short_unchanged(pts: Seq<Point>, tol: nat)
    requires
        pts.len() < 3,
    ensures
        rdp(pts, tol) == pts,
{
}

/// The simplification of a polyline never has more points than the polyline.
pub proof fn lemma_rdp_not_longer(pts: Seq<Point>, tol: nat)
    ensures
        rdp(pts, tol).len() <= pts.len(),
    decreases pts.len(),
{
    if pts.len() >= 3 {
        let k = farthest(pts);
        if interior_dist(pts, k) > scaled_tol(tol, pts[0], pts.last()) && 0 < k < pts.len() - 1 {
            let left = pts.subrange(0, k + 1);
            let right = pts.subrange(k, pts.len() as int);
            lemma_rdp_not_longer(left, tol);
            lemma_rdp_not_longer(right, tol);
            lemma_rdp_endpoints(left, tol);
        }
    }
}

/// Raising the tolerance never lengthens the simplification of a polyline.
pub proof fn lemma_rdp_monotone(pts: Seq<Point>, tol1: nat, tol2: nat)
    requires
        tol1 <= tol2,
    ensures
        rdp(pts, tol2).len() <= rdp(pts, tol1).len(),
    decreases pts.len(),
{
    if pts.len() >= 3 {
        let k = farthest(pts);
        let s = seg_scale(pts[0], pts.last());
        assert(sq_dist(pts[0], pts.last()) >= 0) by (nonlinear_arith);
        assert((tol1 * tol1) as int * s <= (tol2 * tol2) as int * s) by (nonlinear_arith)
            requires
                tol1 <= tol2,
                s >= 1,
        ;
        let left = pts.subrange(0, k + 1);
        let right = pts.subrange(k, pts.len() as int);
        let splits2 = interior_dist(pts, k) > scaled_tol(tol2, pts[0], pts.last()) && 0 < k
            < pts.len() - 1;
        let splits1 = interior_dist(pts, k) > scaled_tol(tol1, pts[0], pts.last()) && 0 < k
            < pts.len() - 1;
        if splits2 {
            assert(splits1);
            lemma_rdp_monotone(left, tol1, tol2);
            lemma_rdp_monotone(right, tol1, tol2);
            lemma_rdp_endpoints(left, tol1);
            lemma_rdp_endpoints(left, tol2);
        } else {
            lemma_rdp_endpoints(pts, tol1);
        }
    }
}


/// `f` maps each index of `a` to an index of `b` holding the same point, in
/// strictly increasing order.
pub open spec fn embedding(a: Seq<Point>, b: Seq<Point>, f: spec_fn(int) -> int) -> bool {
    &&& forall|i: int| 0 <= i < a.len() ==> 0 <= #[trigger] f(i) < b.len() && a[i] == b[f(i)]
    &&& forall|i: int, j: int| 0 <= i < j < a.len() ==> #[trigger] f(i) < #[trigger] f(j)
}

/// `a` is obtained from `b` by dropping points.
pub open spec fn is_subsequence(a: Seq<Point>, b: Seq<Point>) -> bool {
    exists|f: spec_fn(int) -> int| embedding(a, b, f)
}

/// An embedding of the larger tolerance's simplification into the smaller
/// one's, which maps first to first and last to last.
proof fn lemma_rdp_embeds(pts: Seq<Point>, tol1: nat, tol2: nat) -> (f: spec_fn(int) -> int)
    requires
        tol1 <= tol2,
        pts.len() >= 2,
    ensures
        embedding(rdp(pts, tol2), rdp(pts, tol1), f),
        f(0) == 0,
        f(rdp(pts, tol2).len() - 1) == rdp(pts, tol1).len() - 1,
    decreases pts.len(),
{
    lemma_rdp_endpoints(pts, tol1);
    lemma_rdp_endpoints(pts, tol2);
    let a = rdp(pts, tol2);
    let b = rdp(pts, tol1);
    if pts.len() < 3 {
        let f = |i: int| i;
        return f;
    }
    let k = farthest(pts);
    let s = seg_scale(pts[0], pts.last());
    assert(sq_dist(pts[0], pts.last()) >= 0) by (nonlinear_arith);
    assert((tol1 * tol1) as int * s <= (tol2 * tol2) as int * s) by (nonlinear_arith)
        requires
            tol1 <= tol2,
            s >= 1,
    ;
    let splits2 = interior_dist(pts, k) > scaled_tol(tol2, pts[0], pts.last()) && 0 < k < pts.len()
        - 1;
    if !splits2 {
        assert(a == seq![pts[0], pts.last()]);
        let n1 = b.len();
        let f = |i: int| if i == 0 { 0 } else { n1 - 1 };
        assert(b[n1 - 1] == b.last());
        return f;
    }
    let left = pts.subrange(0, k + 1);
    let right = pts.subrange(k, pts.len() as int);
    let fl = lemma_rdp_embeds(left, tol1, tol2);
    let fr = lemma_rdp_embeds(right, tol1, tol2);
    lemma_rdp_endpoints(left, tol1);
    lemma_rdp_endpoints(left, tol2);
    lemma_rdp_endpoints(right, tol1);
    lemma_rdp_endpoints(right, tol2);
    let l1 = rdp(left, tol1);
    let l2 = rdp(left, tol2);
    let r1 = rdp(right, tol1);
    let r2 = rdp(right, tol2);
    let n1 = l1.len();
    let n2 = l2.len();
    assert(a == l2.drop_last() + r2);
    assert(b == l1.drop_last() + r1);
    let f = |i: int| if i < n2 - 1 { fl(i) } else { fr(i - (n2 - 1)) + (n1 - 1) };
    assert forall|i: int| 0 <= i < a.len() implies 0 <= #[trigger] f(i) < b.len() && a[i] == b[f(
        i,
    )] by {
        if i < n2 - 1 {
            assert(fl(i) < fl(n2 - 1));
            assert(a[i] == l2[i]);
            assert(b[fl(i)] == l1[fl(i)]);
        } else {
            let j = i - (n2 - 1);
            assert(0 <= fr(j) < r1.len());
            assert(a[i] == r2[j]);
            assert(b[fr(j) + (n1 - 1)] == r1[fr(j)]);
        }
    }
    assert forall|i: int, j: int| 0 <= i < j < a.len() implies #[trigger] f(i) < #[trigger] f(j) by {
        if j < n2 - 1 {
            assert(fl(i) < fl(j));
        } else if i < n2 - 1 {
            assert(fl(i) < fl(n2 - 1));
            assert(0 <= fr(j - (n2 - 1)));
        } else {
            assert(fr(i - (n2 - 1)) < fr(j - (n2 - 1)));
        }
    }
    assert(f(a.len() - 1) == fr(r2.len() - 1) + (n1 - 1));
    f
}

/// Raising the tolerance only drops points: the simplification at the larger
/// tolerance is a subsequence of the one at the smaller tolerance.
pub proof fn lemma_rdp_monotone_subsequence(pts: Seq<Point>, tol1: nat, tol2: nat)
    requires
        tol1 <= tol2,
    ensures
        is_subsequence(rdp(pts, tol2), rdp(pts, tol1)),
{
    if pts.len() >= 2 {
        let f = lemma_rdp_embeds(pts, tol1, tol2);
        assert(embedding(rdp(pts, tol2), rdp(pts, tol1), f));
    } else {
        let f = |i: int| i;
        assert(embedding(rdp(pts, tol2), rdp(pts, tol1), f));
    }
}

/// `dx * dx + dy * dy` for differences of in-range coordinates.
pub(crate) fn sq_len(dx: i64, dy: i64) -> (r: u128)
    requires
        -0x8000_0000 <= dx <= 0x8000_0000,
        -0x8000_0000 <= dy <= 0x8000_0000,
    ensures
        r == dx * dx + dy * dy,
        r <= 0x8000_0000_0000_0000,
{
    proof {
        assert(0 <= dx * dx <= 0x4000_0000_0000_0000) by (nonlinear_arith)
            requires
                -0x8000_0000 <= dx <= 0x8000_0000,
        ;
        assert(0 <= dy * dy <= 0x4000_0000_0000_0000) by (nonlinear_arith)
            requires
                -0x8000_0000 <= dy <= 0x8000_0000,
        ;
    }
    let x = dx as i128;
    let y = dy as i128;
    (x * x + y * y) as u128
}

/// Squared distance from `p` to segment `[a, b]`, scaled by the squared length
/// of the segment (see `scaled_seg_dist`).
pub fn scaled_distance(p: Point, a: Point, b: Point) -> (r: u128)
    requires
        p.in_range(),
        a.in_range(),
        b.in_range(),
    ensures
        r == scaled_seg_dist(p, a, b),
{
    let dx = b.x as i64 - a.x as i64;
    let dy = b.y as i64 - a.y as i64;
    let px = p.x as i64 - a.x as i64;
    let py = p.y as i64 - a.y as i64;
    let l = sq_len(a.x as i64 - b.x as i64, a.y as i64 - b.y as i64);
    let pa = sq_len(px, py);
    if l == 0 {
        return pa;
    }
    proof {
        assert(-0x4000_0000_0000_0000 <= px * dx <= 0x4000_0000_0000_0000) by (nonlinear_arith)
            requires
                -0x8000_0000 <= px <= 0x8000_0000,
                -0x8000_0000 <= dx <= 0x8000_0000,
        ;
        assert(-0x4000_0000_0000_0000 <= py * dy <= 0x4000_0000_0000_0000) by (nonlinear_arith)
            requires
                -0x8000_0000 <= py <= 0x8000_0000,
                -0x8000_0000 <= dy <= 0x8000_0000,
        ;
        assert(-0x4000_0000_0000_0000 <= dx * py <= 0x4000_0000_0000_0000) by (nonlinear_arith)
            requires
                -0x8000_0000 <= py <= 0x8000_0000,
                -0x8000_0000 <= dx <= 0x8000_0000,
        ;
        assert(-0x4000_0000_0000_0000 <= dy * px <= 0x4000_0000_0000_0000) by (nonlinear_arith)
            requires
                -0x8000_0000 <= px <= 0x8000_0000,
                -0x8000_0000 <= dy <= 0x8000_0000,
        ;
    }
    let d = (px as i128) * (dx as i128) + (py as i128) * (dy as i128);
    if d <= 0 {
        proof {
            assert(pa * l <= 0x8000_0000_0000_0000 * 0x8000_0000_0000_0000) by (nonlinear_arith)
                requires
                    pa <= 0x8000_0000_0000_0000,
                    l <= 0x8000_0000_0000_0000,
            ;
        }
        pa * l
    } else if d >= l as i128 {
        let qx = p.x as i64 - b.x as i64;
        let qy = p.y as i64 - b.y as i64;
        let pb = sq_len(qx, qy);
        proof {
            assert(pb * l <= 0x8000_0000_0000_0000 * 0x8000_0000_0000_0000) by (nonlinear_arith)
                requires
                    pb <= 0x8000_0000_0000_0000,
                    l <= 0x8000_0000_0000_0000,
            ;
        }
        pb * l
    } else {
        let c = (dx as i128) * (py as i128) - (dy as i128) * (px as i128);
        let m: u128 = if c < 0 {
            (-c) as u128
        } else {
            c as u128
        };
        proof {
            assert(m * m == c * c) by (nonlinear_arith)
                requires
                    m == c || m == -c,
            ;
            assert(m * m <= 0x8000_0000_0000_0000 * 0x8000_0000_0000_0000) by (nonlinear_arith)
                requires
                    m <= 0x8000_0000_0000_0000,
            ;
        }
        m * m
    }
}

/// `rdp` of the points `lo ..= hi` of `points`.
fn rdp_range(points: &Vec<Point>, lo: usize, hi: usize, tolerance: u32) -> (r: Vec<Point>)
    requires
        lo < hi < points.len(),
        all_in_range(points@),
    ensures
        r@ == rdp(points@.subrange(lo as int, hi + 1), tolerance as nat),
    decreases hi - lo,
{
    let ghost pts = points@.subrange(lo as int, hi + 1);
    if hi - lo < 2 {
        let mut r: Vec<Point> = Vec::new();
        r.push(points[lo]);
        r.push(points[hi]);
        assert(r@ =~= pts);
        return r;
    }
    let a = points[lo];
    let b = points[hi];
    let mut max_dist: u128 = 0;
    let mut max_idx: usize = lo;
    let mut i: usize = lo + 1;
    while i < hi
        invariant
            lo < i <= hi,
            hi < points.len(),
            all_in_range(points@),
            pts == points@.subrange(lo as int, hi + 1),
            a == pts[0],
            b == pts.last(),
            max_idx - lo == farthest_upto(pts, i - lo),
            lo <= max_idx,
            max_dist == interior_dist(pts, max_idx - lo),
        decreases hi - i,
    {
        let d = scaled_distance(points[i], a, b);
        assert(pts[i - lo] == points@[i as int]);
        if d > max_dist {
            max_dist = d;
            max_idx = i;
        }
        i = i + 1;
    }
    proof {
        lemma_farthest_upto_bounds(pts, pts.len() - 1);
    }
    let l = sq_len(a.x as i64 - b.x as i64, a.y as i64 - b.y as i64);
    let scale: u128 = if l == 0 {
        1
    } else {
        l
    };
    let t = tolerance as u128;
    proof {
        assert(t * t <= 0x1_0000_0000 * 0x1_0000_0000) by (nonlinear_arith)
            requires
                t <= 0xffff_ffff,
        ;
        assert(t * t * scale <= 0x1_0000_0000 * 0x1_0000_0000 * 0x8000_0000_0000_0000) by (nonlinear_arith)
            requires
                t * t <= 0x1_0000_0000 * 0x1_0000_0000,
                scale <= 0x8000_0000_0000_0000,
        ;
    }
    let threshold = t * t * scale;
    if max_dist > threshold {
        proof {
            lemma_split_index(pts, tolerance as nat);
        }
        let mut left = rdp_range(points, lo, max_idx, tolerance);
        let mut right = rdp_range(points, max_idx, hi, tolerance);
        proof {
            let k = max_idx - lo;
            assert(pts.subrange(0, k + 1) =~= points@.subrange(lo as int, max_idx + 1));
            assert(pts.subrange(k, pts.len() as int) =~= points@.subrange(max_idx as int, hi + 1));
            lemma_rdp_endpoints(pts.subrange(0, k + 1), tolerance as nat);
        }
        left.pop();
        left.append(&mut right);
        left
    } else {
        let mut r: Vec<Point> = Vec::new();
        r.push(a);
        r.push(b);
        assert(r@ =~= seq![pts[0], pts.last()]);
        r
    }
}

/// Simplifies a polyline with the Ramer-Douglas-Peucker algorithm: points that
/// lie within `tolerance` of the chord they would be dropped from are dropped.
/// Inputs of fewer than three points are returned unchanged.
pub fn douglas_peucker(points: &Vec<Point>, tolerance: u32) -> (r: Vec<Point>)
    requires
        all_in_range(points@),
    ensures
        r@ == rdp(points@, tolerance as nat),
{
    if points.len() < 3 {
        let mut r: Vec<Point> = Vec::new();
        let mut i: usize = 0;
        while i < points.len()
            invariant
                i <= points.len(),
                r@ == points@.subrange(0, i as int),
            decreases points.len() - i,
        {
            r.push(points[i]);
            i = i + 1;
            assert(r@ =~= points@.subrange(0, i as int));
        }
        assert(r@ =~= points@);
        return r;
    }
    let r = rdp_range(points, 0, points.len() - 1, tolerance);
    assert(points@.subrange(0, points.len() as int) =~= points@);
    r
}

} // verus!
