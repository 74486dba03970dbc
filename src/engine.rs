//! The engine: document state, selection, frame timing and hit-testing.
use vstd::prelude::*;
use crate::geometry::{Point, all_in_range, rdp, douglas_peucker};
use crate::hit::{stroke_hit, hits_stroke};
use crate::model::{CurrentStrokeStyle, ShapePreview, Stroke, SymbolPreview};
use crate::render::{
    DrawOp, Paint, frame_ops, is_selected, push_grid, push_pen_stroke, push_shape, push_stroke,
    push_symbol, strokes_ops,
};

verus! {

/// Capacity of the window of inter-frame deltas.
pub const FRAME_WINDOW: usize = 30;

/// Deltas of this many microseconds or more are ignored.
pub const MAX_FRAME_DELTA: u64 = 1_000_000;

/// Fewest deltas from which a frame rate is reported.
pub const MIN_FPS_SAMPLES: usize = 5;

/// Highest reported rate, in thousandths of a frame per second.
pub const FPS_CAP: u64 = 144_000;

/// What `id_list_of_json(s)` holds: the list of strings that the JSON text
/// `s` denotes, or `None` when `s` is not a JSON array of strings.
pub uninterp spec fn id_list_of_json(s: Seq<char>) -> Option<Seq<Seq<char>>>;

pub open spec fn views_of(v: Seq<String>) -> Seq<Seq<char>> {
    v.map_values(|s: String| s@)
}

/// Relies on `serde_json::from_str::<Vec<String>>`: decoding a JSON array of
/// strings is a function of the text alone.
#[verifier::external_body]
fn parse_id_list(s: &str) -> (r: Option<Vec<String>>)
    ensures
        match id_list_of_json(s@) {
            Some(l) => r matches Some(v) && views_of(v@) == l,
            None => r is None,
        },
{
    serde_json::from_str::<Vec<String>>(s).ok()
}

/// The window after a frame is recorded at `time`, the previous frame having
/// been recorded at `last` (`None` when this is the first frame).
pub open spec fn next_window(w: Seq<u64>, last: Option<u64>, time: u64) -> Seq<u64> {
    match last {
        Some(l) => if l < time && time - l < MAX_FRAME_DELTA {
            let d = (time - l) as u64;
            if w.len() >= FRAME_WINDOW {
                w.drop_first().push(d)
            } else {
                w.push(d)
            }
        } else {
            w
        },
        None => w,
    }
}

pub open spec fn sum_of(w: Seq<u64>) -> int
    decreases w.len(),
{
    if w.len() == 0 {
        0
    } else {
        sum_of(w.drop_last()) + w.last()
    }
}

/// The frame rate, in thousandths of a frame per second, that a window of
/// deltas (in microseconds) gives: 0 below `MIN_FPS_SAMPLES` deltas, else
/// `1000 / average delta in ms`, capped at `FPS_CAP`.
pub open spec fn fps_of(w: Seq<u64>) -> int {
    if w.len() < MIN_FPS_SAMPLES || sum_of(w) <= 0 {
        0
    } else {
        let r = (1_000_000_000 * w.len()) as int / sum_of(w);
        if r > FPS_CAP {
            FPS_CAP as int
        } else {
            r
        }
    }
}

/// Whether the query point `q` with tolerance `radius` touches stroke `i`,
/// and `i` is the last such stroke.
pub open spec fn topmost_hit(strokes: Seq<Stroke>, q: Point, radius: nat, i: int) -> bool {
    0 <= i < strokes.len() && stroke_hit(strokes[i], q, radius) && forall|j: int|
        i < j < strokes.len() ==> !stroke_hit(#[trigger] strokes[j], q, radius)
}

/// When two strokes both touch the query point, the earlier one is never the
/// topmost hit: the later-drawn one wins.
pub proof fn lemma_later_stroke_wins(strokes: Seq<Stroke>, q: Point, radius: nat, i: int, j: int)
    requires
        0 <= i < j < strokes.len(),
        stroke_hit(strokes[i], q, radius),
        stroke_hit(strokes[j], q, radius),
    ensures
        !topmost_hit(strokes, q, radius, i),
{
}

pub open spec fn strokes_in_range(strokes: Seq<Stroke>) -> bool {
    forall|i: int| 0 <= i < strokes.len() ==> (#[trigger] strokes[i]).in_range()
}

/// A frame shown a second or more after the previous one leaves the window
/// of deltas as it was.
pub proof fn lemma_long_gap_ignored(w: Seq<u64>, last: u64, time: u64)
    requires
        time >= last + MAX_FRAME_DELTA,
    ensures
        next_window(w, Some(last), time) == w,
{
}

/// A frame that does not come after the previous one leaves the window as it
/// was.
pub proof fn lemma_no_progress_ignored(w: Seq<u64>, last: u64, time: u64)
    requires
        time <= last,
    ensures
        next_window(w, Some(last), time) == w,
{
}

/// Every frame after the first, at any time including 0, contributes its
/// delta when that lies strictly between 0 and `MAX_FRAME_DELTA`.
pub proof fn lemma_in_range_delta_recorded(w: Seq<u64>, last: u64, time: u64)
    requires
        last < time < last + MAX_FRAME_DELTA,
        w.len() < FRAME_WINDOW,
    ensures
        next_window(w, Some(last), time) == w.push((time - last) as u64),
{
}

proof fn lemma_sum_bound(w: Seq<u64>)
    requires
        forall|i: int| 0 <= i < w.len() ==> 0 < #[trigger] w[i] < MAX_FRAME_DELTA,
    ensures
        w.len() <= sum_of(w) <= w.len() * MAX_FRAME_DELTA,
    decreases w.len(),
{
    if w.len() > 0 {
        lemma_sum_bound(w.drop_last());
    }
}

/// Whether `id` is one of `ids`.
fn contains_id(ids: &Vec<String>, id: &String) -> (r: bool)
    ensures
        r == is_selected(views_of(ids@), id@),
{
    let mut i: usize = 0;
    while i < ids.len()
        invariant
            i <= ids@.len(),
            forall|j: int| 0 <= j < i ==> (#[trigger] ids@[j])@ != id@,
        decreases ids@.len() - i,
    {
        if ids[i] == *id {
            assert(views_of(ids@)[i as int] == id@);
            return true;
        }
        i = i + 1;
    }
    assert forall|j: int| 0 <= j < views_of(ids@).len() implies views_of(ids@)[j] != id@ by {
        assert(ids@[j]@ != id@);
    }
    false
}

/// The annotation canvas: its strokes, ephemeral previews, selection and
/// frame timer.
pub struct RenderEngine {
    width: u32,
    height: u32,
    strokes: Vec<Stroke>,
    current_stroke: Vec<Point>,
    current_style: Option<CurrentStrokeStyle>,
    shape_preview: Option<ShapePreview>,
    symbol_preview: Option<SymbolPreview>,
    selected_id: Option<String>,
    selected_ids: Vec<String>,
    frame_times: Vec<u64>,
    last_frame_time: Option<u64>,
}

impl RenderEngine {
    pub closed spec fn width_view(&self) -> u32 {
        self.width
    }

    pub closed spec fn height_view(&self) -> u32 {
        self.height
    }

    pub closed spec fn strokes_view(&self) -> Seq<Stroke> {
        self.strokes@
    }

    pub closed spec fn current_points_view(&self) -> Seq<Point> {
        self.current_stroke@
    }

    pub closed spec fn current_style_view(&self) -> Option<CurrentStrokeStyle> {
        self.current_style
    }

    pub closed spec fn shape_preview_view(&self) -> Option<ShapePreview> {
        self.shape_preview
    }

    pub closed spec fn symbol_preview_view(&self) -> Option<SymbolPreview> {
        self.symbol_preview
    }

    /// The primary selected id.
    pub closed spec fn primary_view(&self) -> Option<Seq<char>> {
        match self.selected_id {
            Some(s) => Some(s@),
            None => None,
        }
    }

    /// The selected ids, in the order they were given.
    pub closed spec fn selection_view(&self) -> Seq<Seq<char>> {
        views_of(self.selected_ids@)
    }

    /// The window of accepted inter-frame deltas, oldest first.
    pub closed spec fn window_view(&self) -> Seq<u64> {
        self.frame_times@
    }

    /// When the last frame was recorded; `None` before the first.
    pub closed spec fn last_frame_view(&self) -> Option<u64> {
        self.last_frame_time
    }

    /// Surface size, strokes, in-progress path and previews agree.
    pub open spec fn same_document(&self, o: &Self) -> bool {
        &&& self.width_view() == o.width_view()
        &&& self.height_view() == o.height_view()
        &&& self.strokes_view() == o.strokes_view()
        &&& self.current_points_view() == o.current_points_view()
        &&& self.current_style_view() == o.current_style_view()
        &&& self.shape_preview_view() == o.shape_preview_view()
        &&& self.symbol_preview_view() == o.symbol_preview_view()
    }

    /// Primary selection and selected ids agree.
    pub open spec fn same_selection(&self, o: &Self) -> bool {
        self.primary_view() == o.primary_view() && self.selection_view() == o.selection_view()
    }

    /// Frame window and last frame time agree.
    pub open spec fn same_timer(&self, o: &Self) -> bool {
        self.window_view() == o.window_view() && self.last_frame_view() == o.last_frame_view()
    }

    /// Every coordinate is within range and the frame window holds at most
    /// `FRAME_WINDOW` deltas, each positive and below `MAX_FRAME_DELTA`.
    pub closed spec fn wf(&self) -> bool {
        &&& strokes_in_range(self.strokes@)
        &&& all_in_range(self.current_stroke@)
        &&& (self.shape_preview matches Some(p) ==> p.in_range())
        &&& (self.symbol_preview matches Some(p) ==> p.in_range())
        &&& self.frame_times@.len() <= FRAME_WINDOW
        &&& forall|i: int|
            0 <= i < self.frame_times@.len() ==> 0 < #[trigger] self.frame_times@[i]
                < MAX_FRAME_DELTA
    }

    /// A fresh engine for a surface of the given size, with no strokes, no
    /// previews, no selection and no recorded frames.
    pub fn new(width: u32, height: u32) -> (r: Self)
        ensures
            r.wf(),
            r.width_view() == width,
            r.height_view() == height,
            r.strokes_view().len() == 0,
            r.current_points_view().len() == 0,
            r.current_style_view() is None,
            r.shape_preview_view() is None,
            r.symbol_preview_view() is None,
            r.primary_view() is None,
            r.selection_view().len() == 0,
            r.window_view().len() == 0,
            r.last_frame_view() is None,
    {
        RenderEngine {
            width,
            height,
            strokes: Vec::new(),
            current_stroke: Vec::new(),
            current_style: None,
            shape_preview: None,
            symbol_preview: None,
            selected_id: None,
            selected_ids: Vec::new(),
            frame_times: Vec::new(),
            last_frame_time: None,
        }
    }

    /// Changes the surface size; geometry is left as it is.
    pub fn resize(&mut self, width: u32, height: u32)
        requires
            old(self).wf(),
        ensures
            final(self).wf(),
            final(self).width_view() == width,
            final(self).height_view() == height,
            final(self).strokes_view() == old(self).strokes_view(),
            final(self).current_points_view() == old(self).current_points_view(),
            final(self).current_style_view() == old(self).current_style_view(),
            final(self).shape_preview_view() == old(self).shape_preview_view(),
            final(self).symbol_preview_view() == old(self).symbol_preview_view(),
            final(self).same_selection(&*old(self)),
            final(self).same_timer(&*old(self)),
    {
        self.width = width;
        self.height = height;
    }

    /// Replaces the persisted stroke list.
    pub fn set_strokes(&mut self, strokes: Vec<Stroke>)
        requires
            old(self).wf(),
            strokes_in_range(strokes@),
        ensures
            final(self).wf(),
            final(self).strokes_view() == strokes@,
            final(self).width_view() == old(self).width_view(),
            final(self).height_view() == old(self).height_view(),
            final(self).current_points_view() == old(self).current_points_view(),
            final(self).current_style_view() == old(self).current_style_view(),
            final(self).shape_preview_view() == old(self).shape_preview_view(),
            final(self).symbol_preview_view() == old(self).symbol_preview_view(),
            final(self).same_selection(&*old(self)),
            final(self).same_timer(&*old(self)),
    {
        self.strokes = strokes;
    }

    /// Replaces the in-progress path and its style, each only where given:
    /// `points` of `None` keeps the path, `style` of `None` keeps the style
    /// and `Some(None)` clears it.
    pub fn set_current_stroke(
        &mut self,
        points: Option<Vec<Point>>,
        style: Option<Option<CurrentStrokeStyle>>,
    )
        requires
            old(self).wf(),
            points matches Some(p) ==> all_in_range(p@),
        ensures
            final(self).wf(),
            final(self).current_points_view() == match points {
                Some(p) => p@,
                None => old(self).current_points_view(),
            },
            final(self).current_style_view() == match style {
                Some(s) => s,
                None => old(self).current_style_view(),
            },
            final(self).width_view() == old(self).width_view(),
            final(self).height_view() == old(self).height_view(),
            final(self).strokes_view() == old(self).strokes_view(),
            final(self).shape_preview_view() == old(self).shape_preview_view(),
            final(self).symbol_preview_view() == old(self).symbol_preview_view(),
            final(self).same_selection(&*old(self)),
            final(self).same_timer(&*old(self)),
    {
        if let Some(p) = points {
            self.current_stroke = p;
        }
        if let Some(s) = style {
            self.current_style = s;
        }
    }

    /// Replaces or clears the shape preview.
    pub fn set_shape_preview(&mut self, preview: Option<ShapePreview>)
        requires
            old(self).wf(),
            preview matches Some(p) ==> p.in_range(),
        ensures
            final(self).wf(),
            final(self).shape_preview_view() == preview,
            final(self).width_view() == old(self).width_view(),
            final(self).height_view() == old(self).height_view(),
            final(self).strokes_view() == old(self).strokes_view(),
            final(self).current_points_view() == old(self).current_points_view(),
            final(self).current_style_view() == old(self).current_style_view(),
            final(self).symbol_preview_view() == old(self).symbol_preview_view(),
            final(self).same_selection(&*old(self)),
            final(self).same_timer(&*old(self)),
    {
        self.shape_preview = preview;
    }

    /// Replaces or clears the symbol preview.
    pub fn set_symbol_preview(&mut self, preview: Option<SymbolPreview>)
        requires
            old(self).wf(),
            preview matches Some(p) ==> p.in_range(),
        ensures
            final(self).wf(),
            final(self).symbol_preview_view() == preview,
            final(self).width_view() == old(self).width_view(),
            final(self).height_view() == old(self).height_view(),
            final(self).strokes_view() == old(self).strokes_view(),
            final(self).current_points_view() == old(self).current_points_view(),
            final(self).current_style_view() == old(self).current_style_view(),
            final(self).shape_preview_view() == old(self).shape_preview_view(),
            final(self).same_selection(&*old(self)),
            final(self).same_timer(&*old(self)),
    {
        self.symbol_preview = preview;
    }

    /// Selects the single stroke `id`, or clears the selection when `id` is
    /// empty.
    pub fn set_selected(&mut self, id: &str)
        requires
            old(self).wf(),
        ensures
            final(self).wf(),
            id@.len() == 0 ==> final(self).primary_view() is None && final(self).selection_view().len() == 0,
            id@.len() > 0 ==> final(self).primary_view() == Some(id@) && final(self).selection_view() == seq![id@],
            final(self).same_document(&*old(self)),
            final(self).same_timer(&*old(self)),
    {
        if id.is_empty() {
            self.selected_id = None;
            self.selected_ids.clear();
            assert(self.selection_view() =~= Seq::<Seq<char>>::empty());
        } else {
            self.selected_id = Some(id.to_owned());
            let mut ids: Vec<String> = Vec::new();
            ids.push(id.to_owned());
            self.selected_ids = ids;
            assert(self.selection_view() =~= seq![id@]);
        }
    }

    /// Selects the strokes `ids`; the first of them becomes the primary
    /// selection (none when `ids` is empty).
    pub fn select_ids(&mut self, ids: Vec<String>)
        requires
            old(self).wf(),
        ensures
            final(self).wf(),
            final(self).selection_view() == views_of(ids@),
            final(self).primary_view() == if ids@.len() > 0 {
                Some(ids@[0]@)
            } else {
                None::<Seq<char>>
            },
            final(self).same_document(&*old(self)),
            final(self).same_timer(&*old(self)),
    {
        self.selected_id = if ids.len() > 0 {
            Some(ids[0].clone())
        } else {
            None
        };
        self.selected_ids = ids;
    }

    /// Selects the ids listed in the JSON array `ids_json`; text that is not
    /// a JSON array of strings leaves the selection as it was.
    pub fn set_selected_ids(&mut self, ids_json: &str)
        requires
            old(self).wf(),
        ensures
            final(self).wf(),
            match id_list_of_json(ids_json@) {
                Some(l) => final(self).selection_view() == l && final(self).primary_view() == (
                if l.len() > 0 {
                    Some(l[0])
                } else {
                    None::<Seq<char>>
                }),
                None => final(self).same_selection(&*old(self)),
            },
            final(self).same_document(&*old(self)),
            final(self).same_timer(&*old(self)),
    {
        if let Some(ids) = parse_id_list(ids_json) {
            self.select_ids(ids);
        }
    }

    /// The primary selected id.
    pub fn primary_selection(&self) -> (r: Option<String>)
        ensures
            match r {
                Some(s) => self.primary_view() == Some(s@),
                None => self.primary_view() is None,
            },
    {
        match &self.selected_id {
            Some(s) => Some(s.clone()),
            None => None,
        }
    }

    /// The selected ids, in order.
    pub fn selection(&self) -> (r: Vec<String>)
        ensures
            views_of(r@) == self.selection_view(),
    {
        let mut r: Vec<String> = Vec::new();
        let mut i: usize = 0;
        while i < self.selected_ids.len()
            invariant
                i <= self.selected_ids@.len(),
                r@.len() == i,
                forall|j: int| 0 <= j < i ==> #[trigger] r@[j]@ == self.selected_ids@[j]@,
            decreases self.selected_ids@.len() - i,
        {
            r.push(self.selected_ids[i].clone());
            i = i + 1;
        }
        assert(views_of(r@) =~= views_of(self.selected_ids@));
        r
    }

    /// Records a frame shown at `time` (microseconds of a monotonic clock).
    /// On every call after the first, a positive delta from the previous
    /// frame below `MAX_FRAME_DELTA` enters the window, the oldest delta
    /// leaving when it is full.
    pub fn record_frame(&mut self, time: u64)
        requires
            old(self).wf(),
        ensures
            final(self).wf(),
            final(self).window_view() == next_window(
                old(self).window_view(),
                old(self).last_frame_view(),
                time,
            ),
            final(self).last_frame_view() == Some(time),
            final(self).same_document(&*old(self)),
            final(self).same_selection(&*old(self)),
    {
        if let Some(last) = self.last_frame_time {
            if last < time && time - last < MAX_FRAME_DELTA {
                let delta = time - last;
                if self.frame_times.len() >= FRAME_WINDOW {
                    self.frame_times.remove(0);
                    assert(self.frame_times@ =~= old(self).frame_times@.drop_first());
                }
                self.frame_times.push(delta);
            }
        }
        self.last_frame_time = Some(time);
    }

    /// The smoothed frame rate in thousandths of a frame per second (see
    /// `fps_of`).
    pub fn get_fps(&self) -> (r: u64)
        requires
            self.wf(),
        ensures
            r == fps_of(self.window_view()),
            self.window_view().len() < MIN_FPS_SAMPLES ==> r == 0,
    {
        let n = self.frame_times.len();
        if n < MIN_FPS_SAMPLES {
            return 0;
        }
        let mut sum: u64 = 0;
        let mut i: usize = 0;
        while i < n
            invariant
                n == self.frame_times@.len(),
                n <= FRAME_WINDOW,
                i <= n,
                self.wf(),
                sum == sum_of(self.frame_times@.subrange(0, i as int)),
                sum <= i * MAX_FRAME_DELTA,
            decreases n - i,
        {
            let d = self.frame_times[i];
            assert(self.frame_times@.subrange(0, i + 1).drop_last() =~= self.frame_times@.subrange(
                0,
                i as int,
            ));
            sum = sum + d;
            i = i + 1;
        }
        assert(self.frame_times@.subrange(0, n as int) =~= self.frame_times@);
        proof {
            lemma_sum_bound(self.frame_times@);
        }
        let r = 1_000_000_000 * (n as u64) / sum;
        if r > FPS_CAP {
            FPS_CAP
        } else {
            r
        }
    }

    /// Index of the topmost stroke that the point `(x, y)`, with tolerance
    /// `radius`, touches (see `stroke_hit`); -1 when it touches none.
    pub fn hit_test(&self, x: i32, y: i32, radius: u32) -> (r: i32)
        requires
            self.wf(),
            (Point { x, y }).in_range(),
            self.strokes_view().len() <= i32::MAX,
        ensures
            r == -1 <==> forall|i: int|
                0 <= i < self.strokes_view().len() ==> !stroke_hit(
                    #[trigger] self.strokes_view()[i],
                    Point { x, y },
                    radius as nat,
                ),
            r != -1 ==> topmost_hit(self.strokes_view(), Point { x, y }, radius as nat, r as int),
    {
        let q = Point { x, y };
        let mut i: usize = self.strokes.len();
        while i > 0
            invariant
                i <= self.strokes@.len() <= i32::MAX,
                self.wf(),
                q.in_range(),
                q == (Point { x, y }),
                forall|j: int|
                    i <= j < self.strokes@.len() ==> !stroke_hit(
                        #[trigger] self.strokes@[j],
                        q,
                        radius as nat,
                    ),
            decreases i,
        {
            i = i - 1;
            assert(self.strokes@[i as int].in_range());
            if hits_stroke(&self.strokes[i], q, radius) {
                assert(stroke_hit(self.strokes_view()[i as int], q, radius as nat));
                return i as i32;
            }
        }
        -1
    }

    /// The display list of one frame (see `frame_ops`). `has_background`
    /// tells that a page image is already painted underneath, so that the
    /// flat fill and grid are left out.
    pub fn render(&self, has_background: bool) -> (r: Vec<DrawOp>)
        requires
            self.wf(),
        ensures
            r@ == frame_ops(
                self.width_view(),
                self.height_view(),
                has_background,
                self.strokes_view(),
                self.selection_view(),
                self.current_points_view(),
                self.current_style_view(),
                self.shape_preview_view(),
                self.symbol_preview_view(),
            ),
    {
        let mut out: Vec<DrawOp> = Vec::new();
        let w = 20 * self.width as i64;
        let h = 20 * self.height as i64;
        if !has_background {
            out.push(DrawOp::FillStyle(Paint::Background));
            out.push(DrawOp::FillRect(0, 0, w, h));
            push_grid(&mut out, self.width, self.height);
        }
        out.push(DrawOp::StrokeStyle(Paint::Border));
        out.push(DrawOp::LineWidth(20));
        out.push(DrawOp::StrokeRect(0, 0, w, h));
        let ghost base = out@;
        let ghost sel = self.selection_view();
        let mut i: usize = 0;
        assert(self.strokes@.subrange(0, 0) =~= Seq::<Stroke>::empty());
        assert(out@ =~= base + strokes_ops(self.strokes@.subrange(0, 0), sel));
        while i < self.strokes.len()
            invariant
                i <= self.strokes@.len(),
                self.wf(),
                sel == self.selection_view(),
                out@ == base + strokes_ops(self.strokes@.subrange(0, i as int), sel),
            decreases self.strokes@.len() - i,
        {
            let s = &self.strokes[i];
            assert(self.strokes@[i as int].in_range());
            let selected = contains_id(&self.selected_ids, &s.id);
            push_stroke(&mut out, s, selected);
            assert(self.strokes@.subrange(0, i + 1).drop_last() =~= self.strokes@.subrange(
                0,
                i as int,
            ));
            i = i + 1;
        }
        assert(self.strokes@.subrange(0, i as int) =~= self.strokes@);
        let ghost after_strokes = out@;
        if self.current_stroke.len() > 0 {
            if let Some(st) = &self.current_style {
                push_pen_stroke(&mut out, &self.current_stroke, &st.color, st.thickness, st.opacity);
            }
        }
        let ghost after_current = out@;
        if let Some(p) = &self.shape_preview {
            push_shape(
                &mut out,
                p.shape_type,
                p.start,
                p.end,
                &p.color,
                p.thickness,
                p.opacity,
                &p.fill_color,
                false,
            );
        }
        let ghost after_shape = out@;
        if let Some(p) = &self.symbol_preview {
            push_symbol(&mut out, p);
        }
        assert(out@ =~= frame_ops(
            self.width_view(),
            self.height_view(),
            has_background,
            self.strokes_view(),
            self.selection_view(),
            self.current_points_view(),
            self.current_style_view(),
            self.shape_preview_view(),
            self.symbol_preview_view(),
        ));
        out
    }

    /// Simplifies a freehand path with the Ramer-Douglas-Peucker algorithm
    /// (see `rdp`); paths of fewer than three points come back unchanged.
    pub fn simplify_points(points: &Vec<Point>, tolerance: u32) -> (r: Vec<Point>)
        requires
            all_in_range(points@),
        ensures
            r@ == rdp(points@, tolerance as nat),
    {
        douglas_peucker(points, tolerance)
    }
}

} // verus!
