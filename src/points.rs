//! Point, handle and direction markers: which shape each marker takes and which
//! colours it is drawn in.

use vstd::prelude::*;

use crate::constants::{
    DIRECTION_FILL, DIRECTION_STROKE, HANDLEBAR_STROKE, HANDLE_FILL, HANDLE_STROKE, POINT_ONE_FILL,
    POINT_ONE_STROKE, POINT_SQUARE_FILL, POINT_SQUARE_STROKE, POINT_TWO_FILL, POINT_TWO_STROKE,
    SELECTED_DIRECTION_FILL, SELECTED_DIRECTION_STROKE, SELECTED_HANDLEBAR_STROKE,
    SELECTED_HANDLE_FILL, SELECTED_HANDLE_STROKE, SELECTED_POINT_ONE_FILL,
    SELECTED_POINT_ONE_STROKE, SELECTED_POINT_SQUARE_FILL, SELECTED_POINT_SQUARE_STROKE,
    SELECTED_POINT_TWO_FILL, SELECTED_POINT_TWO_STROKE,
};
use crate::toggles::{HandleStyle, PreviewMode};

verus! {

/// A Bezier handle as the marker logic sees it: absent (coincident with its
/// point) or placed somewhere else.
#[derive(Clone, Copy, Debug, PartialEq, Eq, Structural)]
pub enum HandleKind {
    Colocated,
    At,
}

/// What kind of thing a marker stands for.
#[derive(Clone, Copy, Debug, PartialEq, Eq, Structural)]
pub enum UIPointType {
    /// An on-curve point with its two handles.
    Point(HandleKind, HandleKind),
    /// An off-curve handle.
    Handle,
    /// A contour-direction triangle.
    Direction,
}

/// The shape of an on-curve point's marker.
#[derive(Clone, Copy, Debug, PartialEq, Eq, Structural)]
pub enum MarkerShape {
    /// Both handles placed, smooth point: an open circle.
    Round,
    /// Both handles placed, corner point: a cross.
    Cross,
    /// Fewer than two handles placed: a square.
    Square,
}

/// The (fill, stroke) pair of the palette for a marker of `kind`.
pub open spec fn fill_and_stroke_spec(kind: UIPointType, selected: bool) -> (u32, u32) {
    match kind {
        UIPointType::Handle => if selected {
            (SELECTED_HANDLE_FILL, SELECTED_HANDLE_STROKE)
        } else {
            (HANDLE_FILL, HANDLE_STROKE)
        },
        UIPointType::Direction => if selected {
            (SELECTED_DIRECTION_FILL, SELECTED_DIRECTION_STROKE)
        } else {
            (DIRECTION_FILL, DIRECTION_STROKE)
        },
        UIPointType::Point(a, b) => {
            let placed = handles_placed(a, b);
            if placed == 0 {
                if selected {
                    (SELECTED_POINT_SQUARE_FILL, SELECTED_POINT_SQUARE_STROKE)
                } else {
                    (POINT_SQUARE_FILL, POINT_SQUARE_STROKE)
                }
            } else if placed == 1 {
                if selected {
                    (SELECTED_POINT_ONE_FILL, SELECTED_POINT_ONE_STROKE)
                } else {
                    (POINT_ONE_FILL, POINT_ONE_STROKE)
                }
            } else {
                if selected {
                    (SELECTED_POINT_TWO_FILL, SELECTED_POINT_TWO_STROKE)
                } else {
                    (POINT_TWO_FILL, POINT_TWO_STROKE)
                }
            }
        },
    }
}

/// How many of the two handles are placed away from their point.
pub open spec fn handles_placed(a: HandleKind, b: HandleKind) -> nat {
    (if a is At { 1nat } else { 0nat }) + (if b is At { 1nat } else { 0nat })
}

/// The (fill, stroke) colours of a marker, keyed by what it stands for and
/// whether it is selected.
pub fn get_fill_and_stroke(kind: UIPointType, selected: bool) -> (r: (u32, u32))
    ensures
        r == fill_and_stroke_spec(kind, selected),
{
    if selected {
        match kind {
            UIPointType::Handle => (SELECTED_HANDLE_FILL, SELECTED_HANDLE_STROKE),
            UIPointType::Point(HandleKind::At, HandleKind::Colocated)
            | UIPointType::Point(HandleKind::Colocated, HandleKind::At) => {
                (SELECTED_POINT_ONE_FILL, SELECTED_POINT_ONE_STROKE)
            },
            UIPointType::Direction => (SELECTED_DIRECTION_FILL, SELECTED_DIRECTION_STROKE),
            UIPointType::Point(HandleKind::Colocated, HandleKind::Colocated) => {
                (SELECTED_POINT_SQUARE_FILL, SELECTED_POINT_SQUARE_STROKE)
            },
            _ => (SELECTED_POINT_TWO_FILL, SELECTED_POINT_TWO_STROKE),
        }
    } else {
        match kind {
            UIPointType::Handle => (HANDLE_FILL, HANDLE_STROKE),
            UIPointType::Point(HandleKind::At, HandleKind::Colocated)
            | UIPointType::Point(HandleKind::Colocated, HandleKind::At) => {
                (POINT_ONE_FILL, POINT_ONE_STROKE)
            },
            UIPointType::Direction => (DIRECTION_FILL, DIRECTION_STROKE),
            UIPointType::Point(HandleKind::Colocated, HandleKind::Colocated) => {
                (POINT_SQUARE_FILL, POINT_SQUARE_STROKE)
            },
            _ => (POINT_TWO_FILL, POINT_TWO_STROKE),
        }
    }
}

/// The (fill, stroke) colours of an on-curve point: the one-handle palette for
/// a round point, the square palette otherwise.
pub fn get_point_stroke_fill(round: bool, selected: bool) -> (r: (u32, u32))
    ensures
        round && selected ==> r == (SELECTED_POINT_ONE_FILL, SELECTED_POINT_ONE_STROKE),
        round && !selected ==> r == (POINT_ONE_FILL, POINT_ONE_STROKE),
        !round && selected ==> r == (SELECTED_POINT_SQUARE_FILL, SELECTED_POINT_SQUARE_STROKE),
        !round && !selected ==> r == (POINT_SQUARE_FILL, POINT_SQUARE_STROKE),
{
    match round {
        true => match selected {
            true => (SELECTED_POINT_ONE_FILL, SELECTED_POINT_ONE_STROKE),
            false => (POINT_ONE_FILL, POINT_ONE_STROKE),
        },
        false => match selected {
            true => (SELECTED_POINT_SQUARE_FILL, SELECTED_POINT_SQUARE_STROKE),
            false => (POINT_SQUARE_FILL, POINT_SQUARE_STROKE),
        },
    }
}

/// The (fill, stroke) colours of an off-curve handle marker.
pub fn get_handle_stroke_fill(selected: bool) -> (r: (u32, u32))
    ensures
        r == fill_and_stroke_spec(UIPointType::Handle, selected),
        selected ==> r == (SELECTED_HANDLE_FILL, SELECTED_HANDLE_STROKE),
        !selected ==> r == (HANDLE_FILL, HANDLE_STROKE),
{
    match selected {
        true => (SELECTED_HANDLE_FILL, SELECTED_HANDLE_STROKE),
        false => (HANDLE_FILL, HANDLE_STROKE),
    }
}

/// The colour of the connector lines between a point and its handles.
pub fn handlebar_color(selected: bool) -> (r: u32)
    ensures
        r == if selected { SELECTED_HANDLEBAR_STROKE } else { HANDLEBAR_STROKE },
{
    if selected {
        SELECTED_HANDLEBAR_STROKE
    } else {
        HANDLEBAR_STROKE
    }
}

/// The marker shape of an on-curve point: round or crossed when both handles
/// are placed (round when smooth), square otherwise.
pub open spec fn marker_shape_spec(a: HandleKind, b: HandleKind, smooth: bool) -> MarkerShape {
    if a is At && b is At {
        if smooth {
            MarkerShape::Round
        } else {
            MarkerShape::Cross
        }
    } else {
        MarkerShape::Square
    }
}

/// How one on-curve point is drawn.
#[derive(Clone, Copy, Debug, PartialEq, Eq, Structural)]
pub struct PointMarker {
    pub shape: MarkerShape,
    /// The colour of the marker's outline.
    pub line_color: u32,
    /// The colour that the point's name label is derived from.
    pub name_color: u32,
    /// Whether a marker is drawn for handle A.
    pub draw_handle_a: bool,
    /// Whether a marker is drawn for handle B.
    pub draw_handle_b: bool,
}

/// The marker of an on-curve point with handles `a` and `b`.
///
/// A round or crossed marker takes the one-handle palette and a square one the
/// square palette; the outline is drawn in the palette's stroke colour and the
/// name label starts from its fill colour. A handle gets its own marker only
/// when it is placed and handle drawing is on.
pub open spec fn point_marker_spec(
    a: HandleKind,
    b: HandleKind,
    smooth: bool,
    selected: bool,
    style: HandleStyle,
) -> PointMarker {
    let shape = marker_shape_spec(a, b, smooth);
    let palette = if shape is Square {
        fill_and_stroke_spec(UIPointType::Point(HandleKind::Colocated, HandleKind::Colocated), selected)
    } else {
        fill_and_stroke_spec(UIPointType::Point(HandleKind::At, HandleKind::Colocated), selected)
    };
    PointMarker {
        shape,
        line_color: palette.1,
        name_color: palette.0,
        draw_handle_a: style != HandleStyle::Off && a is At,
        draw_handle_b: style != HandleStyle::Off && b is At,
    }
}

/// Decides how an on-curve point is drawn.
pub fn point_marker(
    a: HandleKind,
    b: HandleKind,
    smooth: bool,
    selected: bool,
    style: HandleStyle,
) -> (r: PointMarker)
    ensures
        r == point_marker_spec(a, b, smooth, selected, style),
{
    let round = a == HandleKind::At && b == HandleKind::At;
    let (fill, stroke) = get_point_stroke_fill(round, selected);
    let shape = if round {
        if smooth {
            MarkerShape::Round
        } else {
            MarkerShape::Cross
        }
    } else {
        MarkerShape::Square
    };
    let handles_on = style != HandleStyle::Off;
    PointMarker {
        shape,
        line_color: stroke,
        name_color: fill,
        draw_handle_a: handles_on && a == HandleKind::At,
        draw_handle_b: handles_on && b == HandleKind::At,
    }
}

/// What the point renderer reads of an on-curve point.
#[derive(Clone, Copy, Debug, PartialEq, Eq, Structural)]
pub struct PointShape {
    pub handle_a: HandleKind,
    pub handle_b: HandleKind,
    pub smooth: bool,
}

/// What the point renderer reads of a contour.
#[derive(Clone, Debug)]
pub struct ContourShape {
    pub open: bool,
    pub points: Vec<PointShape>,
}

/// How far one point advances the running label number: one for the point,
/// and one on each side of it for a placed handle B.
pub open spec fn point_span(p: PointShape) -> int {
    if p.handle_b is At {
        3
    } else {
        1
    }
}

/// How far a run of points advances the running label number.
pub open spec fn points_span(ps: Seq<PointShape>) -> int
    decreases ps.len(),
{
    if ps.len() == 0 {
        0
    } else {
        points_span(ps.drop_last()) + point_span(ps.last())
    }
}

/// How far a contour advances the running label number: an open contour
/// counts one more.
pub open spec fn contour_span(c: ContourShape) -> int {
    (if c.open {
        1int
    } else {
        0int
    }) + points_span(c.points@)
}

/// How far a run of contours advances the running label number.
pub open spec fn contours_span(cs: Seq<ContourShape>) -> int
    decreases cs.len(),
{
    if cs.len() == 0 {
        0
    } else {
        contours_span(cs.drop_last()) + contour_span(cs.last())
    }
}

/// The label number of point `p` of contour `c`.
pub open spec fn point_number(cs: Seq<ContourShape>, c: int, p: int) -> int {
    -1 + contours_span(cs.take(c)) + (if cs[c].open {
        1int
    } else {
        0int
    }) + points_span(cs[c].points@.take(p)) + (if cs[c].points@[p].handle_b is At {
        1int
    } else {
        0int
    })
}

/// Whether point `p` of contour `c` is selected: it is in the selection, or
/// it is the hovered point.
pub open spec fn is_selected_spec(
    selection: Seq<(usize, usize)>,
    hover_contour: Option<usize>,
    hover_point: Option<usize>,
    c: usize,
    p: usize,
) -> bool {
    selection.contains((c, p)) || (hover_contour == Some(c) && hover_point == Some(p))
}

/// Whether something is drawn when only the selection may be.
pub open spec fn should_draw_spec(only_selected: bool, selected: bool) -> bool {
    !only_selected || selected
}

/// How one on-curve point of the active layer is rendered.
#[derive(Clone, Copy, Debug, PartialEq, Eq, Structural)]
pub struct PointPlan {
    /// The running number shown by a numbered label.
    pub number: isize,
    pub selected: bool,
    /// Whether the point is drawn at all.
    pub drawn: bool,
    /// Whether its connector lines to its handles are drawn.
    pub handlebars: bool,
    pub marker: PointMarker,
}

/// The plan of point `p` of contour `c`.
pub open spec fn point_plan_spec(
    cs: Seq<ContourShape>,
    style: HandleStyle,
    selection: Seq<(usize, usize)>,
    hover_contour: Option<usize>,
    hover_point: Option<usize>,
    only_selected: bool,
    c: int,
    p: int,
) -> PointPlan {
    let pt = cs[c].points@[p];
    let selected = is_selected_spec(selection, hover_contour, hover_point, c as usize, p as usize);
    let drawn = should_draw_spec(only_selected, selected);
    PointPlan {
        number: point_number(cs, c, p) as isize,
        selected,
        drawn,
        handlebars: drawn && style == HandleStyle::Handlebars,
        marker: point_marker_spec(pt.handle_a, pt.handle_b, pt.smooth, selected, style),
    }
}

proof fn lemma_points_span_nonneg(ps: Seq<PointShape>)
    ensures
        points_span(ps) >= 0,
    decreases ps.len(),
{
    if ps.len() > 0 {
        lemma_points_span_nonneg(ps.drop_last());
    }
}

proof fn lemma_points_span_take(ps: Seq<PointShape>, p: int)
    requires
        0 <= p < ps.len(),
    ensures
        points_span(ps.take(p + 1)) == points_span(ps.take(p)) + point_span(ps[p]),
{
    assert(ps.take(p + 1).drop_last() =~= ps.take(p));
}

proof fn lemma_points_span_prefix(ps: Seq<PointShape>, p: int)
    requires
        0 <= p <= ps.len(),
    ensures
        0 <= points_span(ps.take(p)) <= points_span(ps),
    decreases ps.len() - p,
{
    lemma_points_span_nonneg(ps.take(p));
    if p < ps.len() {
        lemma_points_span_take(ps, p);
        lemma_points_span_prefix(ps, p + 1);
    } else {
        assert(ps.take(p) =~= ps);
    }
}

proof fn lemma_contours_span_take(cs: Seq<ContourShape>, c: int)
    requires
        0 <= c < cs.len(),
    ensures
        contours_span(cs.take(c + 1)) == contours_span(cs.take(c)) + contour_span(cs[c]),
{
    assert(cs.take(c + 1).drop_last() =~= cs.take(c));
}

proof fn lemma_contours_span_prefix(cs: Seq<ContourShape>, c: int)
    requires
        0 <= c <= cs.len(),
    ensures
        contours_span(cs.take(c)) <= contours_span(cs),
    decreases cs.len() - c,
{
    if c < cs.len() {
        lemma_contours_span_take(cs, c);
        lemma_points_span_nonneg(cs[c].points@);
        lemma_contours_span_prefix(cs, c + 1);
    } else {
        assert(cs.take(c) =~= cs);
    }
}

/// Whether `(c, p)` is in the selection.
fn selection_contains(selection: &Vec<(usize, usize)>, c: usize, p: usize) -> (r: bool)
    ensures
        r == selection@.contains((c, p)),
{
    let mut k: usize = 0;
    while k < selection.len()
        invariant
            k <= selection@.len(),
            forall|j: int| 0 <= j < k ==> selection@[j] != (c, p),
        decreases selection@.len() - k,
    {
        if selection[k].0 == c && selection[k].1 == p {
            assert(selection@[k as int] == (c, p));
            return true;
        }
        k += 1;
    }
    false
}

/// Whether point `p` of contour `c` is selected: it is in `selection`, or it
/// is the hovered point (`hover_contour`, `hover_point`).
pub fn is_selected(
    selection: &Vec<(usize, usize)>,
    hover_contour: Option<usize>,
    hover_point: Option<usize>,
    c: usize,
    p: usize,
) -> (r: bool)
    ensures
        r == is_selected_spec(selection@, hover_contour, hover_point, c, p),
{
    if selection_contains(selection, c, p) {
        return true;
    }
    match (hover_contour, hover_point) {
        (Some(hc), Some(hp)) => hc == c && hp == p,
        _ => false,
    }
}

/// Plans the rendering of every on-curve point of the active layer, contour
/// by contour: its label number, whether it is selected and drawn, and its
/// marker.
///
/// The label number runs over the whole layer: each point takes the next
/// number, a placed handle B takes one number before and one after its point,
/// and each open contour skips one number where it starts. With
/// `only_selected`, only selected points are drawn.
pub fn plan_points(
    contours: &Vec<ContourShape>,
    style: HandleStyle,
    selection: &Vec<(usize, usize)>,
    hover_contour: Option<usize>,
    hover_point: Option<usize>,
    only_selected: bool,
) -> (r: Vec<Vec<PointPlan>>)
    requires
        contours_span(contours@) <= isize::MAX,
    ensures
        r@.len() == contours@.len(),
        forall|c: int| 0 <= c < r@.len() ==> #[trigger] r@[c]@.len() == contours@[c].points@.len(),
        forall|c: int, p: int|
            0 <= c < r@.len() && 0 <= p < r@[c]@.len() ==> #[trigger] r@[c]@[p]
                == point_plan_spec(
                contours@,
                style,
                selection@,
                hover_contour,
                hover_point,
                only_selected,
                c,
                p,
            ),
{
    let mut plans: Vec<Vec<PointPlan>> = Vec::new();
    let mut i: isize = -1;
    let mut c: usize = 0;
    while c < contours.len()
        invariant
            c <= contours@.len(),
            contours_span(contours@) <= isize::MAX,
            i == -1 + contours_span(contours@.take(c as int)),
            plans@.len() == c,
            forall|c2: int| 0 <= c2 < c ==> #[trigger] plans@[c2]@.len() == contours@[c2].points@.len(),
            forall|c2: int, p: int|
                0 <= c2 < c && 0 <= p < plans@[c2]@.len() ==> #[trigger] plans@[c2]@[p]
                    == point_plan_spec(
                    contours@,
                    style,
                    selection@,
                    hover_contour,
                    hover_point,
                    only_selected,
                    c2,
                    p,
                ),
        decreases contours@.len() - c,
    {
        let contour = &contours[c];
        proof {
            lemma_contours_span_take(contours@, c as int);
            lemma_contours_span_prefix(contours@, c as int + 1);
            lemma_points_span_nonneg(contour.points@);
        }
        if contour.open {
            i += 1;
        }
        let ghost base = i;
        let mut row: Vec<PointPlan> = Vec::new();
        let mut p: usize = 0;
        while p < contour.points.len()
            invariant
                c < contours@.len(),
                *contour == contours@[c as int],
                p <= contour.points@.len(),
                contours_span(contours@.take(c as int + 1)) <= isize::MAX,
                contours_span(contours@.take(c as int + 1)) == contours_span(contours@.take(c as int))
                    + contour_span(*contour),
                base == -1 + contours_span(contours@.take(c as int)) + (if contour.open {
                    1int
                } else {
                    0int
                }),
                i == base + points_span(contour.points@.take(p as int)),
                row@.len() == p,
                forall|q: int| 0 <= q < p ==> #[trigger] row@[q]
                    == point_plan_spec(
                    contours@,
                    style,
                    selection@,
                    hover_contour,
                    hover_point,
                    only_selected,
                    c as int,
                    q,
                ),
            decreases contour.points@.len() - p,
        {
            let pt = contour.points[p];
            proof {
                lemma_points_span_take(contour.points@, p as int);
                lemma_points_span_prefix(contour.points@, p as int + 1);
            }
            let placed_b = pt.handle_b == HandleKind::At;
            if placed_b {
                i += 1;
            }
            let number = i;
            let selected = is_selected(selection, hover_contour, hover_point, c, p);
            let drawn = !only_selected || selected;
            let marker = point_marker(pt.handle_a, pt.handle_b, pt.smooth, selected, style);
            row.push(
                PointPlan {
                    number,
                    selected,
                    drawn,
                    handlebars: drawn && style == HandleStyle::Handlebars,
                    marker,
                },
            );
            if placed_b {
                i += 1;
            }
            i += 1;
            p += 1;
        }
        proof {
            assert(contour.points@.take(p as int) =~= contour.points@);
        }
        plans.push(row);
        c += 1;
    }
    plans
}

/// Whether point labels and names are drawn under `mode`: not in the paper
/// preview.
pub fn labels_visible(mode: PreviewMode) -> (r: bool)
    ensures
        r == !(mode is Paper),
{
    mode != PreviewMode::Paper
}

/// Whether contour `c` is in the selection through any of its points.
pub open spec fn contour_selected_spec(selection: Seq<(usize, usize)>, c: usize) -> bool {
    exists|j: int| 0 <= j < selection.len() && (#[trigger] selection[j]).0 == c
}

/// Decides which contours get a direction marker: every contour that has
/// points, and with `only_selected` only those with a selected point.
/// `empty[c]` says whether contour `c` has no points.
pub fn direction_contours(empty: &Vec<bool>, selection: &Vec<(usize, usize)>, only_selected: bool) -> (r:
    Vec<bool>)
    ensures
        r@.len() == empty@.len(),
        forall|c: int|
            0 <= c < r@.len() ==> #[trigger] r@[c] == (!empty@[c] && should_draw_spec(
                only_selected,
                contour_selected_spec(selection@, c as usize),
            )),
{
    let mut out: Vec<bool> = Vec::new();
    let mut c: usize = 0;
    while c < empty.len()
        invariant
            c <= empty@.len(),
            out@.len() == c,
            forall|c2: int|
                0 <= c2 < c ==> #[trigger] out@[c2] == (!empty@[c2] && should_draw_spec(
                    only_selected,
                    contour_selected_spec(selection@, c2 as usize),
                )),
        decreases empty@.len() - c,
    {
        let mut selected = false;
        let mut k: usize = 0;
        while k < selection.len()
            invariant
                k <= selection@.len(),
                selected == exists|j: int| 0 <= j < k && (#[trigger] selection@[j]).0 == c,
            decreases selection@.len() - k,
        {
            if selection[k].0 == c {
                selected = true;
            }
            k += 1;
        }
        out.push(!empty[c] && (!only_selected || selected));
        c += 1;
    }
    out
}

/// The polyline joining a point to its handles: from handle A (where placed)
/// through the point to handle B (where placed).
pub open spec fn handlebar_spec<T>(a: Option<T>, point: T, b: Option<T>) -> Seq<T> {
    let start = match a {
        Some(h) => seq![h, point],
        None => seq![point],
    };
    match b {
        Some(h) => start.push(h),
        None => start,
    }
}

/// The vertices of the connector polyline between a point and its handles,
/// skipping a handle that is not placed.
pub fn handlebar_vertices<T: Copy>(a: Option<T>, point: T, b: Option<T>) -> (r: Vec<T>)
    ensures
        r@ == handlebar_spec(a, point, b),
{
    let mut out: Vec<T> = Vec::new();
    if let Some(h) = a {
        out.push(h);
    }
    out.push(point);
    if let Some(h) = b {
        out.push(h);
    }
    assert(out@ =~= handlebar_spec(a, point, b));
    out
}

} // verus!
