//! Guidelines: infinite lines clipped to the view.
//!
//! The caller intersects the guideline with the four edges of the view's clip
//! rectangle, each taken as an infinite line. The choices made on those
//! crossings are made here: which two of them bound the drawn segment, and
//! where the guideline's name goes.

use vstd::prelude::*;

use crate::constants::GUIDELINE_STROKE;
use crate::string::{Alignment, VerticalAlignment};

verus! {

/// The value in `o`, as a sequence of zero or one element.
pub open spec fn option_seq<T>(o: Option<T>) -> Seq<T> {
    match o {
        Some(v) => seq![v],
        None => seq![],
    }
}

/// The crossings found, in the order in which the edges are considered:
/// bottom, top, right, left.
pub open spec fn crossings<T>(
    bottom: Option<T>,
    top: Option<T>,
    right: Option<T>,
    left: Option<T>,
) -> Seq<T> {
    option_seq(bottom) + option_seq(top) + option_seq(right) + option_seq(left)
}

/// The visible segment of a guideline, given where it crosses the bottom,
/// top, right and left edges of the view (`None` where it does not): the first
/// two crossings in that order, or `None` where there are fewer than two and
/// nothing is drawn.
pub fn visible_segment<T: Copy>(
    bottom: Option<T>,
    top: Option<T>,
    right: Option<T>,
    left: Option<T>,
) -> (r: Option<(T, T)>)
    ensures
        crossings(bottom, top, right, left).len() < 2 ==> r is None,
        crossings(bottom, top, right, left).len() >= 2 ==> r == Some(
            (crossings(bottom, top, right, left)[0], crossings(bottom, top, right, left)[1]),
        ),
{
    let mut found: Vec<T> = Vec::new();
    if let Some(v) = bottom {
        found.push(v);
    }
    if let Some(v) = top {
        found.push(v);
    }
    if let Some(v) = right {
        found.push(v);
    }
    if let Some(v) = left {
        found.push(v);
    }
    assert(found@ =~= crossings(bottom, top, right, left));
    if found.len() >= 2 {
        Some((found[0], found[1]))
    } else {
        None
    }
}

/// Where a guideline's name label is anchored.
#[derive(Clone, Copy, Debug, PartialEq, Eq, Structural)]
pub enum LabelAnchor {
    /// Near the left edge of the view (or the glyph origin, when that edge is
    /// left of it), so that the label stays readable while the view pans.
    Sliding,
    /// At the segment's first end, moved slightly inward.
    AtCrossing,
}

/// The placement of a guideline's name label.
#[derive(Clone, Copy, Debug, PartialEq, Eq, Structural)]
pub struct GuidelineLabel {
    pub vertical: VerticalAlignment,
    pub alignment: Alignment,
    pub anchor: LabelAnchor,
}

/// Places a guideline's name label. `crosses_bottom` says whether the line
/// crosses the bottom edge; `horizontal`, whether its angle is 0; and
/// `origin_in_reach`, whether the view's left edge is no further left of the
/// glyph origin than the view is wide.
///
/// The label hangs below its anchor where the line crosses the bottom edge
/// (the canvas is flipped against glyph space) and stands above it otherwise.
/// A horizontal line within reach of the origin gets a sliding, left-aligned
/// label; every other line a right-aligned one at its first crossing.
pub fn guideline_label(crosses_bottom: bool, horizontal: bool, origin_in_reach: bool) -> (r:
    GuidelineLabel)
    ensures
        r.vertical == if crosses_bottom {
            VerticalAlignment::Top
        } else {
            VerticalAlignment::Bottom
        },
        horizontal && origin_in_reach ==> r.alignment == Alignment::Left && r.anchor
            == LabelAnchor::Sliding,
        !(horizontal && origin_in_reach) ==> r.alignment == Alignment::Right && r.anchor
            == LabelAnchor::AtCrossing,
{
    let vertical = if crosses_bottom {
        VerticalAlignment::Top
    } else {
        VerticalAlignment::Bottom
    };
    if horizontal && origin_in_reach {
        GuidelineLabel { vertical, alignment: Alignment::Left, anchor: LabelAnchor::Sliding }
    } else {
        GuidelineLabel { vertical, alignment: Alignment::Right, anchor: LabelAnchor::AtCrossing }
    }
}

/// The colour of a guideline and its label: the one asked for, or the theme's
/// guideline stroke.
pub fn guideline_color(color: Option<u32>) -> (r: u32)
    ensures
        color is Some ==> r == color->0,
        color is None ==> r == GUIDELINE_STROKE,
{
    match color {
        Some(c) => c,
        None => GUIDELINE_STROKE,
    }
}

} // verus!
