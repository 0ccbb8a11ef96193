//! Compositing of a glyph's layers.
//!
//! Layers are walked in order and gathered into groups: a group starts at the
//! first layer and at every later visible layer that carries no boolean
//! operation. Within a group each visible layer's closed outline is either
//! appended to the running closed path or combined with it by the layer's
//! operation; open sub-paths are always appended. A group is rendered (flushed)
//! when the next one starts, and once more at the end.
//!
//! The plan computed here is the sequence of those steps; performing a step on
//! real paths is the caller's work.

use vstd::prelude::*;

use crate::toggles::PreviewMode;

verus! {

/// A boolean operation that merges a layer into the layers before it.
#[derive(Clone, Copy, Debug, PartialEq, Eq, Structural)]
pub enum LayerOperation {
    Difference,
    Union,
    Intersect,
    Xor,
}

/// What the compositor reads of a layer.
#[derive(Clone, Copy, Debug, PartialEq, Eq, Structural)]
pub struct LayerInfo {
    pub visible: bool,
    pub operation: Option<LayerOperation>,
}

/// One step of compositing.
#[derive(Clone, Copy, Debug, PartialEq, Eq, Structural)]
pub enum CompositeStep {
    /// Append the layer's open and closed sub-paths to the group.
    Add { layer: usize },
    /// Append the layer's open sub-paths and its closed outline to the outline
    /// accumulator, and merge its closed sub-paths into the group's closed path
    /// by `op`.
    Combine { layer: usize, op: LayerOperation },
    /// Render the group gathered so far, tinted by the colour of layer
    /// `color_layer` where that layer exists and has one, then start afresh.
    Flush { color_layer: usize },
}

/// Whether layer `i` opens a new group.
pub open spec fn starts_group(layers: Seq<LayerInfo>, i: int) -> bool {
    i != 0 && layers[i].visible && layers[i].operation is None
}

/// The layer that opened the group in force after the first `n` layers.
pub open spec fn group_root(layers: Seq<LayerInfo>, n: int) -> int
    decreases n,
{
    if n <= 0 {
        0
    } else if starts_group(layers, n - 1) {
        n - 1
    } else {
        group_root(layers, n - 1)
    }
}

/// The step that brings visible layer `i` into its group.
pub open spec fn layer_step(layers: Seq<LayerInfo>, i: int) -> CompositeStep {
    match layers[i].operation {
        Some(op) => CompositeStep::Combine { layer: i as usize, op },
        None => CompositeStep::Add { layer: i as usize },
    }
}

/// The steps for the first `n` layers, before the final flush.
pub open spec fn plan_prefix(layers: Seq<LayerInfo>, n: int) -> Seq<CompositeStep>
    decreases n,
{
    if n <= 0 {
        seq![]
    } else {
        let prev = plan_prefix(layers, n - 1);
        let i = n - 1;
        if !layers[i].visible {
            prev
        } else if starts_group(layers, i) {
            prev.push(CompositeStep::Flush { color_layer: group_root(layers, i) as usize }).push(
                layer_step(layers, i),
            )
        } else {
            prev.push(layer_step(layers, i))
        }
    }
}

/// The whole compositing plan of a layer list.
pub open spec fn composite_plan_spec(layers: Seq<LayerInfo>) -> Seq<CompositeStep> {
    plan_prefix(layers, layers.len() as int).push(
        CompositeStep::Flush { color_layer: group_root(layers, layers.len() as int) as usize },
    )
}

/// Plans the compositing of `layers`: which layer joins which group by which
/// operation, and when each group is rendered.
pub fn composite_plan(layers: &Vec<LayerInfo>) -> (r: Vec<CompositeStep>)
    ensures
        r@ == composite_plan_spec(layers@),
{
    let mut steps: Vec<CompositeStep> = Vec::new();
    let mut root: usize = 0;
    let mut i: usize = 0;
    while i < layers.len()
        invariant
            i <= layers@.len(),
            steps@ == plan_prefix(layers@, i as int),
            root as int == group_root(layers@, i as int),
        decreases layers@.len() - i,
    {
        let layer = layers[i];
        if layer.visible {
            if layer.operation.is_none() && i != 0 {
                steps.push(CompositeStep::Flush { color_layer: root });
                root = i;
            }
            match layer.operation {
                Some(op) => steps.push(CompositeStep::Combine { layer: i, op }),
                None => steps.push(CompositeStep::Add { layer: i }),
            }
        }
        i += 1;
    }
    steps.push(CompositeStep::Flush { color_layer: root });
    steps
}

/// What becomes of a group's closed path after a boolean operation.
#[derive(Clone, Copy, Debug, PartialEq, Eq)]
pub enum ClosedUpdate<P> {
    /// The operation succeeded: its result replaces the closed path.
    Replace(P),
    /// The operation failed on degenerate geometry: the layer's closed path is
    /// appended unmodified, so that the frame still shows it.
    AppendUnmodified,
}

/// Decides how a group's closed path continues, given the result of merging a
/// layer into it (`None` where the operation failed).
pub fn closed_after_op<P>(combined: Option<P>) -> (r: ClosedUpdate<P>)
    ensures
        combined is Some ==> r == ClosedUpdate::Replace(combined->0),
        combined is None ==> r == ClosedUpdate::<P>::AppendUnmodified,
{
    match combined {
        Some(p) => ClosedUpdate::Replace(p),
        None => ClosedUpdate::AppendUnmodified,
    }
}

/// How a paint covers a path.
#[derive(Clone, Copy, Debug, PartialEq, Eq, Structural)]
pub enum PaintStyle {
    Fill,
    Stroke,
    StrokeAndFill,
}

/// Where the colour of a rendering pass comes from.
#[derive(Clone, Copy, Debug, PartialEq, Eq, Structural)]
pub enum GroupColor {
    /// The colour of the layer that opened the group.
    Root,
    /// The theme's outline fill.
    OutlineFill,
    /// The theme's outline stroke.
    OutlineStroke,
    /// The theme's paper fill.
    PaperFill,
    /// The canvas's default paint colour.
    Unset,
}

/// How a flushed group is rendered.
#[derive(Clone, Copy, Debug, PartialEq, Eq, Structural)]
pub struct GroupPaint {
    /// How the closed path is painted in the main pass (open paths are always
    /// stroked in the same colour).
    pub closed_style: PaintStyle,
    /// The colour of the main pass.
    pub color: GroupColor,
    /// Whether the stroke width is the outline thickness divided by the zoom
    /// factor (otherwise a hairline).
    pub zoom_width: bool,
    /// The colour of the stroke-only emphasis pass over the closed and outline
    /// paths, where there is one.
    pub emphasis: Option<GroupColor>,
}

/// The rendering of a flushed group under `mode`.
///
/// Paper fills only, in the group's colour or the paper fill; Outline strokes
/// only; Normal strokes and fills in the group's colour or the outline fill,
/// with a zoom-compensated width. Outside Paper a second stroke-only pass
/// follows, in the group's colour or the theme's outline stroke.
pub open spec fn group_paint_spec(mode: PreviewMode, has_root_color: bool) -> GroupPaint {
    GroupPaint {
        closed_style: match mode {
            PreviewMode::Paper => PaintStyle::Fill,
            PreviewMode::Outline => PaintStyle::Stroke,
            PreviewMode::Normal => PaintStyle::StrokeAndFill,
        },
        color: if has_root_color {
            GroupColor::Root
        } else {
            match mode {
                PreviewMode::Paper => GroupColor::PaperFill,
                PreviewMode::Outline => GroupColor::Unset,
                PreviewMode::Normal => GroupColor::OutlineFill,
            }
        },
        zoom_width: mode is Normal,
        emphasis: if mode is Paper {
            None
        } else if has_root_color {
            Some(GroupColor::Root)
        } else {
            Some(GroupColor::OutlineStroke)
        },
    }
}

/// Decides how a flushed group is painted.
pub fn group_paint(mode: PreviewMode, has_root_color: bool) -> (r: GroupPaint)
    ensures
        r == group_paint_spec(mode, has_root_color),
{
    let (closed_style, theme_color) = match mode {
        PreviewMode::Paper => (PaintStyle::Fill, GroupColor::PaperFill),
        PreviewMode::Outline => (PaintStyle::Stroke, GroupColor::Unset),
        PreviewMode::Normal => (PaintStyle::StrokeAndFill, GroupColor::OutlineFill),
    };
    let color = if has_root_color {
        GroupColor::Root
    } else {
        theme_color
    };
    let emphasis = if mode == PreviewMode::Paper {
        None
    } else if has_root_color {
        Some(GroupColor::Root)
    } else {
        Some(GroupColor::OutlineStroke)
    };
    GroupPaint { closed_style, color, zoom_width: mode == PreviewMode::Normal, emphasis }
}

} // verus!
