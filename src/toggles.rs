use vstd::prelude::*;

verus! {

/// What text is drawn next to each on-curve point.
#[derive(Clone, Copy, Debug, PartialEq, Eq, Structural)]
pub enum PointLabels {
    Off,
    Numbered,
    Locations,
}

/// Whether connector lines are drawn between a point and its handles.
#[derive(Clone, Copy, Debug, PartialEq, Eq, Structural)]
pub enum HandleStyle {
    Off,
    Handlebars,
}

/// The rendering style of the glyph outline.
#[derive(Clone, Copy, Debug, PartialEq, Eq, Structural)]
pub enum PreviewMode {
    /// Editing view: filled and stroked outline.
    Normal,
    /// Wireframe: stroke only.
    Outline,
    /// Final-appearance simulation: fill only, no decorations.
    Paper,
}

} // verus!
