use glifrenderer::cache::{LabelCache, LABEL_CACHE_LIMIT};
use glifrenderer::constants::GUIDELINE_STROKE;
use glifrenderer::glyph::{
    closed_after_op, composite_plan, group_paint, ClosedUpdate, CompositeStep, GroupColor,
    LayerInfo, LayerOperation, PaintStyle,
};
use glifrenderer::grid::{first_line, grid_line_positions};
use glifrenderer::guidelines::{guideline_color, guideline_label, visible_segment, LabelAnchor};
use glifrenderer::string::{
    alignment_shift_halves, darken_label_color, size_follows_zoom, Alignment, AutoSizeMode,
    VerticalAlignment,
};
use glifrenderer::toggles::PreviewMode;

fn layer(visible: bool, operation: Option<LayerOperation>) -> LayerInfo {
    LayerInfo { visible, operation }
}

#[test]
fn single_layer_plan() {
    let plan = composite_plan(&vec![layer(true, None)]);
    assert_eq!(plan, vec![CompositeStep::Add { layer: 0 }, CompositeStep::Flush { color_layer: 0 }]);
    let paint = group_paint(PreviewMode::Normal, false);
    assert_eq!(paint.closed_style, PaintStyle::StrokeAndFill);
    assert_eq!(paint.color, GroupColor::OutlineFill);
    assert!(paint.zoom_width);
    assert_eq!(paint.emphasis, Some(GroupColor::OutlineStroke));
}

#[test]
fn difference_layer_joins_its_group() {
    let plan = composite_plan(&vec![layer(true, None), layer(true, Some(LayerOperation::Difference))]);
    assert_eq!(
        plan,
        vec![
            CompositeStep::Add { layer: 0 },
            CompositeStep::Combine { layer: 1, op: LayerOperation::Difference },
            CompositeStep::Flush { color_layer: 0 },
        ]
    );
}

#[test]
fn plain_layers_start_groups() {
    let plan = composite_plan(&vec![
        layer(true, None),
        layer(false, None),
        layer(true, Some(LayerOperation::Union)),
        layer(true, None),
        layer(true, Some(LayerOperation::Xor)),
    ]);
    assert_eq!(
        plan,
        vec![
            CompositeStep::Add { layer: 0 },
            CompositeStep::Combine { layer: 2, op: LayerOperation::Union },
            CompositeStep::Flush { color_layer: 0 },
            CompositeStep::Add { layer: 3 },
            CompositeStep::Combine { layer: 4, op: LayerOperation::Xor },
            CompositeStep::Flush { color_layer: 3 },
        ]
    );
    assert_eq!(composite_plan(&vec![]), vec![CompositeStep::Flush { color_layer: 0 }]);
    let plan = composite_plan(&vec![layer(false, None), layer(true, None)]);
    assert_eq!(
        plan,
        vec![
            CompositeStep::Flush { color_layer: 0 },
            CompositeStep::Add { layer: 1 },
            CompositeStep::Flush { color_layer: 1 },
        ]
    );
}

#[test]
fn failed_operation_falls_back_to_append() {
    assert_eq!(closed_after_op::<u32>(None), ClosedUpdate::AppendUnmodified);
    assert_eq!(closed_after_op(Some(7u32)), ClosedUpdate::Replace(7));
}

#[test]
fn group_paint_by_mode() {
    let paper = group_paint(PreviewMode::Paper, false);
    assert_eq!(paper.closed_style, PaintStyle::Fill);
    assert_eq!(paper.color, GroupColor::PaperFill);
    assert_eq!(paper.emphasis, None);
    assert!(!paper.zoom_width);
    let outline = group_paint(PreviewMode::Outline, false);
    assert_eq!(outline.closed_style, PaintStyle::Stroke);
    assert_eq!(outline.color, GroupColor::Unset);
    assert_eq!(outline.emphasis, Some(GroupColor::OutlineStroke));
    let tinted = group_paint(PreviewMode::Normal, true);
    assert_eq!(tinted.color, GroupColor::Root);
    assert_eq!(tinted.emphasis, Some(GroupColor::Root));
    assert_eq!(group_paint(PreviewMode::Paper, true).color, GroupColor::Root);
}

#[test]
fn grid_first_line() {
    assert_eq!(first_line(10, 30), 30);
    assert_eq!(first_line(30, 30), 30);
    assert_eq!(first_line(0, 30), 0);
    assert_eq!(first_line(-10, 30), 0);
    assert_eq!(first_line(-31, 30), -30);
}

#[test]
fn grid_positions_are_evenly_spaced() {
    assert_eq!(grid_line_positions(10, 100, 30), vec![30, 60, 90, 120]);
    assert_eq!(grid_line_positions(-45, 60, 30), vec![-30, 0]);
    assert_eq!(grid_line_positions(0, 0, 30), Vec::<i64>::new());
    let lines = grid_line_positions(-1234, 1000, 25);
    for w in lines.windows(2) {
        assert_eq!(w[1] - w[0], 25);
    }
}

#[test]
fn grid_pattern_repeats_after_one_spacing() {
    let a = grid_line_positions(17, 500, 30);
    let b = grid_line_positions(47, 500, 30);
    assert_eq!(a.len(), b.len());
    for (x, y) in a.iter().zip(b.iter()) {
        assert_eq!(*y, *x + 30);
        assert_eq!(*y - 47, *x - 17);
    }
}

#[test]
fn guideline_segment_from_crossings() {
    // A 45 degree line through the origin and the square (-100,-100)-(100,100):
    // it crosses the bottom and left edges at one corner, the top and right at
    // the other.
    let seg = visible_segment(Some((-100, -100)), Some((100, 100)), Some((100, 100)), Some((-100, -100)));
    assert_eq!(seg, Some(((-100, -100), (100, 100))));
    // A horizontal line crosses only the left and right edges.
    let seg = visible_segment(None, None, Some((100, 5)), Some((-100, 5)));
    assert_eq!(seg, Some(((100, 5), (-100, 5))));
    assert_eq!(visible_segment(None, Some((1, 2)), None, None), None);
    assert_eq!(visible_segment::<(i32, i32)>(None, None, None, None), None);
}

#[test]
fn guideline_label_placement() {
    let l = guideline_label(true, true, true);
    assert_eq!(l.vertical, VerticalAlignment::Top);
    assert_eq!(l.alignment, Alignment::Left);
    assert_eq!(l.anchor, LabelAnchor::Sliding);
    let l = guideline_label(false, true, false);
    assert_eq!(l.vertical, VerticalAlignment::Bottom);
    assert_eq!(l.alignment, Alignment::Right);
    assert_eq!(l.anchor, LabelAnchor::AtCrossing);
    assert_eq!(guideline_color(None), GUIDELINE_STROKE);
    assert_eq!(guideline_color(Some(0x99_007d7d)), 0x99_007d7d);
}

#[test]
fn label_size_and_alignment() {
    assert!(!size_follows_zoom(AutoSizeMode::Full, true));
    assert!(!size_follows_zoom(AutoSizeMode::Full, false));
    assert!(size_follows_zoom(AutoSizeMode::OnlySmaller, true));
    assert!(!size_follows_zoom(AutoSizeMode::OnlySmaller, false));
    assert!(size_follows_zoom(AutoSizeMode::Off, false));
    assert_eq!(alignment_shift_halves(Alignment::Left), 0);
    assert_eq!(alignment_shift_halves(Alignment::Center), 1);
    assert_eq!(alignment_shift_halves(Alignment::Right), 2);
}

#[test]
fn point_name_colour_is_darkened() {
    assert_eq!(darken_label_color(0xff_0000A0), 0xff_000050);
    assert_eq!(darken_label_color(0x80_ff7e01), 0x80_7f3f00);
    assert_eq!(darken_label_color(0xff_00B050), 0xff_005828);
}

#[test]
fn label_cache_keeps_and_replaces() {
    let mut cache: LabelCache<u32> = LabelCache::new();
    assert_eq!(cache.len(), 0);
    let hello = String::from("hello");
    cache.insert(14, hello.clone(), 1);
    cache.insert(15, hello.clone(), 2);
    assert_eq!(cache.get(14, &hello), Some(&1));
    assert_eq!(cache.get(15, &hello), Some(&2));
    assert_eq!(cache.get(14, &String::from("world")), None);
    cache.insert(14, hello.clone(), 3);
    assert_eq!(cache.get(14, &hello), Some(&3));
    assert_eq!(cache.len(), 2);
    cache.clear();
    assert_eq!(cache.len(), 0);
    assert_eq!(cache.get(14, &hello), None);
}

#[test]
fn label_cache_is_bounded() {
    let mut cache: LabelCache<usize> = LabelCache::new();
    for i in 0..LABEL_CACHE_LIMIT {
        cache.insert(i as u32, String::new(), i);
    }
    assert_eq!(cache.len(), LABEL_CACHE_LIMIT);
    // A known key does not empty a full cache.
    cache.insert(5, String::new(), 50);
    assert_eq!(cache.len(), LABEL_CACHE_LIMIT);
    assert_eq!(cache.get(5, &String::new()), Some(&50));
    // A new one does.
    cache.insert(u32::MAX, String::from("x"), 1);
    assert_eq!(cache.len(), 1);
    assert_eq!(cache.get(5, &String::new()), None);
    assert_eq!(cache.get(u32::MAX, &String::from("x")), Some(&1));
}
