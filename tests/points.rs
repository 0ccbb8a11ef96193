use glifrenderer::constants::{
    DIRECTION_FILL, DIRECTION_STROKE, HANDLEBAR_STROKE, HANDLE_FILL, HANDLE_STROKE,
    POINT_ONE_FILL, POINT_ONE_STROKE, POINT_SQUARE_FILL, POINT_SQUARE_STROKE, POINT_TWO_FILL,
    POINT_TWO_STROKE, SELECTED_DIRECTION_FILL, SELECTED_DIRECTION_STROKE,
    SELECTED_HANDLEBAR_STROKE, SELECTED_HANDLE_FILL, SELECTED_HANDLE_STROKE,
    SELECTED_POINT_ONE_FILL, SELECTED_POINT_ONE_STROKE, SELECTED_POINT_SQUARE_FILL,
    SELECTED_POINT_SQUARE_STROKE, SELECTED_POINT_TWO_FILL, SELECTED_POINT_TWO_STROKE,
};
use glifrenderer::points::{
    direction_contours, get_fill_and_stroke, get_handle_stroke_fill, get_point_stroke_fill,
    handlebar_color, handlebar_vertices, is_selected, labels_visible, plan_points, point_marker,
    ContourShape, HandleKind, MarkerShape, PointShape, UIPointType,
};
use glifrenderer::toggles::{HandleStyle, PreviewMode};

fn corner() -> PointShape {
    PointShape { handle_a: HandleKind::Colocated, handle_b: HandleKind::Colocated, smooth: false }
}

fn curve(smooth: bool) -> PointShape {
    PointShape { handle_a: HandleKind::At, handle_b: HandleKind::At, smooth }
}

#[test]
fn point_palette_round_and_square() {
    assert_eq!(get_point_stroke_fill(true, false), (POINT_ONE_FILL, POINT_ONE_STROKE));
    assert_eq!(get_point_stroke_fill(true, true), (SELECTED_POINT_ONE_FILL, SELECTED_POINT_ONE_STROKE));
    assert_eq!(get_point_stroke_fill(false, false), (POINT_SQUARE_FILL, POINT_SQUARE_STROKE));
    assert_eq!(
        get_point_stroke_fill(false, true),
        (SELECTED_POINT_SQUARE_FILL, SELECTED_POINT_SQUARE_STROKE)
    );
    assert_eq!(get_point_stroke_fill(false, false), (0xff_00E040, 0xff_00B050));
}

#[test]
fn handle_palette() {
    assert_eq!(get_handle_stroke_fill(false), (HANDLE_FILL, HANDLE_STROKE));
    assert_eq!(get_handle_stroke_fill(true), (SELECTED_HANDLE_FILL, SELECTED_HANDLE_STROKE));
    assert_eq!(get_handle_stroke_fill(true), (0xff_FFD040, 0xff_FFC040));
    assert_eq!(handlebar_color(false), HANDLEBAR_STROKE);
    assert_eq!(handlebar_color(true), SELECTED_HANDLEBAR_STROKE);
}

#[test]
fn palette_by_marker_kind() {
    assert_eq!(get_fill_and_stroke(UIPointType::Handle, false), (HANDLE_FILL, HANDLE_STROKE));
    assert_eq!(get_fill_and_stroke(UIPointType::Direction, false), (DIRECTION_FILL, DIRECTION_STROKE));
    assert_eq!(
        get_fill_and_stroke(UIPointType::Direction, true),
        (SELECTED_DIRECTION_FILL, SELECTED_DIRECTION_STROKE)
    );
    assert_eq!(
        get_fill_and_stroke(UIPointType::Point(HandleKind::Colocated, HandleKind::Colocated), false),
        (POINT_SQUARE_FILL, POINT_SQUARE_STROKE)
    );
    assert_eq!(
        get_fill_and_stroke(UIPointType::Point(HandleKind::At, HandleKind::Colocated), false),
        (POINT_ONE_FILL, POINT_ONE_STROKE)
    );
    assert_eq!(
        get_fill_and_stroke(UIPointType::Point(HandleKind::Colocated, HandleKind::At), true),
        (SELECTED_POINT_ONE_FILL, SELECTED_POINT_ONE_STROKE)
    );
    assert_eq!(get_fill_and_stroke(UIPointType::Point(HandleKind::At, HandleKind::At), false), (POINT_TWO_FILL, POINT_TWO_STROKE));
    assert_eq!(
        get_fill_and_stroke(UIPointType::Point(HandleKind::At, HandleKind::At), true),
        (SELECTED_POINT_TWO_FILL, SELECTED_POINT_TWO_STROKE)
    );
}

#[test]
fn marker_shapes() {
    let m = point_marker(HandleKind::At, HandleKind::At, true, false, HandleStyle::Handlebars);
    assert_eq!(m.shape, MarkerShape::Round);
    assert_eq!(m.line_color, POINT_ONE_STROKE);
    assert_eq!(m.name_color, POINT_ONE_FILL);
    assert!(m.draw_handle_a && m.draw_handle_b);
    let m = point_marker(HandleKind::At, HandleKind::At, false, true, HandleStyle::Handlebars);
    assert_eq!(m.shape, MarkerShape::Cross);
    assert_eq!(m.line_color, SELECTED_POINT_ONE_STROKE);
    let m = point_marker(HandleKind::At, HandleKind::Colocated, true, false, HandleStyle::Handlebars);
    assert_eq!(m.shape, MarkerShape::Square);
    assert_eq!(m.line_color, POINT_SQUARE_STROKE);
    assert!(m.draw_handle_a && !m.draw_handle_b);
    let m = point_marker(HandleKind::At, HandleKind::At, true, false, HandleStyle::Off);
    assert!(!m.draw_handle_a && !m.draw_handle_b);
}

#[test]
fn square_contour_scenario() {
    // One closed square contour of four corner points, nothing selected.
    let square = ContourShape { open: false, points: vec![corner(), corner(), corner(), corner()] };
    let plan = plan_points(&vec![square], HandleStyle::Handlebars, &vec![], None, None, false);
    assert_eq!(plan.len(), 1);
    assert_eq!(plan[0].len(), 4);
    for (i, p) in plan[0].iter().enumerate() {
        assert_eq!(p.marker.shape, MarkerShape::Square);
        assert!(!p.marker.draw_handle_a && !p.marker.draw_handle_b);
        assert!(p.drawn);
        assert!(!p.selected);
        // A closed contour does not advance the count where it starts.
        assert_eq!(p.number, i as isize - 1);
    }
}

#[test]
fn label_numbers_run_over_contours() {
    let open = ContourShape {
        open: true,
        points: vec![
            corner(),
            PointShape { handle_a: HandleKind::Colocated, handle_b: HandleKind::At, smooth: false },
            corner(),
        ],
    };
    let closed = ContourShape { open: false, points: vec![curve(true), corner()] };
    let plan = plan_points(&vec![open, closed], HandleStyle::Off, &vec![], None, None, false);
    let numbers: Vec<Vec<isize>> =
        plan.iter().map(|row| row.iter().map(|p| p.number).collect()).collect();
    assert_eq!(numbers, vec![vec![0, 2, 4], vec![6, 8]]);
    assert!(plan.iter().flatten().all(|p| !p.handlebars));
}

#[test]
fn selection_and_hover() {
    let sel = vec![(0usize, 1usize), (2, 0)];
    assert!(is_selected(&sel, None, None, 0, 1));
    assert!(!is_selected(&sel, None, None, 1, 0));
    assert!(is_selected(&sel, Some(1), Some(0), 1, 0));
    assert!(!is_selected(&sel, Some(1), None, 1, 0));
    let contour = ContourShape { open: false, points: vec![corner(), corner()] };
    let plan =
        plan_points(&vec![contour], HandleStyle::Handlebars, &vec![(0, 1)], Some(0), Some(0), true);
    assert!(plan[0][0].selected && plan[0][0].drawn && plan[0][0].handlebars);
    assert_eq!(plan[0][1].marker.line_color, SELECTED_POINT_SQUARE_STROKE);
    let plan = plan_points(
        &vec![ContourShape { open: false, points: vec![corner(), corner()] }],
        HandleStyle::Handlebars,
        &vec![(0, 1)],
        None,
        None,
        true,
    );
    assert!(!plan[0][0].drawn && !plan[0][0].handlebars);
    assert!(plan[0][1].drawn);
}

#[test]
fn direction_markers_follow_selection() {
    let empty = vec![false, true, false];
    assert_eq!(direction_contours(&empty, &vec![], false), vec![true, false, true]);
    assert_eq!(direction_contours(&empty, &vec![(2, 5)], true), vec![false, false, true]);
}

#[test]
fn handlebars_skip_colocated_handles() {
    assert_eq!(handlebar_vertices(Some((1, 2)), (3, 4), Some((5, 6))), vec![(1, 2), (3, 4), (5, 6)]);
    assert_eq!(handlebar_vertices(None, (3, 4), Some((5, 6))), vec![(3, 4), (5, 6)]);
    assert_eq!(handlebar_vertices(Some((1, 2)), (3, 4), None), vec![(1, 2), (3, 4)]);
    assert_eq!(handlebar_vertices::<(i32, i32)>(None, (3, 4), None), vec![(3, 4)]);
}

#[test]
fn labels_hidden_on_paper() {
    assert!(labels_visible(PreviewMode::Normal));
    assert!(labels_visible(PreviewMode::Outline));
    assert!(!labels_visible(PreviewMode::Paper));
}
