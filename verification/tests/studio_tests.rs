use studio::geometry::Point;
use studio::geometry::isqrt64;
use studio::studio_buttons::StudioButtons;
use studio::studio_element::Rgba;
use studio::studio_element::StudioElement;
use studio::studio_element::StudioValues;
use studio::studio_elements::StudioElements;
use studio::studio_elements::element_guides;
use studio::studio_elements::find_circle_at;
use studio::studio_elements::highlight;
use studio::studio_state::drag_circle;
use studio::studio_state::StudioState;

fn pt(x: i32, y: i32) -> Point {
    Point { x, y }
}

fn gray() -> Rgba {
    Rgba { r: 128, g: 128, b: 128, a: 255 }
}

fn circle_element(cx: i32, cy: i32, radius: i32) -> StudioElement {
    StudioElement::new(
        StudioElements::Circle,
        StudioValues::Circle { center: pt(cx, cy), radius },
        gray(),
    )
}

#[test]
fn isqrt_exact_values() {
    assert_eq!(isqrt64(0), 0);
    assert_eq!(isqrt64(1), 1);
    assert_eq!(isqrt64(24), 4);
    assert_eq!(isqrt64(25), 5);
    assert_eq!(isqrt64(26), 5);
    assert_eq!(isqrt64(u64::MAX), 4294967295);
}

#[test]
fn derived_line_and_circle() {
    let e = StudioElements::element(StudioElements::Line, gray(), 3, pt(1, 2), pt(30, 40));
    assert_eq!(
        e.value,
        StudioValues::Line { point_a: pt(1, 2), point_b: pt(30, 40), thickness: 3 }
    );
    assert_eq!(e.element, StudioElements::Line);

    // Radius is the floor of the Euclidean distance: 3-4-5 triangle.
    let c = StudioElements::element(StudioElements::Circle, gray(), 3, pt(10, 10), pt(13, 14));
    assert_eq!(c.value, StudioValues::Circle { center: pt(10, 10), radius: 5 });
    // A non-square distance floors: (1,1) offset has distance sqrt(2).
    let c2 = StudioElements::element(StudioElements::Circle, gray(), 3, pt(0, 0), pt(1, 1));
    assert_eq!(c2.value, StudioValues::Circle { center: pt(0, 0), radius: 1 });
}

#[test]
fn derived_ellipse_rectangle_triangle() {
    let e = StudioElements::element(StudioElements::Ellipse, gray(), 1, pt(50, 60), pt(20, 100));
    assert_eq!(
        e.value,
        StudioValues::Ellipse { center: pt(50, 60), width: 30, height: 40, rotation: 0 }
    );

    let r = StudioElements::element(StudioElements::Rectangle, gray(), 1, pt(50, 60), pt(20, 100));
    assert_eq!(
        r.value,
        StudioValues::Rectangle { point: pt(20, 60), width: 30, height: 40, rotation: 0 }
    );

    let t = StudioElements::element(StudioElements::Triangle, gray(), 1, pt(10, 9), pt(100, 100));
    assert_eq!(
        t.value,
        StudioValues::Triangle { point_a: pt(10, 9), point_b: pt(100, 100), point_c: pt(10, 4) }
    );
    // The half-height companion floors for negative anchors too.
    let t2 = StudioElements::element(StudioElements::Triangle, gray(), 1, pt(10, -9), pt(100, 100));
    assert_eq!(
        t2.value,
        StudioValues::Triangle { point_a: pt(10, -9), point_b: pt(100, 100), point_c: pt(10, -5) }
    );
}

#[test]
fn draw_gesture_creates_element_and_checkpoint() {
    let mut state = StudioState::new();
    state.draw = true;
    state.element = StudioElements::Circle;
    StudioElements::actions(&mut state, pt(50, 50), true, false);
    assert_eq!(state.current, Some(pt(50, 50)));
    StudioElements::actions(&mut state, pt(80, 90), false, true);
    assert_eq!(state.stack.len(), 1);
    assert_eq!(state.stack[0].value, StudioValues::Circle { center: pt(50, 50), radius: 50 });
    assert_eq!(state.stack_undo.len(), 1);
    assert_eq!(state.current, None);
}

#[test]
fn short_studio_gesture_creates_nothing() {
    // Anchor to end distance 10 does not exceed the minimum of 10.
    let mut state = StudioState::new();
    state.draw = true;
    StudioElements::actions(&mut state, pt(50, 50), true, false);
    StudioElements::actions(&mut state, pt(60, 50), false, true);
    assert_eq!(state.stack.len(), 0);
    assert_eq!(state.stack_undo.len(), 0);
    assert_eq!(state.current, None);
}

#[test]
fn studio_undo_redo_round_trip() {
    let mut state = StudioState::new();
    state.draw = true;
    StudioElements::actions(&mut state, pt(0, 0), true, false);
    StudioElements::actions(&mut state, pt(100, 0), false, true);
    assert_eq!(state.stack.len(), 1);
    state.undo();
    assert_eq!(state.stack.len(), 0);
    assert_eq!(state.stack_redo.len(), 1);
    state.redo();
    assert_eq!(state.stack.len(), 1);
    assert_eq!(state.stack_undo.len(), 1);
}

#[test]
fn circle_drag_moves_center_by_exact_delta() {
    // Grab a circle of radius 20 at its center (50,50) and move the pointer
    // by (10,5): the center lands exactly on (60,55), radius untouched.
    let mut state = StudioState::new();
    state.stack = vec![circle_element(50, 50, 20)];
    StudioElements::actions(&mut state, pt(50, 50), true, false);
    assert!(state.drag);
    assert_eq!(state.drag_offset, Some(pt(0, 0)));
    drag_circle(&mut state, pt(60, 55));
    assert_eq!(state.stack[0].value, StudioValues::Circle { center: pt(60, 55), radius: 20 });
    StudioElements::actions(&mut state, pt(60, 55), false, true);
    assert!(!state.drag);
}

#[test]
fn circle_grab_keeps_pointer_offset() {
    let mut state = StudioState::new();
    state.stack = vec![circle_element(50, 50, 20)];
    StudioElements::actions(&mut state, pt(58, 44), true, false);
    assert_eq!(state.drag_offset, Some(pt(8, -6)));
    // The pointer stays inside the disk, so the drag tracks it: the center
    // follows the pointer minus the grab offset.
    drag_circle(&mut state, pt(60, 47));
    assert_eq!(state.stack[0].value, StudioValues::Circle { center: pt(52, 53), radius: 20 });
    // Once the pointer leaves every circle's disk nothing moves.
    drag_circle(&mut state, pt(120, 120));
    assert_eq!(state.stack[0].value, StudioValues::Circle { center: pt(52, 53), radius: 20 });
}

#[test]
fn circle_hit_test_is_first_match_in_store_order() {
    let stack = vec![
        circle_element(50, 50, 20),
        circle_element(55, 50, 30),
        circle_element(300, 300, 5),
    ];
    assert_eq!(find_circle_at(&stack, pt(55, 50)), Some(0));
    assert_eq!(find_circle_at(&stack, pt(80, 50)), Some(1));
    assert_eq!(find_circle_at(&stack, pt(200, 200)), None);
    // The disk boundary counts as a hit.
    assert_eq!(find_circle_at(&stack, pt(300, 305)), Some(2));
}

#[test]
fn press_outside_every_circle_grabs_nothing() {
    let mut state = StudioState::new();
    state.stack = vec![circle_element(50, 50, 20)];
    StudioElements::actions(&mut state, pt(90, 90), true, false);
    assert!(!state.drag);
    assert_eq!(state.drag_offset, None);
}

#[test]
fn shape_kind_labels() {
    assert_eq!(StudioElements::Line.text(), "LINE");
    assert_eq!(StudioElements::Circle.text(), "CIRCLE");
    assert_eq!(StudioElements::Ellipse.text(), "ELLIPSE");
    assert_eq!(StudioElements::Rectangle.text(), "RECTANGLE");
    assert_eq!(StudioElements::Triangle.text(), "TRIANGLE");
}

#[test]
fn button_labels() {
    assert_eq!(StudioButtons::Undo.text(), "UNDO");
    assert_eq!(StudioButtons::Redo.text(), "REDO");
    assert_eq!(StudioButtons::Help.text(), "HELP");
    assert_eq!(StudioButtons::Grid.text(), "GRID");
    assert_eq!(StudioButtons::Snap.text(), "SNAP");
    assert_eq!(StudioButtons::Color.text(), "COLOR");
    assert_eq!(StudioButtons::Hexagon.text(), "HEXAGON");
}

#[test]
fn button_of_each_shape_kind() {
    assert_eq!(StudioButtons::from(StudioElements::Line), StudioButtons::Line);
    assert_eq!(StudioButtons::from(StudioElements::Circle), StudioButtons::Circle);
    assert_eq!(StudioButtons::from(StudioElements::Ellipse), StudioButtons::Ellipse);
    assert_eq!(StudioButtons::from(StudioElements::Rectangle), StudioButtons::Rectangle);
    assert_eq!(StudioButtons::from(StudioElements::Triangle), StudioButtons::Triangle);
}

#[test]
fn tool_button_selects_kind_and_toggles_draw() {
    let mut state = StudioState::new();
    StudioButtons::apply(&mut state, StudioButtons::Circle);
    assert!(state.draw);
    assert_eq!(state.element, StudioElements::Circle);
    assert_eq!(state.button, Some(StudioButtons::Circle));
    // Pressing the active tool button again toggles draw mode off.
    StudioButtons::apply(&mut state, StudioButtons::Circle);
    assert!(!state.draw);
    StudioButtons::apply(&mut state, StudioButtons::Circle);
    assert!(state.draw);
}

#[test]
fn grid_button_cycles_four_levels() {
    let mut state = StudioState::new();
    for expected in [1u32, 2, 3, 0, 1] {
        StudioButtons::apply(&mut state, StudioButtons::Grid);
        assert_eq!(state.grid, expected);
    }
}

#[test]
fn snap_and_help_buttons_toggle() {
    let mut state = StudioState::new();
    StudioButtons::apply(&mut state, StudioButtons::Snap);
    assert!(state.snap);
    StudioButtons::apply(&mut state, StudioButtons::Snap);
    assert!(!state.snap);
    StudioButtons::apply(&mut state, StudioButtons::Help);
    assert!(state.help);
}

#[test]
fn undo_button_applies_undo() {
    let mut state = StudioState::new();
    state.draw = true;
    StudioElements::actions(&mut state, pt(0, 0), true, false);
    StudioElements::actions(&mut state, pt(100, 0), false, true);
    StudioButtons::apply(&mut state, StudioButtons::Undo);
    assert_eq!(state.stack.len(), 0);
    assert_eq!(state.button, Some(StudioButtons::Undo));
    StudioButtons::apply(&mut state, StudioButtons::Redo);
    assert_eq!(state.stack.len(), 1);
}

#[test]
fn unwired_buttons_change_nothing() {
    let mut state = StudioState::new();
    StudioButtons::apply(&mut state, StudioButtons::Arc);
    assert_eq!(state.button, None);
    assert!(!state.draw);
    StudioButtons::apply(&mut state, StudioButtons::Color);
    assert_eq!(state.button, None);
}

#[test]
fn line_endpoint_highlight_within_radius() {
    let e = StudioElement::new(
        StudioElements::Line,
        StudioValues::Line { point_a: pt(100, 100), point_b: pt(300, 100), thickness: 2 },
        gray(),
    );
    assert!(highlight(&e, pt(106, 108)));
    assert!(highlight(&e, pt(300, 110)));
    assert!(!highlight(&e, pt(200, 100)));
}

#[test]
fn circle_extrema_highlight() {
    let e = circle_element(100, 100, 50);
    assert!(highlight(&e, pt(100, 100)));
    assert!(highlight(&e, pt(100, 155)));
    assert!(highlight(&e, pt(48, 100)));
    assert!(!highlight(&e, pt(135, 135)));
}

#[test]
fn rectangle_corner_highlight() {
    let e = StudioElement::new(
        StudioElements::Rectangle,
        StudioValues::Rectangle { point: pt(100, 100), width: 60, height: 40, rotation: 0 },
        gray(),
    );
    // Corners sit at (100 +- 30, 100 +- 20) around the anchor.
    assert!(highlight(&e, pt(130, 120)));
    assert!(highlight(&e, pt(70, 80)));
    assert!(highlight(&e, pt(100, 100)));
    assert!(!highlight(&e, pt(150, 150)));
}

#[test]
fn ellipse_and_triangle_have_no_highlight_features() {
    let e = StudioElement::new(
        StudioElements::Ellipse,
        StudioValues::Ellipse { center: pt(100, 100), width: 40, height: 20, rotation: 0 },
        gray(),
    );
    assert!(!highlight(&e, pt(100, 100)));
    let t = StudioElement::new(
        StudioElements::Triangle,
        StudioValues::Triangle { point_a: pt(0, 0), point_b: pt(50, 0), point_c: pt(0, 25) },
        gray(),
    );
    assert!(!highlight(&t, pt(0, 0)));
}

#[test]
fn guides_list_aligned_feature_coordinates() {
    let e = StudioElement::new(
        StudioElements::Line,
        StudioValues::Line { point_a: pt(100, 100), point_b: pt(300, 200), thickness: 2 },
        gray(),
    );
    // Pointer x aligns with the first endpoint only; y with the second only.
    let g = element_guides(&e, pt(105, 195), true);
    assert_eq!(g.xs, vec![100]);
    assert_eq!(g.ys, vec![200]);
    // Alignment is strict: a difference of exactly 10 draws no guide.
    let g2 = element_guides(&e, pt(110, 210), true);
    assert_eq!(g2.xs, Vec::<i64>::new());
    assert_eq!(g2.ys, Vec::<i64>::new());
}

#[test]
fn guides_for_circle_features() {
    let e = circle_element(100, 100, 50);
    let g = element_guides(&e, pt(100, 100), true);
    assert_eq!(g.xs, vec![100]);
    assert_eq!(g.ys, vec![100]);
    let g2 = element_guides(&e, pt(148, 55), true);
    assert_eq!(g2.xs, vec![150]);
    assert_eq!(g2.ys, vec![50]);
}

#[test]
fn guides_are_empty_when_snap_is_off() {
    let e = circle_element(100, 100, 50);
    let g = element_guides(&e, pt(100, 100), false);
    assert_eq!(g.xs, Vec::<i64>::new());
    assert_eq!(g.ys, Vec::<i64>::new());
}

#[test]
fn export_collects_and_deduplicates_store_lines() {
    let mut state = StudioState::new();
    let mk = |a: Point, b: Point| {
        StudioElement::new(
            StudioElements::Line,
            StudioValues::Line { point_a: a, point_b: b, thickness: 2 },
            gray(),
        )
    };
    state.stack = vec![
        mk(pt(0, 0), pt(100, 0)),
        circle_element(50, 50, 20),
        mk(pt(100, 0), pt(0, 0)),
        mk(pt(0, 0), pt(0, 100)),
    ];
    let exported = state.export();
    assert_eq!(exported.len(), 2);
    assert_eq!(exported[0].start, pt(0, 0));
    assert_eq!(exported[0].end, pt(100, 0));
    assert_eq!(exported[1].start, pt(0, 0));
    assert_eq!(exported[1].end, pt(0, 100));
}
