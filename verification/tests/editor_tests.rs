use studio::editor::handle_point_dragging;
use studio::editor::handle_sticky_line_drawing;
use studio::editor::snap_to_screen_edge;
use studio::editor::export_lines;
use studio::editor::EditorState;
use studio::geometry::Line;
use studio::geometry::Point;
use studio::snap::find_closest_point;
use studio::snap::find_closest_point_for_drag;
use studio::snap::find_closest_point_excluding_multiple;
use studio::snap::get_all_matching_points;

fn pt(x: i32, y: i32) -> Point {
    Point { x, y }
}

fn line(ax: i32, ay: i32, bx: i32, by: i32) -> Line {
    Line { start: pt(ax, ay), end: pt(bx, by) }
}

#[test]
fn draw_undo_redo_round_trip() {
    // Draw a line from (0,0) to (100,0): length 100 exceeds the 2 x 10 = 20
    // unit minimum, so the store gains one line and the undo stack one entry.
    let mut state = EditorState::new();
    handle_sticky_line_drawing(&mut state, pt(0, 0), true, false);
    handle_sticky_line_drawing(&mut state, pt(100, 0), false, true);
    assert_eq!(state.lines.len(), 1);
    assert_eq!(state.lines[0], line(0, 0, 100, 0));
    assert_eq!(state.undo_stack.len(), 1);
    assert_eq!(state.redo_stack.len(), 0);

    state.undo();
    assert_eq!(state.lines.len(), 0);
    assert_eq!(state.undo_stack.len(), 0);
    assert_eq!(state.redo_stack.len(), 1);

    state.redo();
    assert_eq!(state.lines.len(), 1);
    assert_eq!(state.lines[0], line(0, 0, 100, 0));
    assert_eq!(state.undo_stack.len(), 1);
    assert_eq!(state.redo_stack.len(), 0);
}

#[test]
fn undo_then_redo_restores_pre_undo_store() {
    let mut state = EditorState::new();
    handle_sticky_line_drawing(&mut state, pt(0, 0), true, false);
    handle_sticky_line_drawing(&mut state, pt(100, 0), false, true);
    handle_sticky_line_drawing(&mut state, pt(0, 50), true, false);
    handle_sticky_line_drawing(&mut state, pt(200, 50), false, true);
    let before: Vec<Line> = state.lines.clone();
    state.undo();
    assert_ne!(state.lines, before);
    state.redo();
    assert_eq!(state.lines, before);
}

#[test]
fn new_checkpoint_clears_redo_branch() {
    let mut state = EditorState::new();
    handle_sticky_line_drawing(&mut state, pt(0, 0), true, false);
    handle_sticky_line_drawing(&mut state, pt(100, 0), false, true);
    state.undo();
    assert_eq!(state.redo_stack.len(), 1);
    // A fresh checkpointed mutation discards the redo branch.
    handle_sticky_line_drawing(&mut state, pt(0, 0), true, false);
    handle_sticky_line_drawing(&mut state, pt(0, 100), false, true);
    assert_eq!(state.redo_stack.len(), 0);
}

#[test]
fn undo_and_redo_on_empty_stacks_are_no_ops() {
    let mut state = EditorState::new();
    state.undo();
    assert_eq!(state.lines.len(), 0);
    assert_eq!(state.undo_stack.len(), 0);
    assert_eq!(state.redo_stack.len(), 0);
    state.redo();
    assert_eq!(state.lines.len(), 0);
    assert_eq!(state.undo_stack.len(), 0);
    assert_eq!(state.redo_stack.len(), 0);
}

#[test]
fn short_gesture_is_discarded_without_checkpoint() {
    // Anchor and end 10 apart: not beyond 2 x 10, so nothing is created and
    // nothing is checkpointed.
    let mut state = EditorState::new();
    handle_sticky_line_drawing(&mut state, pt(0, 0), true, false);
    handle_sticky_line_drawing(&mut state, pt(10, 0), false, true);
    assert_eq!(state.lines.len(), 0);
    assert_eq!(state.undo_stack.len(), 0);
    assert_eq!(state.current_start, None);
}

#[test]
fn gesture_exactly_at_threshold_is_discarded() {
    // Length exactly 20 is not strictly beyond 2 x 10.
    let mut state = EditorState::new();
    handle_sticky_line_drawing(&mut state, pt(0, 0), true, false);
    handle_sticky_line_drawing(&mut state, pt(20, 0), false, true);
    assert_eq!(state.lines.len(), 0);
    assert_eq!(state.undo_stack.len(), 0);

    handle_sticky_line_drawing(&mut state, pt(0, 0), true, false);
    handle_sticky_line_drawing(&mut state, pt(21, 0), false, true);
    assert_eq!(state.lines.len(), 1);
}

#[test]
fn creation_snap_resolves_anchor_to_existing_endpoint() {
    let mut state = EditorState::new();
    handle_sticky_line_drawing(&mut state, pt(0, 0), true, false);
    handle_sticky_line_drawing(&mut state, pt(100, 0), false, true);
    // Press within the sticky radius (10, strict) of (100,0): the anchor
    // snaps onto that endpoint exactly.
    handle_sticky_line_drawing(&mut state, pt(104, 3), true, false);
    assert_eq!(state.current_start, Some(pt(100, 0)));
    handle_sticky_line_drawing(&mut state, pt(100, 80), false, true);
    assert_eq!(state.lines.len(), 2);
    assert_eq!(state.lines[1], line(100, 0, 100, 80));
}

#[test]
fn closest_point_requires_strict_radius() {
    let lines = vec![line(0, 0, 100, 0)];
    // Distance exactly 10 is not strictly within the radius 10.
    assert_eq!(find_closest_point(pt(10, 0), &lines, 10), None);
    assert_eq!(find_closest_point(pt(9, 0), &lines, 10), Some(pt(0, 0)));
    // A non-positive radius admits nothing, even a coincident point.
    assert_eq!(find_closest_point(pt(0, 0), &lines, 0), None);
}

#[test]
fn closest_point_picks_smallest_and_first_on_tie() {
    let lines = vec![line(0, 0, 100, 0), line(8, 0, 100, 50)];
    // (8,0) is closer to (6,0) than (0,0) is.
    assert_eq!(find_closest_point(pt(6, 0), &lines, 10), Some(pt(8, 0)));
    // Exact tie between (0,0) and (8,0) at distance 4: the endpoint
    // encountered first in element order wins.
    assert_eq!(find_closest_point(pt(4, 0), &lines, 10), Some(pt(0, 0)));
}

#[test]
fn closest_point_for_drag_includes_boundary() {
    let lines = vec![line(0, 0, 100, 0)];
    // Distance exactly 5 is within the drag pick radius, boundary included.
    assert_eq!(find_closest_point_for_drag(pt(5, 0), &lines, 5), Some((0, true)));
    assert_eq!(find_closest_point_for_drag(pt(6, 0), &lines, 5), None);
    assert_eq!(find_closest_point_for_drag(pt(103, 4), &lines, 5), Some((0, false)));
}

#[test]
fn excluding_search_skips_coincident_points() {
    let lines = vec![line(0, 0, 100, 0), line(0, 0, 0, 100)];
    let exclude = vec![(0usize, true, pt(0, 0)), (1usize, true, pt(0, 0))];
    // Both copies of (0,0) are excluded; no other endpoint is in range.
    assert_eq!(
        find_closest_point_excluding_multiple(&lines, pt(2, 0), 10, &exclude),
        None
    );
    // Without the exclusion the same search finds (0,0).
    let nothing: Vec<(usize, bool, Point)> = Vec::new();
    assert_eq!(
        find_closest_point_excluding_multiple(&lines, pt(2, 0), 10, &nothing),
        Some(pt(0, 0))
    );
}

#[test]
fn matching_points_returns_every_coincident_endpoint() {
    // A point duplicated across two line endpoints: the group query returns
    // exactly both, tagged with their lines and endpoint flags.
    let lines = vec![line(5, 5, 100, 0), line(200, 0, 5, 5)];
    let group = get_all_matching_points(&lines, pt(5, 5), 1);
    assert_eq!(group, vec![(0usize, true, pt(5, 5)), (1usize, false, pt(5, 5))]);
}

#[test]
fn matching_points_with_tight_epsilon_excludes_neighbors() {
    let lines = vec![line(5, 5, 6, 5)];
    let group = get_all_matching_points(&lines, pt(5, 5), 1);
    assert_eq!(group, vec![(0usize, true, pt(5, 5))]);
}

#[test]
fn coincident_group_drags_together_without_self_snap() {
    // Two endpoints share (50,50); dragging the shared joint moves both by
    // the same delta, and neither snaps onto the other's old position.
    let mut state = EditorState::new();
    state.lines = vec![line(50, 50, 200, 50), line(50, 50, 50, 200)];
    handle_point_dragging(&mut state, pt(50, 50), true, true, false, 1000, 1000);
    assert_eq!(state.dragging_point, Some((0, true)));
    assert_eq!(state.drag_original_positions.len(), 2);
    handle_point_dragging(&mut state, pt(80, 90), false, true, false, 1000, 1000);
    assert_eq!(state.lines[0].start, pt(80, 90));
    assert_eq!(state.lines[1].start, pt(80, 90));
    assert_eq!(state.lines[0].end, pt(200, 50));
    assert_eq!(state.lines[1].end, pt(50, 200));
    handle_point_dragging(&mut state, pt(80, 90), false, false, true, 1000, 1000);
    assert_eq!(state.dragging_point, None);
    assert_eq!(state.drag_start_mouse_pos, None);
    assert_eq!(state.drag_original_positions.len(), 0);
}

#[test]
fn small_drag_does_not_snap_back_to_its_own_origin() {
    // Moving a joint by less than the snap radius: the excluded originals
    // are the nearest endpoints, but the snap must not collapse the drag
    // back onto them, so both points move by the exact delta.
    let mut state = EditorState::new();
    state.lines = vec![line(50, 50, 200, 50), line(50, 50, 50, 200)];
    handle_point_dragging(&mut state, pt(50, 50), true, true, false, 1000, 1000);
    handle_point_dragging(&mut state, pt(52, 50), false, true, false, 1000, 1000);
    assert_eq!(state.lines[0].start, pt(52, 50));
    assert_eq!(state.lines[1].start, pt(52, 50));
}

#[test]
fn matching_points_with_wider_epsilon_catches_neighbors() {
    let lines = vec![line(5, 5, 7, 5), line(5, 8, 50, 50)];
    // Strictly within 3 of (5,5): the start at distance 0 and the end at
    // distance 2; (5,8) sits at exactly 3 and stays out.
    let group = get_all_matching_points(&lines, pt(5, 5), 3);
    assert_eq!(group, vec![(0usize, true, pt(5, 5)), (0usize, false, pt(7, 5))]);
}

#[test]
fn drag_starts_with_checkpoint_and_is_one_undo_step() {
    let mut state = EditorState::new();
    state.lines = vec![line(50, 50, 200, 50)];
    handle_point_dragging(&mut state, pt(52, 50), true, true, false, 1000, 1000);
    assert_eq!(state.undo_stack.len(), 1);
    handle_point_dragging(&mut state, pt(90, 60), false, true, false, 1000, 1000);
    handle_point_dragging(&mut state, pt(90, 60), false, false, true, 1000, 1000);
    assert_eq!(state.undo_stack.len(), 1);
    state.undo();
    assert_eq!(state.lines[0], line(50, 50, 200, 50));
}

#[test]
fn drag_snaps_to_other_endpoint_then_edge() {
    // Dragging (0,50)'s endpoint close to (100,3): the drag-time snap picks
    // that endpoint, then the edge clamp pulls y = 3 to the top border.
    let mut state = EditorState::new();
    state.lines = vec![line(0, 50, 300, 50), line(100, 3, 300, 100)];
    handle_point_dragging(&mut state, pt(0, 50), true, true, false, 640, 480);
    handle_point_dragging(&mut state, pt(98, 5), false, true, false, 640, 480);
    assert_eq!(state.lines[0].start, pt(100, 0));
}

#[test]
fn snap_to_screen_edge_clamps_each_axis() {
    assert_eq!(snap_to_screen_edge(pt(3, 97), 5, 100, 100), pt(0, 100));
    assert_eq!(snap_to_screen_edge(pt(50, 50), 5, 100, 100), pt(50, 50));
    assert_eq!(snap_to_screen_edge(pt(98, 4), 5, 100, 100), pt(100, 0));
    // Distance exactly the threshold does not clamp.
    assert_eq!(snap_to_screen_edge(pt(5, 95), 5, 100, 100), pt(5, 95));
}

#[test]
fn export_deduplicates_undirected_pairs() {
    // The same undirected line fed twice, once reversed, exports once.
    let lines = vec![line(0, 0, 100, 0), line(100, 0, 0, 0)];
    let unique = export_lines(&lines);
    assert_eq!(unique, vec![line(0, 0, 100, 0)]);
}

#[test]
fn export_keeps_distinct_lines_in_first_appearance_order() {
    let lines = vec![
        line(0, 0, 100, 0),
        line(0, 0, 0, 100),
        line(0, 0, 100, 0),
        line(0, 100, 0, 0),
    ];
    let unique = export_lines(&lines);
    assert_eq!(unique, vec![line(0, 0, 100, 0), line(0, 0, 0, 100)]);
}

#[test]
fn export_is_idempotent() {
    let lines = vec![line(0, 0, 100, 0), line(100, 0, 0, 0), line(5, 5, 50, 50)];
    let once = export_lines(&lines);
    let twice = export_lines(&once);
    assert_eq!(once, twice);
}
