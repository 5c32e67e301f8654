//! The line editor: its state, the sticky line-drawing gesture, the
//! coincident-group point drag, and the undirected deduplication used by the
//! export boundary.
//!
//! Every mutating operation is specified as a function on [`EditorModel`],
//! the mathematical image of the state, and each handler's contract says
//! that the new state's model is exactly that function of the old one.

use vstd::prelude::*;

use crate::geometry::Line;
use crate::geometry::Point;
use crate::geometry::MATCH_EPSILON;
use crate::history::HistoryModel;
use crate::history::snapshot;
use crate::history::stack_model;

verus! {

/// The mathematical image of an [`EditorState`].
#[verifier::ext_equal]
pub struct EditorModel {
    pub lines: Seq<Line>,
    pub current_start: Option<Point>,
    pub sticky_radius: int,
    pub dragging_point: Option<(usize, bool)>,
    pub drag_start_mouse_pos: Option<Point>,
    pub drag_original_positions: Seq<(usize, bool, Point)>,
    pub undo_stack: Seq<Seq<Line>>,
    pub redo_stack: Seq<Seq<Line>>,
    pub show_points: bool,
}

impl EditorModel {
    /// The history-manager view of the editor: live lines plus both stacks.
    pub open spec fn hist(self) -> HistoryModel<Line> {
        HistoryModel { current: self.lines, undo: self.undo_stack, redo: self.redo_stack }
    }

    /// Rebuilds the editor model around a history-manager state.
    pub open spec fn with_hist(self, h: HistoryModel<Line>) -> EditorModel {
        EditorModel { lines: h.current, undo_stack: h.undo, redo_stack: h.redo, ..self }
    }
}

/// The editor session: live lines, the in-flight gesture, and history.
pub struct EditorState {
    pub lines: Vec<Line>,
    pub current_start: Option<Point>,
    pub sticky_radius: i32,
    pub dragging_point: Option<(usize, bool)>,
    pub drag_start_mouse_pos: Option<Point>,
    pub drag_original_positions: Vec<(usize, bool, Point)>,
    pub undo_stack: Vec<Vec<Line>>,
    pub redo_stack: Vec<Vec<Line>>,
    pub show_points: bool,
}

impl EditorState {
    /// The mathematical image of this state.
    pub open spec fn model(&self) -> EditorModel {
        EditorModel {
            lines: self.lines@,
            current_start: self.current_start,
            sticky_radius: self.sticky_radius as int,
            dragging_point: self.dragging_point,
            drag_start_mouse_pos: self.drag_start_mouse_pos,
            drag_original_positions: self.drag_original_positions@,
            undo_stack: stack_model(self.undo_stack),
            redo_stack: stack_model(self.redo_stack),
            show_points: self.show_points,
        }
    }

    /// A fresh session: no lines, no gesture, empty history, snap radius 10,
    /// control points shown.
    pub fn new() -> (r: EditorState)
        ensures
            r.model() == (EditorModel {
                lines: Seq::empty(),
                current_start: None,
                sticky_radius: 10,
                dragging_point: None,
                drag_start_mouse_pos: None,
                drag_original_positions: Seq::empty(),
                undo_stack: Seq::empty(),
                redo_stack: Seq::empty(),
                show_points: true,
            }),
    {
        let r = EditorState {
            lines: Vec::new(),
            current_start: None,
            sticky_radius: 10,
            dragging_point: None,
            drag_start_mouse_pos: None,
            drag_original_positions: Vec::new(),
            undo_stack: Vec::new(),
            redo_stack: Vec::new(),
            show_points: true,
        };
        proof {
            assert(r.model() =~~= (EditorModel {
                lines: Seq::empty(),
                current_start: None,
                sticky_radius: 10,
                dragging_point: None,
                drag_start_mouse_pos: None,
                drag_original_positions: Seq::empty(),
                undo_stack: Seq::empty(),
                redo_stack: Seq::empty(),
                show_points: true,
            }));
        }
        r
    }

    /// Checkpoint: push a snapshot of the live lines onto the undo stack and
    /// clear the redo stack; everything else is untouched.
    pub fn save_history(&mut self)
        ensures
            final(self).model() == old(self).model().with_hist(
                old(self).model().hist().checkpoint_step(),
            ),
    {
        let copy = snapshot(&self.lines);
        self.undo_stack.push(copy);
        self.redo_stack = Vec::new();
        proof {
            assert(stack_model(self.undo_stack) =~~= old(self).model().undo_stack.push(
                old(self).lines@,
            ));
            assert(stack_model(self.redo_stack) =~~= Seq::<Seq<Line>>::empty());
            assert(self.model() =~~= old(self).model().with_hist(
                old(self).model().hist().checkpoint_step(),
            ));
        }
    }

    /// Undo: restore the most recent snapshot, parking the live lines on the
    /// redo stack; a no-op when the undo stack is empty.
    pub fn undo(&mut self)
        ensures
            final(self).model() == old(self).model().with_hist(
                old(self).model().hist().undo_step(),
            ),
    {
        let popped = self.undo_stack.pop();
        match popped {
            Some(previous) => {
                let copy = snapshot(&self.lines);
                self.redo_stack.push(copy);
                self.lines = previous;
                proof {
                    assert(stack_model(self.undo_stack) =~~= old(
                        self,
                    ).model().undo_stack.drop_last());
                    assert(stack_model(self.redo_stack) =~~= old(self).model().redo_stack.push(
                        old(self).lines@,
                    ));
                    assert(self.lines@ == old(self).model().undo_stack.last());
                    assert(self.model() =~~= old(self).model().with_hist(
                        old(self).model().hist().undo_step(),
                    ));
                }
            },
            None => {
                proof {
                    assert(stack_model(self.undo_stack) =~~= old(self).model().undo_stack);
                    assert(self.model() =~~= old(self).model().with_hist(
                        old(self).model().hist().undo_step(),
                    ));
                }
            },
        }
    }

    /// Redo: symmetric to [`EditorState::undo`]; a no-op when the redo stack
    /// is empty.
    pub fn redo(&mut self)
        ensures
            final(self).model() == old(self).model().with_hist(
                old(self).model().hist().redo_step(),
            ),
    {
        let popped = self.redo_stack.pop();
        match popped {
            Some(next) => {
                let copy = snapshot(&self.lines);
                self.undo_stack.push(copy);
                self.lines = next;
                proof {
                    assert(stack_model(self.redo_stack) =~~= old(
                        self,
                    ).model().redo_stack.drop_last());
                    assert(stack_model(self.undo_stack) =~~= old(self).model().undo_stack.push(
                        old(self).lines@,
                    ));
                    assert(self.lines@ == old(self).model().redo_stack.last());
                    assert(self.model() =~~= old(self).model().with_hist(
                        old(self).model().hist().redo_step(),
                    ));
                }
            },
            None => {
                proof {
                    assert(stack_model(self.redo_stack) =~~= old(self).model().redo_stack);
                    assert(self.model() =~~= old(self).model().with_hist(
                        old(self).model().hist().redo_step(),
                    ));
                }
            },
        }
    }
}

/// Where a pointer position lands after creation-time snapping: the closest
/// endpoint strictly within the radius, or the raw position when none is.
pub open spec fn resolved_anchor(target: Point, lines: Seq<Line>, radius: int) -> Point {
    match crate::snap::closest_point_spec(target, lines, radius) {
        Some(p) => p,
        None => target,
    }
}

/// The sticky line-drawing gesture on the model.  A press anchors the line
/// at the snap-resolved pointer position; a release resolves the end the
/// same way and appends the line — checkpointing first — only when it is
/// longer than twice the snap radius; shorter gestures are discarded whole.
/// While a point drag is in progress the gesture is ignored.
pub open spec fn sticky_drawing_spec(
    m: EditorModel,
    mouse: Point,
    pressed: bool,
    released: bool,
) -> EditorModel {
    if m.dragging_point is Some {
        m
    } else {
        let m1 = if pressed {
            EditorModel {
                current_start: Some(resolved_anchor(mouse, m.lines, m.sticky_radius)),
                ..m
            }
        } else {
            m
        };
        if released {
            match m1.current_start {
                Some(start) => {
                    let end = resolved_anchor(mouse, m1.lines, m1.sticky_radius);
                    if crate::geometry::beyond(start, end, 2 * m1.sticky_radius) {
                        EditorModel {
                            lines: m1.lines.push(Line { start, end }),
                            current_start: None,
                            undo_stack: m1.undo_stack.push(m1.lines),
                            redo_stack: Seq::empty(),
                            ..m1
                        }
                    } else {
                        EditorModel { current_start: None, ..m1 }
                    }
                },
                None => m1,
            }
        } else {
            m1
        }
    }
}

/// Handle line creation with sticky snapping and the minimum-length check.
/// `pressed` and `released` are this frame's pointer-button edges.
pub fn handle_sticky_line_drawing(
    state: &mut EditorState,
    mouse_pos: Point,
    pressed: bool,
    released: bool,
)
    ensures
        final(state).model() == sticky_drawing_spec(
            old(state).model(),
            mouse_pos,
            pressed,
            released,
        ),
{
    if state.dragging_point.is_some() {
        return ;
    }
    if pressed {
        let snap_start = crate::snap::find_closest_point(
            mouse_pos,
            &state.lines,
            state.sticky_radius,
        );
        state.current_start = Some(
            match snap_start {
                Some(p) => p,
                None => mouse_pos,
            },
        );
    }
    let ghost m1 = sticky_drawing_spec(old(state).model(), mouse_pos, pressed, false);
    proof {
        assert(state.model() =~~= m1);
    }
    if released {
        if let Some(start) = state.current_start {
            state.current_start = None;
            let snap_end = crate::snap::find_closest_point(
                mouse_pos,
                &state.lines,
                state.sticky_radius,
            );
            let end = match snap_end {
                Some(p) => p,
                None => mouse_pos,
            };
            let min_len: i64 = 2 * (state.sticky_radius as i64);
            if crate::geometry::is_beyond(&start, &end, min_len) {
                state.save_history();
                state.lines.push(Line { start, end });
                proof {
                    assert(state.model() =~~= sticky_drawing_spec(
                        old(state).model(),
                        mouse_pos,
                        pressed,
                        released,
                    ));
                }
            } else {
                proof {
                    assert(state.model() =~~= sticky_drawing_spec(
                        old(state).model(),
                        mouse_pos,
                        pressed,
                        released,
                    ));
                }
            }
        }
    }
}

/// Minimum-length rejection: a completed drawing gesture whose resolved end
/// lies within twice the snap radius of its anchor leaves the lines, the
/// undo stack, and the redo stack exactly as they were — no element and no
/// checkpoint.
pub proof fn lemma_min_length_rejection(m: EditorModel, mouse: Point, pressed: bool)
    requires
        m.dragging_point is None,
        ({
            let m1 = sticky_drawing_spec(m, mouse, pressed, false);
            m1.current_start matches Some(start) && !crate::geometry::beyond(
                start,
                resolved_anchor(mouse, m1.lines, m1.sticky_radius),
                2 * m1.sticky_radius,
            )
        }),
    ensures
        ({
            let m2 = sticky_drawing_spec(m, mouse, pressed, true);
            &&& m2.lines == m.lines
            &&& m2.undo_stack == m.undo_stack
            &&& m2.redo_stack == m.redo_stack
            &&& m2.current_start is None
        }),
{
}

/// Clamp a position onto a screen edge when it lies strictly within the
/// threshold of that edge: left before right, top before bottom.
pub open spec fn edge_snapped(pos: Point, thr: int, width: i32, height: i32) -> Point {
    let x = if -thr < pos.x < thr {
        0i32
    } else if -thr < pos.x - width < thr {
        width
    } else {
        pos.x
    };
    let y = if -thr < pos.y < thr {
        0i32
    } else if -thr < pos.y - height < thr {
        height
    } else {
        pos.y
    };
    Point { x, y }
}

/// Snap a position to the nearest screen edge when it is strictly within
/// `snap_threshold` of x = 0, x = width, y = 0 or y = height.
pub fn snap_to_screen_edge(pos: Point, snap_threshold: i32, width: i32, height: i32) -> (r: Point)
    ensures
        r == edge_snapped(pos, snap_threshold as int, width, height),
{
    let thr = snap_threshold as i64;
    let mut snapped = pos;
    let dx0: i64 = pos.x as i64;
    let dxw: i64 = pos.x as i64 - width as i64;
    if -thr < dx0 && dx0 < thr {
        snapped.x = 0;
    } else if -thr < dxw && dxw < thr {
        snapped.x = width;
    }
    let dy0: i64 = pos.y as i64;
    let dyh: i64 = pos.y as i64 - height as i64;
    if -thr < dy0 && dy0 < thr {
        snapped.y = 0;
    } else if -thr < dyh && dyh < thr {
        snapped.y = height;
    }
    snapped
}

/// Starting a point drag on the model: when an endpoint lies within the
/// pick radius of the pointer, checkpoint, remember the pick and the mouse
/// anchor, and gather the coincident group at the picked endpoint's exact
/// position; otherwise nothing changes.
pub open spec fn drag_press_spec(m: EditorModel, mouse: Point, pick_radius: int) -> EditorModel {
    match crate::snap::closest_for_drag_spec(mouse, m.lines, pick_radius) {
        Some(pick) => {
            let orig = crate::snap::endpoint_of(m.lines, pick.0 as int, pick.1);
            EditorModel {
                dragging_point: Some(pick),
                drag_start_mouse_pos: Some(mouse),
                drag_original_positions: crate::snap::matching_points_spec(
                    m.lines,
                    orig,
                    MATCH_EPSILON as int,
                ),
                undo_stack: m.undo_stack.push(m.lines),
                redo_stack: Seq::empty(),
                ..m
            }
        },
        None => m,
    }
}

/// Replace one endpoint of one line; indices outside the collection write
/// nothing.
pub open spec fn write_endpoint(lines: Seq<Line>, i: int, is_start: bool, p: Point) -> Seq<Line> {
    if 0 <= i < lines.len() {
        if is_start {
            lines.update(i, Line { start: p, end: lines[i].end })
        } else {
            lines.update(i, Line { start: lines[i].start, end: p })
        }
    } else {
        lines
    }
}

/// Where one dragged group entry lands: its original position moved by the
/// drag delta, then — only when the drag-time snap finds a non-excluded
/// anchor — snapped to that anchor and clamped to a nearby screen edge.
pub open spec fn dragged_position(
    lines: Seq<Line>,
    group: Seq<(usize, bool, Point)>,
    entry: (usize, bool, Point),
    delta_x: int,
    delta_y: int,
    radius: int,
    width: i32,
    height: i32,
) -> Point {
    let tentative = Point { x: (entry.2.x + delta_x) as i32, y: (entry.2.y + delta_y) as i32 };
    match crate::snap::closest_excluding_spec(lines, tentative, radius, group) {
        Some(snap) => edge_snapped(snap, 5, width, height),
        None => tentative,
    }
}

/// The first `n` group entries applied in order, each against the lines as
/// the previous writes left them.
pub open spec fn drag_move_upto(
    lines: Seq<Line>,
    group: Seq<(usize, bool, Point)>,
    n: int,
    delta_x: int,
    delta_y: int,
    radius: int,
    width: i32,
    height: i32,
) -> Seq<Line>
    decreases n,
{
    if n <= 0 {
        lines
    } else {
        let prev = drag_move_upto(lines, group, n - 1, delta_x, delta_y, radius, width, height);
        let e = group[n - 1];
        write_endpoint(
            prev,
            e.0 as int,
            e.1,
            dragged_position(prev, group, e, delta_x, delta_y, radius, width, height),
        )
    }
}

/// Moving a drag on the model: while a drag is armed, every group entry is
/// moved by the pointer delta and written back, in group order.
pub open spec fn drag_move_spec(m: EditorModel, mouse: Point, width: i32, height: i32) -> EditorModel {
    match m.drag_start_mouse_pos {
        Some(dsm) => if m.dragging_point is Some {
            EditorModel {
                lines: drag_move_upto(
                    m.lines,
                    m.drag_original_positions,
                    m.drag_original_positions.len() as int,
                    mouse.x - dsm.x,
                    mouse.y - dsm.y,
                    m.sticky_radius,
                    width,
                    height,
                ),
                ..m
            }
        } else {
            m
        },
        None => m,
    }
}

/// Releasing a drag on the model: the gesture state is cleared; the lines
/// and the history keep whatever the drag wrote.
pub open spec fn drag_release_spec(m: EditorModel) -> EditorModel {
    EditorModel {
        dragging_point: None,
        drag_start_mouse_pos: None,
        drag_original_positions: Seq::empty(),
        ..m
    }
}

/// The whole point-dragging step for one frame: press, then move, then
/// release, in that order.
pub open spec fn point_dragging_spec(
    m: EditorModel,
    mouse: Point,
    pressed: bool,
    down: bool,
    released: bool,
    width: i32,
    height: i32,
) -> EditorModel {
    let m1 = if pressed && m.dragging_point is None {
        drag_press_spec(m, mouse, 5)
    } else {
        m
    };
    let m2 = if down {
        drag_move_spec(m1, mouse, width, height)
    } else {
        m1
    };
    if released {
        drag_release_spec(m2)
    } else {
        m2
    }
}

/// Every moved group position stays within the machine's coordinate range:
/// what the pointer hardware guarantees in practice, and what the store
/// needs so that moved endpoints are representable.
pub open spec fn drag_fits(
    group: Seq<(usize, bool, Point)>,
    mouse: Point,
    dsm: Point,
) -> bool {
    forall|j: int|
        0 <= j < group.len() ==> i32::MIN <= (#[trigger] group[j]).2.x + mouse.x - dsm.x
            <= i32::MAX && i32::MIN <= group[j].2.y + mouse.y - dsm.y <= i32::MAX
}

/// Process one frame of point dragging: picking up an endpoint group on a
/// press, moving the whole coincident group by the pointer delta — with
/// drag-time snap and edge clamping — while the button is down, and
/// clearing the gesture on release.
pub fn handle_point_dragging(
    state: &mut EditorState,
    mouse_pos: Point,
    pressed: bool,
    down: bool,
    released: bool,
    width: i32,
    height: i32,
)
    requires
        down ==> (old(state).model().drag_start_mouse_pos matches Some(dsm) ==> drag_fits(
            old(state).model().drag_original_positions,
            mouse_pos,
            dsm,
        )),
    ensures
        final(state).model() == point_dragging_spec(
            old(state).model(),
            mouse_pos,
            pressed,
            down,
            released,
            width,
            height,
        ),
{
    if pressed && state.dragging_point.is_none() {
        let pick = crate::snap::find_closest_point_for_drag(mouse_pos, &state.lines, 5);
        if let Some((line_idx, is_start)) = pick {
            proof {
                assert(state.lines@.len() == state.lines.len());
                crate::snap::lemma_closest_for_drag_props(mouse_pos, state.lines@, 5);
            }
            state.save_history();
            let original_point = if is_start {
                state.lines[line_idx].start
            } else {
                state.lines[line_idx].end
            };
            state.dragging_point = Some((line_idx, is_start));
            state.drag_start_mouse_pos = Some(mouse_pos);
            state.drag_original_positions = crate::snap::get_all_matching_points(
                &state.lines,
                original_point,
                MATCH_EPSILON,
            );
        }
    }
    let ghost m1 = if pressed && old(state).model().dragging_point is None {
        drag_press_spec(old(state).model(), mouse_pos, 5)
    } else {
        old(state).model()
    };
    proof {
        assert(state.model() =~~= m1);
    }
    if down && state.dragging_point.is_some() && state.drag_start_mouse_pos.is_some() {
        let dsm = state.drag_start_mouse_pos.unwrap();
        let delta_x: i64 = mouse_pos.x as i64 - dsm.x as i64;
        let delta_y: i64 = mouse_pos.y as i64 - dsm.y as i64;
        let ghost lines0 = state.lines@;
        let ghost group = state.drag_original_positions@;
        proof {
            assert forall|j: int| 0 <= j < group.len() implies i32::MIN <= (
            #[trigger] group[j]).2.x + mouse_pos.x - dsm.x <= i32::MAX && i32::MIN
                <= group[j].2.y + mouse_pos.y - dsm.y <= i32::MAX by {
                if !(pressed && old(state).model().dragging_point is None) {
                    assert(drag_fits(group, mouse_pos, dsm));
                } else {
                    assert(dsm == mouse_pos);
                }
            }
        }
        let mut j: usize = 0;
        while j < state.drag_original_positions.len()
            invariant
                0 <= j <= state.drag_original_positions.len(),
                group == state.drag_original_positions@,
                dsm == state.drag_start_mouse_pos.unwrap(),
                state.drag_start_mouse_pos is Some,
                state.dragging_point is Some,
                delta_x == mouse_pos.x - dsm.x,
                delta_y == mouse_pos.y - dsm.y,
                forall|jj: int| 0 <= jj < group.len() ==> i32::MIN <= (
                #[trigger] group[jj]).2.x + delta_x <= i32::MAX && i32::MIN <= group[jj].2.y
                    + delta_y <= i32::MAX,
                state.lines@ == drag_move_upto(
                    lines0,
                    group,
                    j as int,
                    delta_x as int,
                    delta_y as int,
                    state.sticky_radius as int,
                    width,
                    height,
                ),
                state.model() == (EditorModel { lines: state.lines@, ..m1 }),
            decreases state.drag_original_positions.len() - j,
        {
            let (line_idx, is_start, orig) = state.drag_original_positions[j];
            let nx: i64 = orig.x as i64 + delta_x;
            let ny: i64 = orig.y as i64 + delta_y;
            let mut new_pos = Point { x: nx as i32, y: ny as i32 };
            let snap = crate::snap::find_closest_point_excluding_multiple(
                &state.lines,
                new_pos,
                state.sticky_radius,
                &state.drag_original_positions,
            );
            if let Some(snap_point) = snap {
                new_pos = snap_to_screen_edge(snap_point, 5, width, height);
            }
            proof {
                assert(new_pos == dragged_position(
                    state.lines@,
                    group,
                    group[j as int],
                    delta_x as int,
                    delta_y as int,
                    state.sticky_radius as int,
                    width,
                    height,
                ));
            }
            let ghost lines_before = state.lines@;
            if line_idx < state.lines.len() {
                let mut line = state.lines[line_idx];
                if is_start {
                    line.start = new_pos;
                } else {
                    line.end = new_pos;
                }
                state.lines.set(line_idx, line);
                proof {
                    assert(state.lines@ =~= write_endpoint(
                        lines_before,
                        line_idx as int,
                        is_start,
                        new_pos,
                    ));
                }
            } else {
                proof {
                    assert(state.lines@ =~= write_endpoint(
                        lines_before,
                        line_idx as int,
                        is_start,
                        new_pos,
                    ));
                }
            }
            proof {
                assert(state.lines@ =~= drag_move_upto(
                    lines0,
                    group,
                    j as int + 1,
                    delta_x as int,
                    delta_y as int,
                    state.sticky_radius as int,
                    width,
                    height,
                ));
            }
            j = j + 1;
        }
    }
    let ghost m2 = if down {
        drag_move_spec(m1, mouse_pos, width, height)
    } else {
        m1
    };
    proof {
        assert(state.model() =~~= m2);
    }
    if released {
        state.dragging_point = None;
        state.drag_start_mouse_pos = None;
        state.drag_original_positions = Vec::new();
    }
    proof {
        assert(state.model() =~~= point_dragging_spec(
            old(state).model(),
            mouse_pos,
            pressed,
            down,
            released,
            width,
            height,
        ));
    }
}

/// Snap exclusion during a drag: the drag-time snap never hands back an
/// anchor that coincides with any original position of the dragged group,
/// and when it finds nothing the entry moves by the pure pointer delta.
pub proof fn lemma_drag_never_snaps_to_group(
    lines: Seq<Line>,
    group: Seq<(usize, bool, Point)>,
    entry: (usize, bool, Point),
    delta_x: int,
    delta_y: int,
    radius: int,
    width: i32,
    height: i32,
)
    requires
        lines.len() <= usize::MAX,
    ensures
        ({
            let tentative = Point {
                x: (entry.2.x + delta_x) as i32,
                y: (entry.2.y + delta_y) as i32,
            };
            let snap = crate::snap::closest_excluding_spec(lines, tentative, radius, group);
            &&& (snap is None ==> dragged_position(
                lines,
                group,
                entry,
                delta_x,
                delta_y,
                radius,
                width,
                height,
            ) == tentative)
            &&& (snap matches Some(sn) ==> forall|j: int|
                0 <= j < group.len() ==> !crate::geometry::coincident(sn, (#[trigger] group[j]).2))
        }),
{
    let tentative = Point { x: (entry.2.x + delta_x) as i32, y: (entry.2.y + delta_y) as i32 };
    crate::snap::lemma_closest_excluding_props(lines, tentative, radius, group);
}

/// Undirected equality of line segments: `(a, b)` matches `(b, a)` too.
pub open spec fn undirected_eq(a: Line, b: Line) -> bool {
    (a.start == b.start && a.end == b.end) || (a.start == b.end && a.end == b.start)
}

/// Whether some line of `s` is undirected-equal to `l`.
pub open spec fn has_undirected(s: Seq<Line>, l: Line) -> bool {
    exists|j: int| 0 <= j < s.len() && undirected_eq(#[trigger] s[j], l)
}

/// The first `n` lines deduplicated in order: a line joins the result only
/// when no earlier kept line is undirected-equal to it.
pub open spec fn dedup_upto(lines: Seq<Line>, n: int) -> Seq<Line>
    decreases n,
{
    if n <= 0 {
        Seq::empty()
    } else {
        let prev = dedup_upto(lines, n - 1);
        if has_undirected(prev, lines[n - 1]) {
            prev
        } else {
            prev.push(lines[n - 1])
        }
    }
}

/// The whole collection deduplicated under undirected equality.
pub open spec fn dedup_spec(lines: Seq<Line>) -> Seq<Line> {
    dedup_upto(lines, lines.len() as int)
}

/// Decides [`has_undirected`] on concrete values.
fn contains_undirected(s: &Vec<Line>, l: &Line) -> (r: bool)
    ensures
        r == has_undirected(s@, *l),
{
    let mut j: usize = 0;
    while j < s.len()
        invariant
            0 <= j <= s.len(),
            forall|k: int| 0 <= k < j ==> !undirected_eq(#[trigger] s@[k], *l),
        decreases s.len() - j,
    {
        let c = s[j];
        if (c.start.x == l.start.x && c.start.y == l.start.y && c.end.x == l.end.x && c.end.y
            == l.end.y) || (c.start.x == l.end.x && c.start.y == l.end.y && c.end.x == l.start.x
            && c.end.y == l.start.y) {
            return true;
        }
        j = j + 1;
    }
    false
}

/// The export boundary's view of the store: the lines deduplicated under
/// undirected equality, in first-appearance order.  Formatting and printing
/// are the caller's business.
pub fn export_lines(lines: &Vec<Line>) -> (r: Vec<Line>)
    ensures
        r@ == dedup_spec(lines@),
{
    let mut unique: Vec<Line> = Vec::new();
    let mut i: usize = 0;
    while i < lines.len()
        invariant
            0 <= i <= lines.len(),
            unique@ == dedup_upto(lines@, i as int),
        decreases lines.len() - i,
    {
        let line = lines[i];
        let is_duplicate = contains_undirected(&unique, &line);
        if !is_duplicate {
            unique.push(line);
        }
        i = i + 1;
    }
    unique
}

/// Deduplication for export: the result holds no two undirected-equal
/// entries — so feeding the same undirected line twice yields one entry —
/// every input line is represented in it, and it only holds input lines.
pub proof fn lemma_dedup_props(lines: Seq<Line>, n: int)
    requires
        0 <= n <= lines.len(),
    ensures
        ({
            let d = dedup_upto(lines, n);
            &&& forall|a: int, b: int|
                0 <= a < b < d.len() ==> !undirected_eq(#[trigger] d[a], #[trigger] d[b])
            &&& forall|i: int| 0 <= i < n ==> has_undirected(d, #[trigger] lines[i])
            &&& forall|a: int| 0 <= a < d.len() ==> exists|i: int|
                0 <= i < n && #[trigger] d[a] == lines[i]
        }),
    decreases n,
{
    if n > 0 {
        lemma_dedup_props(lines, n - 1);
        let prev = dedup_upto(lines, n - 1);
        let d = dedup_upto(lines, n);
        let l = lines[n - 1];
        if has_undirected(prev, l) {
            assert(forall|i: int| 0 <= i < n - 1 ==> has_undirected(d, #[trigger] lines[i]));
        } else {
            assert(forall|a: int| 0 <= a < prev.len() ==> #[trigger] d[a] == prev[a]);
            assert(d[d.len() - 1] == l);
            assert forall|a: int, b: int| 0 <= a < b < d.len() implies !undirected_eq(
                #[trigger] d[a],
                #[trigger] d[b],
            ) by {
                if b == d.len() - 1 {
                    assert(!undirected_eq(prev[a], l));
                    assert(undirected_eq(d[a], d[b]) ==> undirected_eq(prev[a], l));
                }
            }
            assert forall|i: int| 0 <= i < n implies has_undirected(d, #[trigger] lines[i]) by {
                if i < n - 1 {
                    let j = choose|j: int|
                        0 <= j < prev.len() && undirected_eq(#[trigger] prev[j], lines[i]);
                    assert(undirected_eq(d[j], lines[i]));
                } else {
                    assert(undirected_eq(d[d.len() - 1], l));
                }
            }
        }
    }
}

} // verus!
