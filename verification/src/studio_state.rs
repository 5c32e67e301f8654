//! The studio session: the element stack, the interaction flags, history
//! stacks, and the circle-body drag.

use vstd::prelude::*;

use crate::editor::dedup_spec;
use crate::geometry::Line;
use crate::geometry::Point;
use crate::history::HistoryModel;
use crate::history::snapshot;
use crate::history::stack_model;
use crate::studio_buttons::StudioButtons;
use crate::studio_element::Rgba;
use crate::studio_element::StudioElement;
use crate::studio_element::StudioValues;
use crate::studio_elements::StudioElements;
use crate::studio_elements::first_circle_hit;

verus! {

/// The mathematical image of a [`StudioState`].
#[verifier::ext_equal]
pub struct StudioModel {
    pub stack: Seq<StudioElement>,
    pub stack_undo: Seq<Seq<StudioElement>>,
    pub stack_redo: Seq<Seq<StudioElement>>,
    pub current: Option<Point>,
    pub draw: bool,
    pub drag: bool,
    pub drag_offset: Option<Point>,
    pub snap: bool,
    pub grid: int,
    pub help: bool,
    pub element: StudioElements,
    pub element_color: Rgba,
    pub element_thickness: i32,
    pub button: Option<StudioButtons>,
}

impl StudioModel {
    /// The history-manager view of the studio: live stack plus both stacks
    /// of snapshots.
    pub open spec fn hist(self) -> HistoryModel<StudioElement> {
        HistoryModel { current: self.stack, undo: self.stack_undo, redo: self.stack_redo }
    }

    /// Rebuilds the studio model around a history-manager state.
    pub open spec fn with_hist(self, h: HistoryModel<StudioElement>) -> StudioModel {
        StudioModel { stack: h.current, stack_undo: h.undo, stack_redo: h.redo, ..self }
    }
}

/// The studio session state: every operation of the interaction machine
/// works on this struct, so the machine is testable without any rendering.
pub struct StudioState {
    pub stack: Vec<StudioElement>,
    pub stack_undo: Vec<Vec<StudioElement>>,
    pub stack_redo: Vec<Vec<StudioElement>>,
    pub current: Option<Point>,
    pub draw: bool,
    pub drag: bool,
    pub drag_offset: Option<Point>,
    pub snap: bool,
    pub grid: u32,
    pub help: bool,
    pub element: StudioElements,
    pub element_color: Rgba,
    pub element_thickness: i32,
    pub button: Option<StudioButtons>,
}

impl StudioState {
    /// The mathematical image of this state.
    pub open spec fn model(&self) -> StudioModel {
        StudioModel {
            stack: self.stack@,
            stack_undo: stack_model(self.stack_undo),
            stack_redo: stack_model(self.stack_redo),
            current: self.current,
            draw: self.draw,
            drag: self.drag,
            drag_offset: self.drag_offset,
            snap: self.snap,
            grid: self.grid as int,
            help: self.help,
            element: self.element,
            element_color: self.element_color,
            element_thickness: self.element_thickness,
            button: self.button,
        }
    }

    /// A fresh session: empty store and history, no gesture in flight, line
    /// tool selected, snap and help off, grid level zero.
    pub fn new() -> (r: StudioState)
        ensures
            r.model() == (StudioModel {
                stack: Seq::empty(),
                stack_undo: Seq::empty(),
                stack_redo: Seq::empty(),
                current: None,
                draw: false,
                drag: false,
                drag_offset: None,
                snap: false,
                grid: 0,
                help: false,
                element: StudioElements::Line,
                element_color: Rgba { r: 255, g: 255, b: 255, a: 255 },
                element_thickness: 2,
                button: None,
            }),
    {
        let r = StudioState {
            stack: Vec::new(),
            stack_undo: Vec::new(),
            stack_redo: Vec::new(),
            current: None,
            draw: false,
            drag: false,
            drag_offset: None,
            snap: false,
            grid: 0,
            help: false,
            element: StudioElements::Line,
            element_color: Rgba { r: 255, g: 255, b: 255, a: 255 },
            element_thickness: 2,
            button: None,
        };
        proof {
            assert(r.model() =~~= (StudioModel {
                stack: Seq::empty(),
                stack_undo: Seq::empty(),
                stack_redo: Seq::empty(),
                current: None,
                draw: false,
                drag: false,
                drag_offset: None,
                snap: false,
                grid: 0,
                help: false,
                element: StudioElements::Line,
                element_color: Rgba { r: 255, g: 255, b: 255, a: 255 },
                element_thickness: 2,
                button: None,
            }));
        }
        r
    }

    /// Checkpoint: push a snapshot of the stack onto the undo stack and
    /// clear the redo stack.
    pub fn save(&mut self)
        ensures
            final(self).model() == old(self).model().with_hist(
                old(self).model().hist().checkpoint_step(),
            ),
    {
        let copy = snapshot(&self.stack);
        self.stack_undo.push(copy);
        self.stack_redo = Vec::new();
        proof {
            assert(stack_model(self.stack_undo) =~~= old(self).model().stack_undo.push(
                old(self).stack@,
            ));
            assert(stack_model(self.stack_redo) =~~= Seq::<Seq<StudioElement>>::empty());
            assert(self.model() =~~= old(self).model().with_hist(
                old(self).model().hist().checkpoint_step(),
            ));
        }
    }

    /// Undo: restore the most recent snapshot; a no-op when none exists.
    pub fn undo(&mut self)
        ensures
            final(self).model() == old(self).model().with_hist(
                old(self).model().hist().undo_step(),
            ),
    {
        let popped = self.stack_undo.pop();
        match popped {
            Some(previous) => {
                let copy = snapshot(&self.stack);
                self.stack_redo.push(copy);
                self.stack = previous;
                proof {
                    assert(stack_model(self.stack_undo) =~~= old(
                        self,
                    ).model().stack_undo.drop_last());
                    assert(stack_model(self.stack_redo) =~~= old(self).model().stack_redo.push(
                        old(self).stack@,
                    ));
                    assert(self.stack@ == old(self).model().stack_undo.last());
                    assert(self.model() =~~= old(self).model().with_hist(
                        old(self).model().hist().undo_step(),
                    ));
                }
            },
            None => {
                proof {
                    assert(stack_model(self.stack_undo) =~~= old(self).model().stack_undo);
                    assert(self.model() =~~= old(self).model().with_hist(
                        old(self).model().hist().undo_step(),
                    ));
                }
            },
        }
    }

    /// Redo: symmetric to [`StudioState::undo`].
    pub fn redo(&mut self)
        ensures
            final(self).model() == old(self).model().with_hist(
                old(self).model().hist().redo_step(),
            ),
    {
        let popped = self.stack_redo.pop();
        match popped {
            Some(next) => {
                let copy = snapshot(&self.stack);
                self.stack_undo.push(copy);
                self.stack = next;
                proof {
                    assert(stack_model(self.stack_redo) =~~= old(
                        self,
                    ).model().stack_redo.drop_last());
                    assert(stack_model(self.stack_undo) =~~= old(self).model().stack_undo.push(
                        old(self).stack@,
                    ));
                    assert(self.stack@ == old(self).model().stack_redo.last());
                    assert(self.model() =~~= old(self).model().with_hist(
                        old(self).model().hist().redo_step(),
                    ));
                }
            },
            None => {
                proof {
                    assert(stack_model(self.stack_redo) =~~= old(self).model().stack_redo);
                    assert(self.model() =~~= old(self).model().with_hist(
                        old(self).model().hist().redo_step(),
                    ));
                }
            },
        }
    }
}

/// The line segments held by the store's line elements, in store order.
pub open spec fn stack_lines_upto(stack: Seq<StudioElement>, n: int) -> Seq<Line>
    decreases n,
{
    if n <= 0 {
        Seq::empty()
    } else {
        let prev = stack_lines_upto(stack, n - 1);
        match stack[n - 1].value {
            StudioValues::Line { point_a, point_b, .. } => prev.push(
                Line { start: point_a, end: point_b },
            ),
            _ => prev,
        }
    }
}

/// Every line geometry in the store, in store order.
pub open spec fn stack_lines(stack: Seq<StudioElement>) -> Seq<Line> {
    stack_lines_upto(stack, stack.len() as int)
}

impl StudioState {
    /// The export boundary's view of the store: its line geometries,
    /// deduplicated under undirected endpoint equality.
    pub fn export(&self) -> (r: Vec<Line>)
        ensures
            r@ == dedup_spec(stack_lines(self.stack@)),
    {
        let mut collected: Vec<Line> = Vec::new();
        let mut i: usize = 0;
        while i < self.stack.len()
            invariant
                0 <= i <= self.stack.len(),
                collected@ == stack_lines_upto(self.stack@, i as int),
            decreases self.stack.len() - i,
        {
            let e = self.stack[i];
            match e.value {
                StudioValues::Line { point_a, point_b, .. } => {
                    collected.push(Line { start: point_a, end: point_b });
                },
                _ => {},
            }
            i = i + 1;
        }
        crate::editor::export_lines(&collected)
    }
}

/// Moving a circle-body drag on the model: while dragging outside draw
/// mode, the first circle containing the pointer has its center moved to
/// the pointer minus the grab offset (or to the origin when no offset was
/// recorded).
pub open spec fn drag_circle_spec(m: StudioModel, position: Point) -> StudioModel {
    if !m.draw && m.drag {
        match first_circle_hit(m.stack, position) {
            Some(i) => {
                let off = match m.drag_offset {
                    Some(o) => o,
                    None => position,
                };
                let e = m.stack[i as int];
                match e.value {
                    StudioValues::Circle { center, radius } => StudioModel {
                        stack: m.stack.update(
                            i as int,
                            StudioElement {
                                value: StudioValues::Circle {
                                    center: Point {
                                        x: (position.x - off.x) as i32,
                                        y: (position.y - off.y) as i32,
                                    },
                                    radius,
                                },
                                ..e
                            },
                        ),
                        ..m
                    },
                    _ => m,
                }
            },
            None => m,
        }
    } else {
        m
    }
}

/// The grabbed circle's new center stays within the machine's coordinate
/// range.
pub open spec fn drag_circle_fits(m: StudioModel, position: Point) -> bool {
    m.drag_offset matches Some(off) ==> i32::MIN <= position.x - off.x <= i32::MAX && i32::MIN
        <= position.y - off.y <= i32::MAX
}

/// One frame of circle-body dragging: while dragging outside draw mode,
/// move the first circle under the pointer by the recorded grab offset.
pub fn drag_circle(state: &mut StudioState, position: Point)
    requires
        drag_circle_fits(old(state).model(), position),
    ensures
        final(state).model() == drag_circle_spec(old(state).model(), position),
{
    if !state.draw && state.drag {
        let hit = crate::studio_elements::find_circle_at(&state.stack, position);
        if let Some(i) = hit {
            proof {
                assert(state.stack@.len() == state.stack.len());
                crate::studio_elements::lemma_first_circle_hit_props(state.stack@, position, 0);
            }
            let e = state.stack[i];
            match e.value {
                StudioValues::Circle { center: _, radius } => {
                    let off = match state.drag_offset {
                        Some(o) => o,
                        None => position,
                    };
                    let nx: i64 = position.x as i64 - off.x as i64;
                    let ny: i64 = position.y as i64 - off.y as i64;
                    let moved = StudioElement {
                        value: StudioValues::Circle {
                            center: Point { x: nx as i32, y: ny as i32 },
                            radius,
                        },
                        ..e
                    };
                    self_stack_set(state, i, moved);
                    proof {
                        assert(state.model() =~~= drag_circle_spec(old(state).model(), position));
                    }
                },
                _ => {
                    proof {
                        assert(state.model() =~~= drag_circle_spec(old(state).model(), position));
                    }
                },
            }
        }
    }
}

/// Write one element of the stack in place.
fn self_stack_set(state: &mut StudioState, i: usize, e: StudioElement)
    requires
        i < old(state).stack.len(),
    ensures
        final(state).stack@ == old(state).stack@.update(i as int, e),
        final(state).current == old(state).current,
        final(state).stack_undo == old(state).stack_undo,
        final(state).stack_redo == old(state).stack_redo,
        final(state).draw == old(state).draw,
        final(state).drag == old(state).drag,
        final(state).drag_offset == old(state).drag_offset,
        final(state).snap == old(state).snap,
        final(state).grid == old(state).grid,
        final(state).help == old(state).help,
        final(state).element == old(state).element,
        final(state).element_color == old(state).element_color,
        final(state).element_thickness == old(state).element_thickness,
        final(state).button == old(state).button,
{
    state.stack.set(i, e);
}

} // verus!
