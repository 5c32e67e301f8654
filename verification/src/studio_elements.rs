//! The shape kinds, the derivation of a new element from a completed
//! drawing gesture, and the first-match circle hit test used by shape-body
//! dragging.

use vstd::prelude::*;

use crate::geometry::Point;
use crate::geometry::dist_sq;
use crate::geometry::floor_sqrt;
use crate::geometry::within;
use crate::studio_element::Rgba;
use crate::studio_element::StudioElement;
use crate::studio_element::StudioValues;
use crate::studio_state::StudioModel;
use crate::studio_state::StudioState;

verus! {

/// Highlight radius for control points and alignment guides.
pub const SIZE_POINT: i32 = 10;

/// Minimum anchor-to-end distance for a drawing gesture to create a shape.
pub const SIZE_RESTRICTION: i32 = 10;

/// The five shape kinds a drawing gesture can create.
#[derive(Clone, Copy, Debug, PartialEq, Eq, Structural)]
pub enum StudioElements {
    Line,
    Circle,
    Ellipse,
    Rectangle,
    Triangle,
}

impl StudioElements {
    /// The label of this shape kind.
    pub open spec fn text_spec(self) -> Seq<char> {
        match self {
            StudioElements::Line => "LINE"@,
            StudioElements::Circle => "CIRCLE"@,
            StudioElements::Ellipse => "ELLIPSE"@,
            StudioElements::Rectangle => "RECTANGLE"@,
            StudioElements::Triangle => "TRIANGLE"@,
        }
    }

    pub fn text(&self) -> (r: &str)
        ensures
            r@ == self.text_spec(),
    {
        match self {
            StudioElements::Line => "LINE",
            StudioElements::Circle => "CIRCLE",
            StudioElements::Ellipse => "ELLIPSE",
            StudioElements::Rectangle => "RECTANGLE",
            StudioElements::Triangle => "TRIANGLE",
        }
    }
}

/// The machine-range conditions under which a gesture from `current` to
/// `position` derives a representable shape: coordinate differences must fit
/// the pixel type, and a circle's radius must fit it too.
pub open spec fn creation_fits(kind: StudioElements, current: Point, position: Point) -> bool {
    match kind {
        StudioElements::Ellipse | StudioElements::Rectangle => -0x7fffffff <= position.x
            - current.x <= 0x7fffffff && -0x7fffffff <= position.y - current.y <= 0x7fffffff,
        StudioElements::Circle => dist_sq(current, position) <= 0x7fffffff * 0x7fffffff,
        _ => true,
    }
}

/// The geometry a completed gesture derives, by shape kind: a line from
/// anchor to end; a circle around the anchor through the end; an ellipse
/// around the anchor with the gesture's axis extents; a rectangle spanning
/// anchor and end; a triangle on the anchor, the end, and the anchor's
/// half-height companion.
pub open spec fn element_spec(
    kind: StudioElements,
    color: Rgba,
    thickness: i32,
    current: Point,
    position: Point,
) -> StudioElement {
    let value = match kind {
        StudioElements::Line => StudioValues::Line {
            point_a: current,
            point_b: position,
            thickness,
        },
        StudioElements::Circle => StudioValues::Circle {
            center: current,
            radius: floor_sqrt(dist_sq(current, position)) as i32,
        },
        StudioElements::Ellipse => StudioValues::Ellipse {
            center: current,
            width: (if position.x - current.x < 0 {
                current.x - position.x
            } else {
                position.x - current.x
            }) as i32,
            height: (if position.y - current.y < 0 {
                current.y - position.y
            } else {
                position.y - current.y
            }) as i32,
            rotation: 0,
        },
        StudioElements::Rectangle => StudioValues::Rectangle {
            point: Point {
                x: if current.x <= position.x {
                    current.x
                } else {
                    position.x
                },
                y: if current.y <= position.y {
                    current.y
                } else {
                    position.y
                },
            },
            width: (if position.x - current.x < 0 {
                current.x - position.x
            } else {
                position.x - current.x
            }) as i32,
            height: (if position.y - current.y < 0 {
                current.y - position.y
            } else {
                position.y - current.y
            }) as i32,
            rotation: 0,
        },
        StudioElements::Triangle => StudioValues::Triangle {
            point_a: current,
            point_b: position,
            point_c: Point { x: current.x, y: (current.y as int / 2) as i32 },
        },
    };
    StudioElement { color, value, element: kind }
}

impl StudioElements {
    /// Derive the element a completed gesture creates, from the selected
    /// kind, color and thickness.
    pub fn element(
        kind: StudioElements,
        color: Rgba,
        thickness: i32,
        current: Point,
        position: Point,
    ) -> (r: StudioElement)
        requires
            creation_fits(kind, current, position),
        ensures
            r == element_spec(kind, color, thickness, current, position),
            r.wf(),
    {
        let value = match kind {
            StudioElements::Circle => {
                let d = current.dist_sq_to(&position);
                proof {
                    crate::geometry::lemma_dist_sq_bounds(current, position);
                }
                let r64 = crate::geometry::isqrt64(d as u64);
                proof {
                    assert(r64 as int <= 0x7fffffff) by (nonlinear_arith)
                        requires
                            (r64 as int) * (r64 as int) <= d as int,
                            d as int <= 0x7fffffff * 0x7fffffff,
                            r64 as int >= 0,
                    ;
                }
                let radius = r64 as i32;
                StudioValues::Circle { center: current, radius }
            },
            StudioElements::Ellipse => {
                let dx: i64 = position.x as i64 - current.x as i64;
                let dy: i64 = position.y as i64 - current.y as i64;
                let width = (if dx < 0 {
                    -dx
                } else {
                    dx
                }) as i32;
                let height = (if dy < 0 {
                    -dy
                } else {
                    dy
                }) as i32;
                StudioValues::Ellipse { center: current, width, height, rotation: 0 }
            },
            StudioElements::Line => {
                StudioValues::Line { point_a: current, point_b: position, thickness }
            },
            StudioElements::Rectangle => {
                let x = if current.x <= position.x {
                    current.x
                } else {
                    position.x
                };
                let y = if current.y <= position.y {
                    current.y
                } else {
                    position.y
                };
                let dx: i64 = position.x as i64 - current.x as i64;
                let dy: i64 = position.y as i64 - current.y as i64;
                let width = (if dx < 0 {
                    -dx
                } else {
                    dx
                }) as i32;
                let height = (if dy < 0 {
                    -dy
                } else {
                    dy
                }) as i32;
                StudioValues::Rectangle { point: Point { x, y }, width, height, rotation: 0 }
            },
            StudioElements::Triangle => {
                let y = current.y;
                let half: i32 = if y >= 0 {
                    ((y as u32) / 2) as i32
                } else {
                    -((((-(y + 1)) as u32) / 2) as i32) - 1
                };
                proof {
                    assert(half as int == current.y as int / 2);
                }
                StudioValues::Triangle {
                    point_a: current,
                    point_b: position,
                    point_c: Point { x: current.x, y: half },
                }
            },
        };
        StudioElement { color, value, element: kind }
    }
}

/// Whether an element is a circle whose disk contains the position.
pub open spec fn circle_contains(e: StudioElement, p: Point) -> bool {
    match e.value {
        StudioValues::Circle { center, radius } => within(p, center, radius as int),
        _ => false,
    }
}

/// The first circle in store order, from position `k` on, whose disk
/// contains the position.
pub open spec fn first_circle_hit_from(stack: Seq<StudioElement>, p: Point, k: int) -> Option<
    usize,
>
    decreases stack.len() - k,
{
    if k < 0 || k >= stack.len() {
        None
    } else if circle_contains(stack[k], p) {
        Some(k as usize)
    } else {
        first_circle_hit_from(stack, p, k + 1)
    }
}

/// The first circle in store order whose disk contains the position.
pub open spec fn first_circle_hit(stack: Seq<StudioElement>, p: Point) -> Option<usize> {
    first_circle_hit_from(stack, p, 0)
}

/// Find the first circle element whose disk contains the position, if any.
pub fn find_circle_at(stack: &Vec<StudioElement>, p: Point) -> (r: Option<usize>)
    ensures
        r == first_circle_hit(stack@, p),
{
    let mut i: usize = 0;
    while i < stack.len()
        invariant
            0 <= i <= stack.len(),
            first_circle_hit(stack@, p) == first_circle_hit_from(stack@, p, i as int),
        decreases stack.len() - i,
    {
        let e = stack[i];
        let hit = match e.value {
            StudioValues::Circle { center, radius } => crate::geometry::is_within(
                &p,
                &center,
                radius,
            ),
            _ => false,
        };
        if hit {
            return Some(i);
        }
        i = i + 1;
    }
    None
}

/// What the first-match circle hit means: the index is in range and names a
/// containing circle, no earlier element is one, and `None` means no circle
/// in the store contains the position.
pub proof fn lemma_first_circle_hit_props(stack: Seq<StudioElement>, p: Point, k: int)
    requires
        stack.len() <= usize::MAX,
        0 <= k <= stack.len(),
    ensures
        ({
            let r = first_circle_hit_from(stack, p, k);
            &&& (r matches Some(i) ==> k <= i < stack.len() && circle_contains(stack[i as int], p)
                && forall|j: int| k <= j < i ==> !circle_contains(#[trigger] stack[j], p))
            &&& (r is None ==> forall|j: int|
                k <= j < stack.len() ==> !circle_contains(#[trigger] stack[j], p))
        }),
    decreases stack.len() - k,
{
    if k < stack.len() {
        lemma_first_circle_hit_props(stack, p, k + 1);
    }
}

/// The drawing anchor as it stands after this frame's press: a press in
/// draw mode re-anchors at the pointer, otherwise the anchor is unchanged.
pub open spec fn actions_current(m: StudioModel, position: Point, pressed: bool) -> Option<
    Point,
> {
    if pressed && m.draw {
        Some(position)
    } else {
        m.current
    }
}

/// The grabbed circle's offset from the pointer stays within the machine's
/// coordinate range.
pub open spec fn grab_fits(m: StudioModel, position: Point) -> bool {
    first_circle_hit(m.stack, position) matches Some(i) ==> (match m.stack[i as int].value {
        StudioValues::Circle { center, .. } => i32::MIN <= position.x - center.x <= i32::MAX
            && i32::MIN <= position.y - center.y <= i32::MAX,
        _ => true,
    })
}

/// The machine-range conditions for one frame of gesture handling.
pub open spec fn actions_requires(
    m: StudioModel,
    position: Point,
    pressed: bool,
    released: bool,
) -> bool {
    &&& (released && m.draw ==> (actions_current(m, position, pressed) matches Some(c)
        ==> creation_fits(m.element, c, position)))
    &&& (pressed && !m.draw ==> grab_fits(m, position))
}

/// One frame of gesture handling on the model, in event order.  In draw
/// mode a press anchors the gesture and a release creates the derived
/// element — checkpointing first — only when the gesture is longer than the
/// minimum; shorter gestures are discarded whole.  Outside draw mode a
/// press on a circle's body grabs it for dragging and a release drops it.
pub open spec fn actions_spec(
    m: StudioModel,
    position: Point,
    pressed: bool,
    released: bool,
) -> StudioModel {
    let m1 = if pressed && m.draw {
        StudioModel { current: Some(position), ..m }
    } else {
        m
    };
    let m2 = if released && m.draw {
        match m1.current {
            Some(current) => {
                if crate::geometry::beyond(current, position, SIZE_RESTRICTION as int) {
                    StudioModel {
                        current: None,
                        stack: m1.stack.push(
                            element_spec(
                                m1.element,
                                m1.element_color,
                                m1.element_thickness,
                                current,
                                position,
                            ),
                        ),
                        stack_undo: m1.stack_undo.push(m1.stack),
                        stack_redo: Seq::empty(),
                        ..m1
                    }
                } else {
                    StudioModel { current: None, ..m1 }
                }
            },
            None => m1,
        }
    } else {
        m1
    };
    let m3 = if pressed && !m2.draw {
        match first_circle_hit(m2.stack, position) {
            Some(i) => match m2.stack[i as int].value {
                StudioValues::Circle { center, .. } => StudioModel {
                    drag_offset: Some(
                        Point {
                            x: (position.x - center.x) as i32,
                            y: (position.y - center.y) as i32,
                        },
                    ),
                    drag: true,
                    ..m2
                },
                _ => m2,
            },
            None => m2,
        }
    } else {
        m2
    };
    if released && !m3.draw {
        StudioModel { drag: false, ..m3 }
    } else {
        m3
    }
}

impl StudioElements {
    /// Process one frame of pointer events for the gesture machine:
    /// drawing-gesture anchoring and completion in draw mode, circle-body
    /// grab and drop outside it.
    pub fn actions(state: &mut StudioState, position: Point, pressed: bool, released: bool)
        requires
            actions_requires(old(state).model(), position, pressed, released),
        ensures
            final(state).model() == actions_spec(old(state).model(), position, pressed, released),
    {
        if pressed && state.draw {
            state.current = Some(position);
        }
        let ghost m1 = if pressed && old(state).model().draw {
            StudioModel { current: Some(position), ..old(state).model() }
        } else {
            old(state).model()
        };
        proof {
            assert(state.model() =~~= m1);
        }
        if released && state.draw {
            if let Some(current) = state.current {
                state.current = None;
                if crate::geometry::is_beyond(&current, &position, SIZE_RESTRICTION as i64) {
                    let e = StudioElements::element(
                        state.element,
                        state.element_color,
                        state.element_thickness,
                        current,
                        position,
                    );
                    state.save();
                    state.stack.push(e);
                }
            }
        }
        let ghost m2 = if released && m1.draw {
            match m1.current {
                Some(current) => {
                    if crate::geometry::beyond(current, position, SIZE_RESTRICTION as int) {
                        StudioModel {
                            current: None,
                            stack: m1.stack.push(
                                element_spec(
                                    m1.element,
                                    m1.element_color,
                                    m1.element_thickness,
                                    current,
                                    position,
                                ),
                            ),
                            stack_undo: m1.stack_undo.push(m1.stack),
                            stack_redo: Seq::empty(),
                            ..m1
                        }
                    } else {
                        StudioModel { current: None, ..m1 }
                    }
                },
                None => m1,
            }
        } else {
            m1
        };
        proof {
            assert(state.model() =~~= m2);
        }
        if pressed && !state.draw {
            let hit = find_circle_at(&state.stack, position);
            if let Some(i) = hit {
                proof {
                    assert(state.stack@.len() == state.stack.len());
                    lemma_first_circle_hit_props(state.stack@, position, 0);
                }
                let e = state.stack[i];
                match e.value {
                    StudioValues::Circle { center, .. } => {
                        let ox: i64 = position.x as i64 - center.x as i64;
                        let oy: i64 = position.y as i64 - center.y as i64;
                        state.drag_offset = Some(Point { x: ox as i32, y: oy as i32 });
                        state.drag = true;
                    },
                    _ => {},
                }
            }
        }
        let ghost m3 = if pressed && !m2.draw {
            match first_circle_hit(m2.stack, position) {
                Some(i) => match m2.stack[i as int].value {
                    StudioValues::Circle { center, .. } => StudioModel {
                        drag_offset: Some(
                            Point {
                                x: (position.x - center.x) as i32,
                                y: (position.y - center.y) as i32,
                            },
                        ),
                        drag: true,
                        ..m2
                    },
                    _ => m2,
                },
                None => m2,
            }
        } else {
            m2
        };
        proof {
            assert(state.model() =~~= m3);
        }
        if released && !state.draw {
            state.drag = false;
        }
        proof {
            assert(state.model() =~~= actions_spec(old(state).model(), position, pressed, released));
        }
    }
}

/// Two axis coordinates align when they differ by strictly less than the
/// highlight radius.
pub open spec fn axis_aligned(a: int, b: int) -> bool {
    -(SIZE_POINT as int) < a - b < SIZE_POINT as int
}

/// Decides [`axis_aligned`] on concrete coordinates.
fn aligned(a: i64, b: i64) -> (r: bool)
    ensures
        r == axis_aligned(a as int, b as int),
{
    let d: i128 = a as i128 - b as i128;
    -(SIZE_POINT as i128) < d && d < SIZE_POINT as i128
}

/// Whether the pointer is within the highlight radius of one of the
/// element's control features: line endpoints; circle center or its four
/// cardinal extrema; rectangle anchor or its four corners.  Ellipses and
/// triangles have no highlight features.
pub open spec fn highlight_spec(e: StudioElement, pos: Point) -> bool {
    match e.value {
        StudioValues::Line { point_a, point_b, .. } => within(pos, point_a, SIZE_POINT as int)
            || within(pos, point_b, SIZE_POINT as int),
        StudioValues::Circle { center, radius } => within(pos, center, SIZE_POINT as int)
            || crate::geometry::within_xy(pos, center.x as int, center.y + radius, SIZE_POINT as int)
            || crate::geometry::within_xy(pos, center.x as int, center.y - radius, SIZE_POINT as int)
            || crate::geometry::within_xy(pos, center.x + radius, center.y as int, SIZE_POINT as int)
            || crate::geometry::within_xy(pos, center.x - radius, center.y as int, SIZE_POINT as int),
        StudioValues::Rectangle { point, width, height, .. } => {
            let hw = width / 2;
            let hh = height / 2;
            crate::geometry::within_xy(pos, point.x - hw, point.y - hh, SIZE_POINT as int)
                || crate::geometry::within_xy(pos, point.x + hw, point.y - hh, SIZE_POINT as int)
                || crate::geometry::within_xy(pos, point.x + hw, point.y + hh, SIZE_POINT as int)
                || crate::geometry::within_xy(pos, point.x - hw, point.y + hh, SIZE_POINT as int)
                || within(pos, point, SIZE_POINT as int)
        },
        _ => false,
    }
}

/// Should this element's control points be highlighted for the pointer?
/// A pure per-frame query; it never mutates the store.
pub fn highlight(e: &StudioElement, pos: Point) -> (r: bool)
    requires
        e.wf(),
    ensures
        r == highlight_spec(*e, pos),
{
    match e.value {
        StudioValues::Line { point_a, point_b, .. } => {
            crate::geometry::is_within(&pos, &point_a, SIZE_POINT) || crate::geometry::is_within(
                &pos,
                &point_b,
                SIZE_POINT,
            )
        },
        StudioValues::Circle { center, radius } => {
            let cx: i64 = center.x as i64;
            let cy: i64 = center.y as i64;
            let rad: i64 = radius as i64;
            crate::geometry::is_within(&pos, &center, SIZE_POINT) || crate::geometry::is_within_xy(
                &pos,
                cx,
                cy + rad,
                SIZE_POINT,
            ) || crate::geometry::is_within_xy(&pos, cx, cy - rad, SIZE_POINT)
                || crate::geometry::is_within_xy(&pos, cx + rad, cy, SIZE_POINT)
                || crate::geometry::is_within_xy(&pos, cx - rad, cy, SIZE_POINT)
        },
        StudioValues::Rectangle { point, width, height, .. } => {
            let hw: i64 = (((width as u32) / 2) as u64) as i64;
            let hh: i64 = (((height as u32) / 2) as u64) as i64;
            let px: i64 = point.x as i64;
            let py: i64 = point.y as i64;
            crate::geometry::is_within_xy(&pos, px - hw, py - hh, SIZE_POINT)
                || crate::geometry::is_within_xy(&pos, px + hw, py - hh, SIZE_POINT)
                || crate::geometry::is_within_xy(&pos, px + hw, py + hh, SIZE_POINT)
                || crate::geometry::is_within_xy(&pos, px - hw, py + hh, SIZE_POINT)
                || crate::geometry::is_within(&pos, &point, SIZE_POINT)
        },
        _ => false,
    }
}

/// The vertical and horizontal alignment guides one element warrants for
/// the pointer: each entry is the feature coordinate a full-canvas guide
/// line should pass through.
pub struct GuideLines {
    pub xs: Vec<i64>,
    pub ys: Vec<i64>,
}

/// A singleton guide entry when the pointer aligns with the feature
/// coordinate, and nothing otherwise.
pub open spec fn guide_entry(pos_axis: int, feature: int) -> Seq<i64> {
    if axis_aligned(pos_axis, feature) {
        seq![feature as i64]
    } else {
        Seq::empty()
    }
}

/// The x coordinates of the vertical guides an element warrants.
pub open spec fn guide_xs_spec(e: StudioElement, pos: Point) -> Seq<i64> {
    match e.value {
        StudioValues::Line { point_a, point_b, .. } => guide_entry(pos.x as int, point_a.x as int)
            + guide_entry(pos.x as int, point_b.x as int),
        StudioValues::Circle { center, radius } => guide_entry(pos.x as int, center.x as int)
            + guide_entry(pos.x as int, center.x + radius) + guide_entry(
            pos.x as int,
            center.x - radius,
        ),
        StudioValues::Rectangle { point, width, height, .. } => {
            let hw = width / 2;
            guide_entry(pos.x as int, point.x as int) + guide_entry(pos.x as int, point.x - hw)
                + guide_entry(pos.x as int, point.x + hw) + guide_entry(
                pos.x as int,
                point.x + hw,
            ) + guide_entry(pos.x as int, point.x - hw)
        },
        _ => Seq::empty(),
    }
}

/// The y coordinates of the horizontal guides an element warrants.
pub open spec fn guide_ys_spec(e: StudioElement, pos: Point) -> Seq<i64> {
    match e.value {
        StudioValues::Line { point_a, point_b, .. } => guide_entry(pos.y as int, point_a.y as int)
            + guide_entry(pos.y as int, point_b.y as int),
        StudioValues::Circle { center, radius } => guide_entry(pos.y as int, center.y as int)
            + guide_entry(pos.y as int, center.y + radius) + guide_entry(
            pos.y as int,
            center.y - radius,
        ),
        StudioValues::Rectangle { point, width, height, .. } => {
            let hh = height / 2;
            guide_entry(pos.y as int, point.y as int) + guide_entry(pos.y as int, point.y - hh)
                + guide_entry(pos.y as int, point.y - hh) + guide_entry(
                pos.y as int,
                point.y + hh,
            ) + guide_entry(pos.y as int, point.y + hh)
        },
        _ => Seq::empty(),
    }
}

/// Push a guide entry for one feature coordinate when the pointer aligns
/// with it.
fn push_guide(v: &mut Vec<i64>, pos_axis: i64, feature: i64)
    ensures
        final(v)@ == old(v)@ + guide_entry(pos_axis as int, feature as int),
{
    let ghost before = v@;
    if aligned(pos_axis, feature) {
        v.push(feature);
    }
    proof {
        assert(v@ =~= before + guide_entry(pos_axis as int, feature as int));
    }
}

/// The alignment guides one element warrants for the pointer, in feature
/// order; empty unless snap mode is enabled.  A pure per-frame query.
pub fn element_guides(e: &StudioElement, pos: Point, snap: bool) -> (g: GuideLines)
    requires
        e.wf(),
    ensures
        snap ==> g.xs@ == guide_xs_spec(*e, pos) && g.ys@ == guide_ys_spec(*e, pos),
        !snap ==> g.xs@ == Seq::<i64>::empty() && g.ys@ == Seq::<i64>::empty(),
{
    let mut xs: Vec<i64> = Vec::new();
    let mut ys: Vec<i64> = Vec::new();
    if !snap {
        return GuideLines { xs, ys };
    }
    let px: i64 = pos.x as i64;
    let py: i64 = pos.y as i64;
    match e.value {
        StudioValues::Line { point_a, point_b, .. } => {
            push_guide(&mut xs, px, point_a.x as i64);
            push_guide(&mut xs, px, point_b.x as i64);
            push_guide(&mut ys, py, point_a.y as i64);
            push_guide(&mut ys, py, point_b.y as i64);
            proof {
                assert(xs@ =~= guide_xs_spec(*e, pos));
                assert(ys@ =~= guide_ys_spec(*e, pos));
            }
        },
        StudioValues::Circle { center, radius } => {
            let cx: i64 = center.x as i64;
            let cy: i64 = center.y as i64;
            let rad: i64 = radius as i64;
            push_guide(&mut xs, px, cx);
            push_guide(&mut xs, px, cx + rad);
            push_guide(&mut xs, px, cx - rad);
            push_guide(&mut ys, py, cy);
            push_guide(&mut ys, py, cy + rad);
            push_guide(&mut ys, py, cy - rad);
            proof {
                assert(xs@ =~= guide_xs_spec(*e, pos));
                assert(ys@ =~= guide_ys_spec(*e, pos));
            }
        },
        StudioValues::Rectangle { point, width, height, .. } => {
            let hw: i64 = (((width as u32) / 2) as u64) as i64;
            let hh: i64 = (((height as u32) / 2) as u64) as i64;
            let rx: i64 = point.x as i64;
            let ry: i64 = point.y as i64;
            push_guide(&mut xs, px, rx);
            push_guide(&mut xs, px, rx - hw);
            push_guide(&mut xs, px, rx + hw);
            push_guide(&mut xs, px, rx + hw);
            push_guide(&mut xs, px, rx - hw);
            push_guide(&mut ys, py, ry);
            push_guide(&mut ys, py, ry - hh);
            push_guide(&mut ys, py, ry - hh);
            push_guide(&mut ys, py, ry + hh);
            push_guide(&mut ys, py, ry + hh);
            proof {
                assert(xs@ =~= guide_xs_spec(*e, pos));
                assert(ys@ =~= guide_ys_spec(*e, pos));
            }
        },
        _ => {
            proof {
                assert(xs@ =~= Seq::<i64>::empty());
                assert(ys@ =~= Seq::<i64>::empty());
            }
        },
    }
    GuideLines { xs, ys }
}

} // verus!
