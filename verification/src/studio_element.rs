//! The drawable element: a tagged shape payload plus a display color.

use vstd::prelude::*;

use crate::geometry::Point;
use crate::studio_elements::StudioElements;

verus! {

/// A display color, opaque to the geometry logic.
#[derive(Clone, Copy, Debug, PartialEq, Eq, Structural)]
pub struct Rgba {
    pub r: u8,
    pub g: u8,
    pub b: u8,
    pub a: u8,
}

/// The shape payload of an element, one variant per shape kind.
#[derive(Clone, Copy, Debug, PartialEq, Eq, Structural)]
pub enum StudioValues {
    Line { point_a: Point, point_b: Point, thickness: i32 },
    Circle { center: Point, radius: i32 },
    Ellipse { center: Point, width: i32, height: i32, rotation: i32 },
    Rectangle { point: Point, width: i32, height: i32, rotation: i32 },
    Triangle { point_a: Point, point_b: Point, point_c: Point },
}

impl StudioValues {
    /// The shape kind that tags this payload.
    pub open spec fn kind(self) -> StudioElements {
        match self {
            StudioValues::Line { .. } => StudioElements::Line,
            StudioValues::Circle { .. } => StudioElements::Circle,
            StudioValues::Ellipse { .. } => StudioElements::Ellipse,
            StudioValues::Rectangle { .. } => StudioElements::Rectangle,
            StudioValues::Triangle { .. } => StudioElements::Triangle,
        }
    }

    /// Well-formed payloads have non-negative sizes, and carry rotation zero
    /// — the only rotation any creation path produces.
    pub open spec fn wf(self) -> bool {
        match self {
            StudioValues::Line { .. } => true,
            StudioValues::Circle { radius, .. } => radius >= 0,
            StudioValues::Ellipse { width, height, rotation, .. } => width >= 0 && height >= 0
                && rotation == 0,
            StudioValues::Rectangle { width, height, rotation, .. } => width >= 0 && height >= 0
                && rotation == 0,
            StudioValues::Triangle { .. } => true,
        }
    }
}

/// One element of the store: color, payload, and the payload's shape kind.
#[derive(Clone, Copy, Debug, PartialEq, Eq, Structural)]
pub struct StudioElement {
    pub color: Rgba,
    pub value: StudioValues,
    pub element: StudioElements,
}

impl StudioElement {
    /// The tag names the active payload variant and the payload is
    /// well-formed; every creation path establishes this.
    pub open spec fn wf(self) -> bool {
        self.element == self.value.kind() && self.value.wf()
    }

    pub fn new(element: StudioElements, value: StudioValues, color: Rgba) -> (r: StudioElement)
        ensures
            r == (StudioElement { color, value, element }),
    {
        StudioElement { element, color, value }
    }
}

} // verus!
