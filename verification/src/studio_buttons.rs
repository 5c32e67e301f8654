//! The toolbar buttons and what pressing each one does to the session.

use vstd::prelude::*;

use crate::studio_elements::StudioElements;
use crate::studio_state::StudioModel;
use crate::studio_state::StudioState;

verus! {

/// Every toolbar button, including the kinds that are not yet wired to a
/// shape tool.
#[derive(Clone, Copy, Debug, PartialEq, Eq, Structural)]
pub enum StudioButtons {
    Undo,
    Redo,
    Help,
    Grid,
    Snap,
    Color,
    Line,
    Arc,
    Poly,
    Circle,
    Ellipse,
    Rectangle,
    Triangle,
    Hexagon,
}

impl StudioButtons {
    /// The label of this button.
    pub open spec fn text_spec(self) -> Seq<char> {
        match self {
            StudioButtons::Undo => "UNDO"@,
            StudioButtons::Redo => "REDO"@,
            StudioButtons::Help => "HELP"@,
            StudioButtons::Grid => "GRID"@,
            StudioButtons::Snap => "SNAP"@,
            StudioButtons::Color => "COLOR"@,
            StudioButtons::Line => "LINE"@,
            StudioButtons::Arc => "ARC"@,
            StudioButtons::Poly => "POLY"@,
            StudioButtons::Circle => "CIRCLE"@,
            StudioButtons::Ellipse => "ELLIPSE"@,
            StudioButtons::Rectangle => "RECTANGLE"@,
            StudioButtons::Triangle => "TRIANGLE"@,
            StudioButtons::Hexagon => "HEXAGON"@,
        }
    }

    pub fn text(&self) -> (r: &str)
        ensures
            r@ == self.text_spec(),
    {
        match self {
            StudioButtons::Undo => "UNDO",
            StudioButtons::Redo => "REDO",
            StudioButtons::Help => "HELP",
            StudioButtons::Grid => "GRID",
            StudioButtons::Snap => "SNAP",
            StudioButtons::Color => "COLOR",
            StudioButtons::Line => "LINE",
            StudioButtons::Arc => "ARC",
            StudioButtons::Poly => "POLY",
            StudioButtons::Circle => "CIRCLE",
            StudioButtons::Ellipse => "ELLIPSE",
            StudioButtons::Rectangle => "RECTANGLE",
            StudioButtons::Triangle => "TRIANGLE",
            StudioButtons::Hexagon => "HEXAGON",
        }
    }

    /// The buttons that select a shape tool.
    pub open spec fn is_shape_tool(self) -> bool {
        self == StudioButtons::Ellipse || self == StudioButtons::Line || self
            == StudioButtons::Triangle || self == StudioButtons::Rectangle || self
            == StudioButtons::Circle
    }
}

/// The next grid level: the three levels cycle back to zero.
pub open spec fn cycled_grid(grid: int) -> int {
    if grid > 2 {
        0
    } else {
        grid + 1
    }
}

/// What pressing a button does to the session model.  A shape-tool button
/// toggles draw mode when it is already the active button and switches draw
/// mode on otherwise; every wired button then records itself and performs
/// its action; the unwired kinds change nothing.
pub open spec fn apply_button_spec(m: StudioModel, button: StudioButtons) -> StudioModel {
    let m1 = if button.is_shape_tool() {
        if m.button == Some(button) {
            StudioModel { draw: !m.draw, ..m }
        } else {
            StudioModel { draw: true, ..m }
        }
    } else {
        m
    };
    match button {
        StudioButtons::Undo => StudioModel {
            button: Some(StudioButtons::Undo),
            ..m1.with_hist(m1.hist().undo_step())
        },
        StudioButtons::Redo => StudioModel {
            button: Some(StudioButtons::Redo),
            ..m1.with_hist(m1.hist().redo_step())
        },
        StudioButtons::Help => StudioModel {
            button: Some(StudioButtons::Help),
            help: !m1.help,
            ..m1
        },
        StudioButtons::Arc => m1,
        StudioButtons::Poly => m1,
        StudioButtons::Hexagon => m1,
        StudioButtons::Color => m1,
        StudioButtons::Ellipse => StudioModel {
            button: Some(StudioButtons::Ellipse),
            element: StudioElements::Ellipse,
            ..m1
        },
        StudioButtons::Rectangle => StudioModel {
            button: Some(StudioButtons::Rectangle),
            element: StudioElements::Rectangle,
            ..m1
        },
        StudioButtons::Triangle => StudioModel {
            button: Some(StudioButtons::Triangle),
            element: StudioElements::Triangle,
            ..m1
        },
        StudioButtons::Line => StudioModel {
            button: Some(StudioButtons::Line),
            element: StudioElements::Line,
            ..m1
        },
        StudioButtons::Circle => StudioModel {
            button: Some(StudioButtons::Circle),
            element: StudioElements::Circle,
            ..m1
        },
        StudioButtons::Grid => StudioModel {
            button: Some(StudioButtons::Grid),
            grid: cycled_grid(m1.grid),
            ..m1
        },
        StudioButtons::Snap => StudioModel {
            button: Some(StudioButtons::Snap),
            snap: !m1.snap,
            ..m1
        },
    }
}

impl StudioButtons {
    /// Perform a button press on the session.
    pub fn apply(state: &mut StudioState, button: StudioButtons)
        ensures
            final(state).model() == apply_button_spec(old(state).model(), button),
    {
        let is_shape = match button {
            StudioButtons::Ellipse | StudioButtons::Line | StudioButtons::Triangle
                | StudioButtons::Rectangle | StudioButtons::Circle => true,
            _ => false,
        };
        if is_shape {
            let same = match state.button {
                Some(b) => b == button,
                None => false,
            };
            if same {
                state.draw = !state.draw;
            } else {
                state.draw = true;
            }
        }
        let ghost m1 = if button.is_shape_tool() {
            if old(state).model().button == Some(button) {
                StudioModel { draw: !old(state).model().draw, ..old(state).model() }
            } else {
                StudioModel { draw: true, ..old(state).model() }
            }
        } else {
            old(state).model()
        };
        proof {
            assert(state.model() =~~= m1);
        }
        match button {
            StudioButtons::Undo => {
                state.button = Some(StudioButtons::Undo);
                state.undo();
            },
            StudioButtons::Redo => {
                state.button = Some(StudioButtons::Redo);
                state.redo();
            },
            StudioButtons::Help => {
                state.button = Some(StudioButtons::Help);
                state.help = !state.help;
            },
            StudioButtons::Arc => {},
            StudioButtons::Poly => {},
            StudioButtons::Hexagon => {},
            StudioButtons::Color => {},
            StudioButtons::Ellipse => {
                state.button = Some(StudioButtons::Ellipse);
                state.element = StudioElements::Ellipse;
            },
            StudioButtons::Rectangle => {
                state.button = Some(StudioButtons::Rectangle);
                state.element = StudioElements::Rectangle;
            },
            StudioButtons::Triangle => {
                state.button = Some(StudioButtons::Triangle);
                state.element = StudioElements::Triangle;
            },
            StudioButtons::Line => {
                state.button = Some(StudioButtons::Line);
                state.element = StudioElements::Line;
            },
            StudioButtons::Circle => {
                state.button = Some(StudioButtons::Circle);
                state.element = StudioElements::Circle;
            },
            StudioButtons::Grid => {
                state.button = Some(StudioButtons::Grid);
                if state.grid > 2 {
                    state.grid = 0;
                } else {
                    state.grid = state.grid + 1;
                }
            },
            StudioButtons::Snap => {
                state.button = Some(StudioButtons::Snap);
                state.snap = !state.snap;
            },
        }
        proof {
            assert(state.model() =~~= apply_button_spec(old(state).model(), button));
        }
    }
}

/// Converts a shape kind to the toolbar button that selects it.
impl From<StudioElements> for StudioButtons {
    fn from(i: StudioElements) -> (r: StudioButtons) {
        match i {
            StudioElements::Line => StudioButtons::Line,
            StudioElements::Circle => StudioButtons::Circle,
            StudioElements::Ellipse => StudioButtons::Ellipse,
            StudioElements::Rectangle => StudioButtons::Rectangle,
            StudioElements::Triangle => StudioButtons::Triangle,
        }
    }
}

/// What [`StudioButtons::from`] returns for each shape kind.
pub open spec fn button_of_element(i: StudioElements) -> StudioButtons {
    match i {
        StudioElements::Line => StudioButtons::Line,
        StudioElements::Circle => StudioButtons::Circle,
        StudioElements::Ellipse => StudioButtons::Ellipse,
        StudioElements::Rectangle => StudioButtons::Rectangle,
        StudioElements::Triangle => StudioButtons::Triangle,
    }
}

impl vstd::std_specs::convert::FromSpecImpl<StudioElements> for StudioButtons {
    open spec fn obeys_from_spec() -> bool {
        true
    }

    open spec fn from_spec(i: StudioElements) -> StudioButtons {
        button_of_element(i)
    }
}

} // verus!
