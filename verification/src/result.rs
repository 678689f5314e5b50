//! What handling an action means for the screen.

use vstd::prelude::*;
use vstd::std_specs::convert::FromSpecImpl;
use crate::input::InputActionResult;

verus! {

/// Whether the prompt has to be drawn again after an action.
#[derive(Copy, Clone, Debug, PartialEq, Eq, Structural)]
pub enum ActionResult {
    /// What is on the screen is out of date.
    NeedsRedraw,
    /// Nothing that is shown has changed.
    Clean,
}

impl ActionResult {
    /// Whether the prompt has to be drawn again.
    pub open spec fn redraw(self) -> bool {
        self == ActionResult::NeedsRedraw
    }

    /// The report of a text input, taken over as it is: a redraw is needed
    /// exactly where the input asks for one.
    pub open spec fn of_input(report: InputActionResult) -> ActionResult {
        if report.redraw() {
            ActionResult::NeedsRedraw
        } else {
            ActionResult::Clean
        }
    }

    /// Whether the prompt has to be drawn again.
    pub fn needs_redraw(&self) -> (needed: bool)
        ensures
            needed == self.redraw(),
    {
        match self {
            ActionResult::NeedsRedraw => true,
            ActionResult::Clean => false,
        }
    }
}

impl From<InputActionResult> for ActionResult {
    /// The report of a text input, taken over as it is: a redraw is needed
    /// exactly where the input asks for one.
    fn from(value: InputActionResult) -> (result: Self) {
        if value.needs_redraw() {
            ActionResult::NeedsRedraw
        } else {
            ActionResult::Clean
        }
    }
}

impl FromSpecImpl<InputActionResult> for ActionResult {
    open spec fn obeys_from_spec() -> bool {
        true
    }

    open spec fn from_spec(value: InputActionResult) -> Self {
        Self::of_input(value)
    }
}

} // verus!
