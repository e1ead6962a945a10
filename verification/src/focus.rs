//! Which field of a set receives keystrokes.

use vstd::prelude::*;

verus! {

/// The field of the set under the cursor that is being edited.
#[derive(Debug, Clone, Copy, PartialEq, Eq, Structural)]
pub enum Focus {
    Weight,
    Reps,
}

impl Focus {
    /// The other field.
    pub open spec fn flipped(self) -> Focus {
        match self {
            Focus::Weight => Focus::Reps,
            Focus::Reps => Focus::Weight,
        }
    }

    /// Swaps weight and reps.
    pub fn toggled(self) -> (r: Focus)
        ensures
            r == self.flipped(),
    {
        match self {
            Focus::Weight => Focus::Reps,
            Focus::Reps => Focus::Weight,
        }
    }
}

} // verus!
