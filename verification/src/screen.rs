//! Which view is on screen.

use vstd::prelude::*;

verus! {

/// The view on screen.
#[derive(Debug, Clone, Copy, PartialEq, Eq, Structural)]
pub enum View {
    Auth,
    Workout,
    Manage,
    Exercises,
}

} // verus!
