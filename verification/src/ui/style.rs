//! Loading of the style sheet.

use vstd::prelude::*;

verus! {

/// Why the style sheet could not be put in place.
#[derive(Clone, Copy, Debug, PartialEq, Eq, Structural)]
pub enum Error {
    /// There is no display to style.
    Display,
}

} // verus!
