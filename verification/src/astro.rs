use vstd::prelude::*;

verus! {

/// Errors that can occur while projecting a catalog star onto the horizon.
#[derive(Clone, Copy, Debug, PartialEq, Eq, Structural)]
pub enum StarHorizonError {
    /// Defining the star with the astronomy engine returned this non-success status code.
    DefineStar(u32),
    /// Converting to equator-of-date coordinates returned this non-success status code.
    EquatorOfDate(u32),
}

} // verus!
