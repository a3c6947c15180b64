use vstd::prelude::*;

verus! {

/// The one way that building a distribution can fail.
#[derive(Debug, Clone, Copy, PartialEq, Eq, Structural)]
pub enum Error {
    /// A shape, scale or rate parameter is not strictly positive.
    InvalidParameter,
}

} // verus!
