use vstd::prelude::*;

verus! {

/// The one failure the managed heap reports to its callers.
#[derive(Debug, Clone, Copy, PartialEq, Eq, Structural)]
pub enum Error {
    /// The collector could not find room for the request, or the request's
    /// byte count exceeds `isize::MAX`, the largest size an allocation may
    /// have.
    AllocationFailed,
}

} // verus!
