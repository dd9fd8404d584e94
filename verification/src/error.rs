use vstd::prelude::*;

verus! {

/// Why an operation on spaces and markers did not succeed.
#[derive(Clone, Copy, Debug, PartialEq, Eq, Structural)]
pub enum WhereError {
    /// A record or link was looked up directly and is not there.
    NotFound,
    /// A value is present but does not have the expected shape.
    Undecodable,
    /// The underlying store could not be read or written.
    StoreUnavailable,
    /// A multicast could not be dispatched at all.
    SendFailure,
}

} // verus!
