use vstd::prelude::*;

verus! {

/// Why an operation on the desk failed.
#[derive(Debug, Clone, Copy, PartialEq, Eq, Structural)]
pub enum DeskError {
    /// Reading from or writing to the serial line failed.
    TransportFailure,
    /// The desk reported a blank display in a height frame.
    HeightEmpty,
    /// A digit byte of a height frame showed no known seven-segment pattern.
    DisplayEmpty,
}

} // verus!
