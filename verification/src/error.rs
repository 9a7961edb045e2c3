//! The errors that the buffer subsystem reports.

use vstd::prelude::*;

verus! {

/// What can go wrong while a buffer is set up or used.
#[derive(Debug, Clone, Copy, PartialEq, Eq, Structural)]
pub enum BufferError {
    /// The requested size or alignment cannot be satisfied.
    Configuration,
    /// Creating the backing storage or one of its mappings failed.
    Allocation,
    /// A reader identifier that is not registered with the writer.
    UnknownReader,
}

} // verus!
