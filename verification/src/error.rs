//! What can go wrong.

use vstd::prelude::*;

verus! {

/// The ways in which reading an installation or a cluster can fail.
#[derive(Debug, Clone, Copy, PartialEq, Eq, Structural)]
pub enum DstError {
    /// A file that should be read is there but cannot be read.
    Io,
    /// The version marker holds something other than one unsigned number.
    Parse,
    /// A `Workshop` line of the mod override file has no `=`.
    MalformedOverrideLine,
}

} // verus!
