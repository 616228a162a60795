//! What a host's per-frame scheduler shares with the library: the ordering
//! sets of stat work and the marker that pauses resets.
use vstd::prelude::*;

verus! {

/// The sets that order stat work within a frame: resets first, then
/// modifications, then reads.
#[derive(Clone, Copy, Debug, PartialEq, Eq, Hash)]
pub enum StatSystems {
    /// Work that resets stat containers.
    Reset,
    /// Work that applies modifiers to stats.
    Modify,
    /// Work that reads the totals of stats.
    Read,
}

/// Marks an instance whose stat containers must not be reset.
#[derive(Clone, Copy, Debug, Default, PartialEq, Eq, Hash)]
pub struct PauseStatReset;

} // verus!
