use vstd::prelude::*;

verus! {

/// Failures surfaced by the resource-access controller and its streams.
#[derive(Clone, Copy, Debug, PartialEq, Eq, Structural)]
pub enum TestCaseError {
    /// A reader was requested while a writer token is outstanding.
    WriteInProgress,
    /// A reader was requested while the mount check reports active mounts.
    TargetMounted,
    /// A seek resolved to a position outside the addressable range.
    InvalidSeek,
    /// Opening or seeking the backing file failed.
    IoFailure,
}

} // verus!
