use vstd::prelude::*;

verus! {

/// The ways an operation on reserved memory can fail.
#[derive(Clone, Copy, Debug, PartialEq, Eq, Structural)]
pub enum VmError {
    /// The requested size is above the maximum fixed at construction.
    CeilingExceeded,
    /// The operating system refused to reserve, commit or protect memory.
    BackendDenied,
    /// The (read, write, execute) triple has no encoding on the target.
    InvalidProtectionCombination,
    /// A write was asked of a buffer whose memory is not writable.
    WriteProtected,
}

} // verus!
