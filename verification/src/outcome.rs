//! How a capture ends.

use vstd::prelude::*;

verus! {

/// Why a capture failed. Every failure is fatal: a half-inspected process
/// cannot yield a trustworthy dump, so nothing is retried.
#[derive(Clone, Copy, Debug, PartialEq, Eq, Structural)]
pub enum Failure {
    /// The target does not exist, or the inspector may not attach to it.
    Attach,
    /// The target's instruction-set width differs from the inspector's.
    ArchitectureMismatch,
    /// A kernel call returned a status other than success.
    Kernel,
    /// The minidump writer reported an error; the file may be partly written.
    Writer,
    /// An optional feature that the configuration needs is not available.
    Unavailable,
    /// The answer handed to the engine does not fit the step it had asked for.
    Protocol,
}

/// The result of one capture.
#[derive(Clone, Copy, Debug, PartialEq, Eq, Structural)]
pub enum Outcome {
    /// A dump was written.
    Captured,
    /// The target exited with this code and no dump was asked for.
    Exited(i32),
    /// The capture failed.
    Failed(Failure),
}

} // verus!
