use vstd::prelude::*;

verus! {

/// The caller-visible failures of the watchdog operations.
#[derive(Clone, Copy, Debug, PartialEq, Eq, Structural)]
pub enum ResultError {
    /// A health-check hook is already installed.
    HookAlreadyExists,
    /// The operation is only available while the timer mode's shared
    /// liveness state exists.
    ModeMismatch,
    /// The credential handed to the remote-console hook is empty.
    InvalidCredential,
    /// The one-time liveness state was already initialized; installing it a
    /// second time is refused rather than silently overwritten.
    StateAlreadyInitialized,
}

} // verus!
