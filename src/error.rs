use vstd::prelude::*;

verus! {

/// Errors surfaced by the completion bridge and the description handles.
#[derive(Clone, Debug, PartialEq, Eq)]
pub enum BridgeError {
    /// The foreign engine returned no counterpart observer.
    CounterpartCreationFailed,
    /// The description text could not be turned into a description object.
    MalformedDescription,
    /// The foreign engine rendered no text for a description object.
    DescriptionUnavailable,
    /// The foreign engine reported that the operation failed.
    OperationFailed { message: String, code: i32 },
    /// The lock guarding a completion cell was poisoned by another thread.
    LockPoisoned,
    /// The bridge was used against its protocol (e.g. its result was already
    /// consumed, or its lock was poisoned while waiting).
    BridgeFailure,
}

} // verus!
