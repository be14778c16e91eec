use vstd::prelude::*;

verus! {

/// Errors surfaced by the process operations. Every failure is reported
/// synchronously to the caller of the failing operation; nothing is retried.
#[derive(Debug, PartialEq, Eq)]
pub enum OpError {
    /// The capability pre-check refused the operation; no OS action was taken.
    PermissionDenied,
    /// An identifier did not resolve to the expected kind of registered
    /// resource (including use of an identifier for a non-duplicable one).
    BadResourceId,
    /// The OS rejected process creation; carries the OS error text.
    SpawnFailure(String),
    /// The OS rejected signal delivery; carries the OS error text.
    SignalDeliveryFailure(String),
}

} // verus!
