use vstd::prelude::*;

verus! {

/// What can go wrong in this library.
#[derive(Debug, Clone, Copy, PartialEq, Eq, Structural)]
pub enum NosError {
    /// Key material that is malformed or out of range.
    InvalidKey,
    /// An event whose fields, identifier or signature do not hold together.
    MalformedEvent,
    /// No relay could be reached.
    UnreachableRelay,
    /// No relay accepted in time.
    RelayTimeout,
    /// Every relay that answered refused the event.
    RejectedByRelays,
    /// No signature could be made.
    SigningError,
}

} // verus!
