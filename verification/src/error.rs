//! Failures that pass through the socket wrapper.

use vstd::prelude::*;

verus! {

/// The three classes of failure that the wrapper tells apart.
#[derive(Clone, Copy, Debug, PartialEq, Eq, Structural)]
pub enum ErrorKind {
    /// The call could not finish at once: a transient condition, retried
    /// after the next readiness notification.
    WouldBlock,
    /// An address-like input stood for no address.
    InvalidInput,
    /// Any other failure of the operating system or of the reactor.
    Other,
}

/// A failure, as it was reported to the wrapper or raised by it.
#[derive(Clone, Debug, PartialEq, Eq)]
pub struct Error {
    /// The class of the failure.
    pub kind: ErrorKind,
    /// The operating system's error number, where the failure has one.
    pub code: Option<i32>,
    /// What went wrong, in words.
    pub message: String,
}

/// Whether `e` is the transient condition that the retry protocol absorbs.
pub open spec fn would_block(e: Error) -> bool {
    e.kind == ErrorKind::WouldBlock
}

/// Whether `e` is the failure raised for an address-like input that stands
/// for no address.
pub open spec fn is_invalid_address(e: Error) -> bool {
    &&& e.kind == ErrorKind::InvalidInput
    &&& e.code is None
    &&& e.message@ == "invalid socket address"@
}

impl Error {
    /// The failure raised when an address-like input stands for no address.
    pub fn invalid_address() -> (e: Error)
        ensures
            is_invalid_address(e),
    {
        Error { kind: ErrorKind::InvalidInput, code: None, message: "invalid socket address".to_owned() }
    }
}

/// Tells the transient "would block" condition from every other failure.
pub fn is_would_block(e: &Error) -> (b: bool)
    ensures
        b == would_block(*e),
{
    e.kind == ErrorKind::WouldBlock
}

} // verus!
