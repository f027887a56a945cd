//! Socket addresses, and the rule that picks one out of many.

use crate::error::is_invalid_address;
use crate::error::Error;
use vstd::prelude::*;

verus! {

/// An IPv4 socket address.
#[derive(Clone, Copy, Debug, PartialEq, Eq, Hash, Structural)]
pub struct SocketAddrV4 {
    /// The host, its four octets read as one big-endian number.
    pub ip: u32,
    /// The port.
    pub port: u16,
}

/// An IPv6 socket address.
#[derive(Clone, Copy, Debug, PartialEq, Eq, Hash, Structural)]
pub struct SocketAddrV6 {
    /// The host, its sixteen octets read as one big-endian number.
    pub ip: u128,
    /// The port.
    pub port: u16,
    /// The flow label and traffic class.
    pub flowinfo: u32,
    /// The scope of the address.
    pub scope_id: u32,
}

/// A concrete socket address, in one of the two internet families.
#[derive(Clone, Copy, Debug, PartialEq, Eq, Hash, Structural)]
pub enum SocketAddr {
    /// An IPv4 address.
    V4(SocketAddrV4),
    /// An IPv6 address.
    V6(SocketAddrV6),
}

/// The address that an address-like input stands for: the first of the
/// candidates it resolved to, if there is one.
pub open spec fn resolved(candidates: Seq<SocketAddr>) -> Option<SocketAddr> {
    if candidates.len() > 0 {
        Some(candidates[0])
    } else {
        None
    }
}

/// Settles an address-like input on one address.
///
/// `candidates` holds what the input resolved to, in the order in which the
/// resolver gave it. The first candidate wins; an input without candidates
/// is refused as invalid.
pub fn sockaddr(candidates: &[SocketAddr]) -> (r: Result<SocketAddr, Error>)
    ensures
        match r {
            Ok(addr) => resolved(candidates@) == Some(addr),
            Err(e) => resolved(candidates@) is None && is_invalid_address(e),
        },
{
    if candidates.len() > 0 {
        Ok(candidates[0])
    } else {
        Err(Error::invalid_address())
    }
}

/// Candidates after the first never change what an input resolves to.
pub proof fn lemma_first_candidate_wins(first: SocketAddr, rest: Seq<SocketAddr>)
    ensures
        resolved(seq![first] + rest) == Some(first),
{
}

} // verus!
