//! How a socket option is identified.

use vstd::prelude::*;

verus! {

/// The protocol level at which an option lives.
#[derive(Clone, Copy, Debug, PartialEq, Eq, Hash, Structural)]
pub struct Level(pub i32);

/// The name of an option within its level.
#[derive(Clone, Copy, Debug, PartialEq, Eq, Hash, Structural)]
pub struct Name(pub i32);

} // verus!
