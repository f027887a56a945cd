//! The decision core of an asynchronous raw socket.
//!
//! A raw socket that is driven by a readiness notifier takes part in three
//! kinds of outside work: the reactor is asked whether a direction is ready,
//! the call on the socket is attempted, and the direction's readiness is
//! cleared when the attempt would have blocked. This crate holds every
//! decision between those steps and none of the steps themselves: a driver
//! performs what an [`Action`] names and reports back with an [`Event`].
//!
//! [`RawSocket`] describes a socket and steps its operations. [`RawRecv`] and
//! [`RawSend`] are the two halves that one socket can be split into, each
//! with the operations of its direction. The module [`operation`] holds the
//! retry protocol, and [`laws`] what is proved of all its runs.

pub mod addr;
pub mod error;
pub mod laws;
pub mod operation;
pub mod opt;
pub mod socket;
pub mod split;

pub use crate::addr::sockaddr;
pub use crate::addr::SocketAddr;
pub use crate::addr::SocketAddrV4;
pub use crate::addr::SocketAddrV6;
pub use crate::error::is_would_block;
pub use crate::error::Error;
pub use crate::error::ErrorKind;
pub use crate::operation::Action;
pub use crate::operation::Call;
pub use crate::operation::Direction;
pub use crate::operation::Event;
pub use crate::operation::Poll;
pub use crate::operation::State;
pub use crate::opt::Level;
pub use crate::opt::Name;
pub use crate::socket::RawSocket;
pub use crate::split::RawRecv;
pub use crate::split::RawSend;

pub use socket2::Domain;
pub use socket2::Protocol;
pub use socket2::Type;
