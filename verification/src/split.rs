//! The two halves of a split socket.

use crate::addr::SocketAddr;
use crate::operation::step;
use crate::operation::Action;
use crate::operation::Call;
use crate::operation::Direction;
use crate::operation::Event;
use crate::operation::State;
use crate::socket::control;
use crate::socket::control_room;
use crate::socket::RawSocket;
use std::sync::Arc;
use vstd::prelude::*;

verus! {

/// The receiving half of a split socket.
pub struct RawRecv(Arc<RawSocket>);

/// The sending half of a split socket.
pub struct RawSend(Arc<RawSocket>);

/// `Arc::clone` of std: a second pointer to the same allocation, so that
/// what it points to is what the first points to.
#[verifier::external_body]
fn share(sock: &Arc<RawSocket>) -> (other: Arc<RawSocket>)
    ensures
        other == *sock,
{
    sock.clone()
}

/// Splits a socket into a receiving and a sending half. Both refer to the
/// one socket, which lives as long as either of them.
pub fn split(sock: RawSocket) -> (halves: (RawRecv, RawSend))
    ensures
        halves.0.socket() == sock,
        halves.1.socket() == sock,
{
    let recv = Arc::new(sock);
    let send = share(&recv);
    (RawRecv(recv), RawSend(send))
}

impl RawRecv {
    /// The socket that this half shares.
    pub closed spec fn socket(&self) -> RawSocket {
        *self.0
    }

    /// Steps a receive into one buffer.
    pub fn recv_from(&mut self, state: State, event: Event<(usize, SocketAddr)>) -> (r: (
        State,
        Action<(usize, SocketAddr)>,
    ))
        ensures
            final(self).socket() == old(self).socket(),
            r == step(Direction::Read, Call::RecvFrom, state, event),
    {
        self.0.poll_recv_from(state, event)
    }

    /// Steps a receive into scattered segments. `ctrl` is the buffer for
    /// ancillary data; without one the call is made with an empty buffer.
    pub fn recv_msg(
        &self,
        ctrl: Option<&[u8]>,
        state: State,
        event: Event<(usize, SocketAddr)>,
    ) -> (r: (State, Action<(usize, SocketAddr)>))
        ensures
            r == step(
                Direction::Read,
                Call::RecvMsg { control: control_room(ctrl) },
                state,
                event,
            ),
    {
        self.0.poll_recv_msg(control(ctrl).len(), state, event)
    }
}

impl RawSend {
    /// The socket that this half shares.
    pub closed spec fn socket(&self) -> RawSocket {
        *self.0
    }

    /// Steps a send of one buffer to `addr`.
    pub fn send_to(&mut self, addr: &SocketAddr, state: State, event: Event<usize>) -> (r: (
        State,
        Action<usize>,
    ))
        ensures
            final(self).socket() == old(self).socket(),
            r == step(Direction::Write, Call::SendTo { addr: *addr }, state, event),
    {
        self.0.poll_send_to(addr, state, event)
    }

    /// Steps a send of gathered segments to `addr`. `ctrl` holds the
    /// ancillary data; without it the call is made with an empty buffer.
    pub fn send_msg(
        &mut self,
        addr: &SocketAddr,
        ctrl: Option<&[u8]>,
        state: State,
        event: Event<usize>,
    ) -> (r: (State, Action<usize>))
        ensures
            final(self).socket() == old(self).socket(),
            r == step(
                Direction::Write,
                Call::SendMsg { addr: *addr, control: control_room(ctrl) },
                state,
                event,
            ),
    {
        self.0.poll_send_msg(addr, control(ctrl).len(), state, event)
    }
}

} // verus!
