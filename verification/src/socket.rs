//! The asynchronous socket wrapper.

use crate::addr::resolved;
use crate::addr::sockaddr;
use crate::addr::SocketAddr;
use crate::error::is_invalid_address;
use crate::error::is_would_block;
use crate::error::Error;
use crate::operation::after_clear;
use crate::operation::step;
use crate::operation::Action;
use crate::operation::Call;
use crate::operation::Direction;
use crate::operation::Event;
use crate::operation::Poll;
use crate::operation::State;
use crate::opt::Level;
use crate::opt::Name;
use crate::split::split;
use crate::split::RawRecv;
use crate::split::RawSend;
use socket2::Domain;
use socket2::Protocol;
use socket2::Type;
use vstd::prelude::*;

verus! {

/// `socket2::Domain`, an address family. Nothing is claimed of what a value
/// holds: the wrapper only hands it on.
#[verifier::external_type_specification]
#[verifier::external_body]
pub struct ExDomain(socket2::Domain);

/// `socket2::Type`, a socket kind. Nothing is claimed of what a value holds:
/// the wrapper only hands it on.
#[verifier::external_type_specification]
#[verifier::external_body]
pub struct ExType(socket2::Type);

/// `socket2::Protocol`, a protocol number. Nothing is claimed of what a value
/// holds: the wrapper only hands it on.
#[verifier::external_type_specification]
#[verifier::external_body]
pub struct ExProtocol(socket2::Protocol);

/// The ancillary bytes that go into a message call: those of the control
/// buffer, and none where the caller gave no buffer.
pub open spec fn control_bytes(ctrl: Option<&[u8]>) -> Seq<u8> {
    match ctrl {
        Some(c) => c@,
        None => Seq::empty(),
    }
}

/// The room for ancillary data that goes into a message call.
pub open spec fn control_room(ctrl: Option<&[u8]>) -> usize {
    control_bytes(ctrl).len() as usize
}

/// The one control buffer of a message that is sent: the caller's, or an
/// empty one where the caller gave none.
pub fn control<'a>(ctrl: Option<&'a [u8]>) -> (buf: &'a [u8])
    ensures
        buf@ == control_bytes(ctrl),
{
    match ctrl {
        Some(c) => c,
        None => &[],
    }
}

/// The one control buffer of a message that is received: the caller's, or
/// an empty one where the caller gave none. What the call writes to the
/// buffer, it writes to the caller's.
pub fn control_mut<'a>(ctrl: Option<&'a mut [u8]>) -> (buf: &'a mut [u8])
    ensures
        match ctrl {
            Some(c) => buf@ == c@ && final(c)@ == final(buf)@,
            None => buf@.len() == 0 && final(buf)@.len() == 0,
        },
{
    match ctrl {
        Some(c) => c,
        None => &mut [],
    }
}

/// Whether `r` is the end of a send that had no address to go to: the
/// operation is over at once, with the failure for an invalid input, and
/// nothing was asked of the socket or of the reactor.
pub open spec fn refused(r: (State, Action<usize>)) -> bool {
    &&& r.0 == State::Complete
    &&& r.1 matches Action::Finish(Err(e)) && is_invalid_address(e)
}

/// An asynchronous raw socket, as far as its decisions go.
///
/// The value records what the socket is made of. The driver opens a socket
/// of that description, registers it with the reactor once, and keeps both
/// for as long as this value lives.
pub struct RawSocket {
    domain: Domain,
    kind: Type,
    protocol: Option<Protocol>,
}

impl RawSocket {
    /// The address family that the socket was made with.
    pub closed spec fn spec_domain(&self) -> Domain {
        self.domain
    }

    /// The socket kind that the socket was made with.
    pub closed spec fn spec_kind(&self) -> Type {
        self.kind
    }

    /// The protocol that the socket was made with, if one was named.
    pub closed spec fn spec_protocol(&self) -> Option<Protocol> {
        self.protocol
    }

    /// Describes a socket of the given family, kind and protocol. The three
    /// are kept as given, for the driver to open the socket with.
    pub fn new(domain: Domain, kind: Type, protocol: Option<Protocol>) -> (sock: RawSocket)
        ensures
            sock.spec_domain() == domain,
            sock.spec_kind() == kind,
            sock.spec_protocol() == protocol,
    {
        RawSocket { domain, kind, protocol }
    }

    /// The address family that the socket was made with.
    #[verifier::when_used_as_spec(spec_domain)]
    pub fn domain(&self) -> (d: Domain)
        ensures
            d == self.spec_domain(),
    {
        self.domain
    }

    /// The socket kind that the socket was made with.
    #[verifier::when_used_as_spec(spec_kind)]
    pub fn kind(&self) -> (k: Type)
        ensures
            k == self.spec_kind(),
    {
        self.kind
    }

    /// The protocol that the socket was made with, if one was named.
    #[verifier::when_used_as_spec(spec_protocol)]
    pub fn protocol(&self) -> (p: Option<Protocol>)
        ensures
            p == self.spec_protocol(),
    {
        self.protocol
    }

    /// Names the call that binds the socket to what `candidates` resolved
    /// from: to the first of them. An input without candidates is refused,
    /// and no call is named.
    pub fn bind(&self, candidates: &[SocketAddr]) -> (r: Result<Call, Error>)
        ensures
            match r {
                Ok(call) => resolved(candidates@) matches Some(addr) && call == (Call::Bind {
                    addr,
                }),
                Err(e) => resolved(candidates@) is None && is_invalid_address(e),
            },
    {
        match sockaddr(candidates) {
            Ok(addr) => Ok(Call::Bind { addr }),
            Err(e) => Err(e),
        }
    }

    /// Names the call that asks for the socket's local address.
    pub fn local_addr(&self) -> (call: Call)
        ensures
            call == Call::LocalAddr,
    {
        Call::LocalAddr
    }

    /// Steps a receive into one buffer.
    pub fn recv_from(&mut self, state: State, event: Event<(usize, SocketAddr)>) -> (r: (
        State,
        Action<(usize, SocketAddr)>,
    ))
        ensures
            *final(self) == *old(self),
            r == step(Direction::Read, Call::RecvFrom, state, event),
    {
        self.poll_recv_from(state, event)
    }

    /// Steps a receive into scattered segments. `ctrl` is the buffer for
    /// ancillary data; without one the call is made with an empty buffer.
    pub fn recv_msg(
        &self,
        ctrl: Option<&[u8]>,
        state: State,
        event: Event<(usize, SocketAddr)>,
    ) -> (r: (State, Action<(usize, SocketAddr)>))
        ensures
            r == step(
                Direction::Read,
                Call::RecvMsg { control: control_room(ctrl) },
                state,
                event,
            ),
    {
        self.poll_recv_msg(control(ctrl).len(), state, event)
    }

    /// Steps a send of one buffer to what `candidates` resolved from.
    pub fn send_to(&mut self, candidates: &[SocketAddr], state: State, event: Event<usize>) -> (r:
        (State, Action<usize>))
        ensures
            *final(self) == *old(self),
            match resolved(candidates@) {
                Some(addr) => r == step(Direction::Write, (Call::SendTo { addr }), state, event),
                None => refused(r),
            },
    {
        match sockaddr(candidates) {
            Ok(addr) => self.poll_send_to(&addr, state, event),
            Err(e) => (State::Complete, Action::Finish(Err(e))),
        }
    }

    /// Steps a send of gathered segments to what `candidates` resolved from.
    /// `ctrl` holds the ancillary data; without it the call is made with an
    /// empty buffer.
    pub fn send_msg(
        &mut self,
        candidates: &[SocketAddr],
        ctrl: Option<&[u8]>,
        state: State,
        event: Event<usize>,
    ) -> (r: (State, Action<usize>))
        ensures
            *final(self) == *old(self),
            match resolved(candidates@) {
                Some(addr) => r == step(
                    Direction::Write,
                    (Call::SendMsg { addr, control: control_room(ctrl) }),
                    state,
                    event,
                ),
                None => refused(r),
            },
    {
        match sockaddr(candidates) {
            Ok(addr) => self.poll_send_msg(&addr, control(ctrl).len(), state, event),
            Err(e) => (State::Complete, Action::Finish(Err(e))),
        }
    }

    /// Names the call that reads the option `name` at `level`.
    pub fn get_sockopt(&self, level: Level, name: Name) -> (call: Call)
        ensures
            call == (Call::GetOption { level, name }),
    {
        Call::GetOption { level, name }
    }

    /// Names the call that writes the option `name` at `level`.
    pub fn set_sockopt(&self, level: Level, name: Name) -> (call: Call)
        ensures
            call == (Call::SetOption { level, name }),
    {
        Call::SetOption { level, name }
    }

    /// Gives the socket up for its two halves, which share it.
    pub fn split(self) -> (halves: (RawRecv, RawSend))
        ensures
            halves.0.socket() == self,
            halves.1.socket() == self,
    {
        split(self)
    }

    /// One step of a receive into one buffer.
    pub fn poll_recv_from(&self, state: State, event: Event<(usize, SocketAddr)>) -> (r: (
        State,
        Action<(usize, SocketAddr)>,
    ))
        ensures
            r == step(Direction::Read, Call::RecvFrom, state, event),
    {
        self.poll(Direction::Read, Call::RecvFrom, state, event)
    }

    /// One step of a receive into scattered segments, with `control` bytes of
    /// room for ancillary data.
    pub fn poll_recv_msg(
        &self,
        control: usize,
        state: State,
        event: Event<(usize, SocketAddr)>,
    ) -> (r: (State, Action<(usize, SocketAddr)>))
        ensures
            r == step(Direction::Read, Call::RecvMsg { control }, state, event),
    {
        self.poll(Direction::Read, Call::RecvMsg { control }, state, event)
    }

    /// One step of a send of one buffer to `addr`.
    pub fn poll_send_to(&self, addr: &SocketAddr, state: State, event: Event<usize>) -> (r: (
        State,
        Action<usize>,
    ))
        ensures
            r == step(Direction::Write, Call::SendTo { addr: *addr }, state, event),
    {
        self.poll(Direction::Write, Call::SendTo { addr: *addr }, state, event)
    }

    /// One step of a send of gathered segments to `addr`, with `control`
    /// bytes of ancillary data.
    pub fn poll_send_msg(
        &self,
        addr: &SocketAddr,
        control: usize,
        state: State,
        event: Event<usize>,
    ) -> (r: (State, Action<usize>))
        ensures
            r == step(Direction::Write, Call::SendMsg { addr: *addr, control }, state, event),
    {
        self.poll(Direction::Write, Call::SendMsg { addr: *addr, control }, state, event)
    }

    /// Settles what follows the clearing of read readiness. `cleared` is the
    /// reactor's answer: the operation is pending again, unless the reactor
    /// failed.
    pub fn clear_read_ready<T>(&self, cleared: Result<(), Error>) -> (r: Result<Poll<T>, Error>)
        ensures
            r == after_clear::<T>(cleared),
    {
        match cleared {
            Ok(_) => Ok(Poll::Pending),
            Err(e) => Err(e),
        }
    }

    /// Settles what follows the clearing of write readiness. `cleared` is the
    /// reactor's answer: the operation is pending again, unless the reactor
    /// failed.
    pub fn clear_write_ready<T>(&self, cleared: Result<(), Error>) -> (r: Result<Poll<T>, Error>)
        ensures
            r == after_clear::<T>(cleared),
    {
        match cleared {
            Ok(_) => Ok(Poll::Pending),
            Err(e) => Err(e),
        }
    }

    /// One step of the retry protocol, for an operation in direction `dir`
    /// that attempts `call`.
    fn poll<T>(&self, dir: Direction, call: Call, state: State, event: Event<T>) -> (r: (
        State,
        Action<T>,
    ))
        ensures
            r == step(dir, call, state, event),
    {
        match state {
            State::NotStarted | State::AwaitingReadiness | State::Retrying => match event {
                Event::Polled => (State::Checking, Action::PollReady(dir)),
                _ => (state, Action::Ignore),
            },
            State::Checking => match event {
                Event::Readiness(Poll::Pending) => (State::AwaitingReadiness, Action::Suspend),
                Event::Readiness(Poll::Ready(Ok(_))) => (State::Attempting, Action::Attempt(call)),
                Event::Readiness(Poll::Ready(Err(e))) => (State::Complete, Action::Finish(Err(e))),
                _ => (state, Action::Ignore),
            },
            State::Attempting => match event {
                Event::Attempted(Err(e)) => {
                    if is_would_block(&e) {
                        (State::Clearing, Action::ClearReady(dir))
                    } else {
                        (State::Complete, Action::Finish(Err(e)))
                    }
                },
                Event::Attempted(result) => (State::Complete, Action::Finish(result)),
                _ => (state, Action::Ignore),
            },
            State::Clearing => match event {
                Event::Cleared(cleared) => {
                    let pending = match dir {
                        Direction::Read => self.clear_read_ready::<Result<T, Error>>(cleared),
                        Direction::Write => self.clear_write_ready::<Result<T, Error>>(cleared),
                    };
                    match pending {
                        Ok(Poll::Pending) => (State::Retrying, Action::Suspend),
                        Ok(Poll::Ready(result)) => (State::Complete, Action::Finish(result)),
                        Err(e) => (State::Complete, Action::Finish(Err(e))),
                    }
                },
                _ => (state, Action::Ignore),
            },
            State::Complete => (state, Action::Ignore),
        }
    }
}

} // verus!
