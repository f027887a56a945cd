use raw_socket::operation::Action;
use raw_socket::operation::Call;
use raw_socket::operation::Direction;
use raw_socket::operation::Event;
use raw_socket::operation::Poll;
use raw_socket::operation::State;
use raw_socket::opt::Level;
use raw_socket::opt::Name;
use raw_socket::socket::RawSocket;
use raw_socket::Error;
use raw_socket::ErrorKind;
use raw_socket::SocketAddr;
use raw_socket::SocketAddrV4;
use socket2::Domain;
use socket2::Protocol;
use socket2::Type;

type Received = (usize, SocketAddr);

fn addr(port: u16) -> SocketAddr {
    SocketAddr::V4(SocketAddrV4 { ip: 0x7f00_0001, port })
}

fn would_block() -> Error {
    Error { kind: ErrorKind::WouldBlock, code: Some(11), message: String::from("would block") }
}

#[test]
fn new_keeps_what_it_was_given() {
    let sock = RawSocket::new(Domain::ipv6(), Type::stream(), Some(Protocol::tcp()));
    assert_eq!(i32::from(sock.domain()), i32::from(Domain::ipv6()));
    assert_eq!(i32::from(sock.kind()), i32::from(Type::stream()));
    assert_eq!(sock.protocol().map(i32::from), Some(i32::from(Protocol::tcp())));

    let sock = RawSocket::new(Domain::ipv4(), Type::dgram(), None);
    assert_eq!(i32::from(sock.domain()), i32::from(Domain::ipv4()));
    assert_eq!(i32::from(sock.kind()), i32::from(Type::dgram()));
    assert!(sock.protocol().is_none());
}

#[test]
fn bind_names_the_first_candidate() {
    let sock = RawSocket::new(Domain::ipv4(), Type::dgram(), None);
    assert_eq!(sock.bind(&[addr(0)]), Ok(Call::Bind { addr: addr(0) }));
    assert_eq!(sock.bind(&[addr(7), addr(8)]), Ok(Call::Bind { addr: addr(7) }));
}

#[test]
fn bind_without_address_is_invalid_input() {
    let sock = RawSocket::new(Domain::ipv4(), Type::dgram(), None);
    assert_eq!(sock.bind(&[]), Err(Error::invalid_address()));
}

#[test]
fn local_addr_names_its_call() {
    let sock = RawSocket::new(Domain::ipv4(), Type::dgram(), None);
    assert_eq!(sock.local_addr(), Call::LocalAddr);
}

#[test]
fn get_sockopt_names_its_call() {
    let sock0 = RawSocket::new(Domain::ipv4(), Type::dgram(), None);
    let sock1 = RawSocket::new(Domain::ipv4(), Type::stream(), None);
    assert_eq!(
        sock0.get_sockopt(Level(1), Name(3)),
        Call::GetOption { level: Level(1), name: Name(3) }
    );
    assert_eq!(
        sock1.get_sockopt(Level(6), Name(1)),
        Call::GetOption { level: Level(6), name: Name(1) }
    );
}

#[test]
fn set_sockopt_names_its_call() {
    let sock = RawSocket::new(Domain::ipv4(), Type::stream(), None);
    assert_eq!(
        sock.set_sockopt(Level(1), Name(9)),
        Call::SetOption { level: Level(1), name: Name(9) }
    );
}

#[test]
fn recv_from_runs_the_protocol() {
    let mut sock = RawSocket::new(Domain::ipv4(), Type::dgram(), None);
    let (state, action) = sock.recv_from(State::NotStarted, Event::Polled);
    assert_eq!((state, action), (State::Checking, Action::PollReady(Direction::Read)));
    let (state, action) = sock.recv_from(state, Event::Readiness(Poll::Ready(Ok(()))));
    assert_eq!((state, action), (State::Attempting, Action::Attempt(Call::RecvFrom)));
    let (state, action) = sock.recv_from(state, Event::Attempted(Ok((5, addr(9)))));
    assert_eq!((state, action), (State::Complete, Action::Finish(Ok((5, addr(9))))));
}

#[test]
fn recv_msg_without_control_has_no_room() {
    let sock = RawSocket::new(Domain::ipv4(), Type::dgram(), None);
    let (state, action) =
        sock.recv_msg(None, State::Checking, Event::Readiness(Poll::Ready(Ok(()))));
    assert_eq!(state, State::Attempting);
    assert_eq!(action, Action::<Received>::Attempt(Call::RecvMsg { control: 0 }));
}

#[test]
fn recv_msg_with_control_has_its_room() {
    let sock = RawSocket::new(Domain::ipv4(), Type::dgram(), None);
    let ctrl = [0u8; 32];
    let (_, action) =
        sock.recv_msg(Some(&ctrl), State::Checking, Event::Readiness(Poll::Ready(Ok(()))));
    assert_eq!(action, Action::<Received>::Attempt(Call::RecvMsg { control: 32 }));
    let (_, action) =
        sock.poll_recv_msg(16, State::Checking, Event::Readiness(Poll::Ready(Ok(()))));
    assert_eq!(action, Action::<Received>::Attempt(Call::RecvMsg { control: 16 }));
}

#[test]
fn send_to_goes_to_the_first_candidate() {
    let mut sock = RawSocket::new(Domain::ipv4(), Type::dgram(), None);
    let candidates = [addr(1), addr(2), addr(3)];
    let (state, action) = sock.send_to(&candidates, State::NotStarted, Event::Polled);
    assert_eq!((state, action), (State::Checking, Action::PollReady(Direction::Write)));
    let (state, action) =
        sock.send_to(&candidates, state, Event::Readiness(Poll::Ready(Ok(()))));
    assert_eq!(state, State::Attempting);
    assert_eq!(action, Action::Attempt(Call::SendTo { addr: addr(1) }));
    let (state, action) = sock.send_to(&candidates, state, Event::Attempted(Ok(64)));
    assert_eq!((state, action), (State::Complete, Action::Finish(Ok(64))));
}

#[test]
fn send_to_without_address_makes_no_call() {
    let mut sock = RawSocket::new(Domain::ipv4(), Type::dgram(), None);
    let (state, action) = sock.send_to(&[], State::NotStarted, Event::Polled);
    assert_eq!(state, State::Complete);
    assert_eq!(action, Action::Finish(Err(Error::invalid_address())));
    let (state, action) =
        sock.send_to(&[], State::Checking, Event::Readiness(Poll::Ready(Ok(()))));
    assert_eq!(state, State::Complete);
    assert_eq!(action, Action::Finish(Err(Error::invalid_address())));
}

#[test]
fn send_msg_without_address_makes_no_call() {
    let mut sock = RawSocket::new(Domain::ipv4(), Type::dgram(), None);
    let (state, action) = sock.send_msg(&[], Some(&[1, 2, 3]), State::NotStarted, Event::Polled);
    assert_eq!(state, State::Complete);
    assert_eq!(action, Action::Finish(Err(Error::invalid_address())));
}

#[test]
fn send_msg_carries_address_and_control() {
    let mut sock = RawSocket::new(Domain::ipv4(), Type::dgram(), None);
    let ready = || Event::<usize>::Readiness(Poll::Ready(Ok(())));
    let (_, action) = sock.send_msg(&[addr(5), addr(6)], None, State::Checking, ready());
    assert_eq!(action, Action::Attempt(Call::SendMsg { addr: addr(5), control: 0 }));
    let (_, action) =
        sock.send_msg(&[addr(5)], Some(&[0u8; 24]), State::Checking, ready());
    assert_eq!(action, Action::Attempt(Call::SendMsg { addr: addr(5), control: 24 }));
    let (_, action) = sock.poll_send_msg(&addr(6), 12, State::Checking, ready());
    assert_eq!(action, Action::Attempt(Call::SendMsg { addr: addr(6), control: 12 }));
}

#[test]
fn message_crosses_a_wire_that_blocks_once() {
    let mut send = RawSocket::new(Domain::ipv4(), Type::dgram(), None);
    let recv = RawSocket::new(Domain::ipv4(), Type::dgram(), None);
    let from = addr(40000);
    let to = addr(40001);

    assert_eq!(send.bind(&[addr(0)]), Ok(Call::Bind { addr: addr(0) }));
    assert_eq!(recv.bind(&[addr(0)]), Ok(Call::Bind { addr: addr(0) }));

    let sent = [0u8; 64];
    let mut state = State::NotStarted;
    let mut event = Event::Polled;
    let n = loop {
        let (next, action) = send.send_msg(&[to], Some(&[]), state, event);
        state = next;
        event = match action {
            Action::PollReady(Direction::Write) => Event::Readiness(Poll::Ready(Ok(()))),
            Action::Attempt(Call::SendMsg { addr, control: 0 }) if addr == to => {
                Event::Attempted(Ok(sent.len()))
            }
            Action::Finish(result) => break result.unwrap(),
            other => panic!("unexpected {:?}", other),
        };
    };
    assert_eq!(n, sent.len());

    let mut data = [0u8; 64];
    let mut wire = vec![Err(would_block()), Ok((sent.len(), from))];
    let mut state = State::NotStarted;
    let mut event = Event::Polled;
    let (n, peer) = loop {
        let (next, action) = recv.recv_msg(Some(&[]), state, event);
        state = next;
        event = match action {
            Action::PollReady(Direction::Read) => Event::Readiness(Poll::Ready(Ok(()))),
            Action::Attempt(Call::RecvMsg { control: 0 }) => {
                let outcome = wire.remove(0);
                if outcome.is_ok() {
                    data.copy_from_slice(&sent);
                }
                Event::Attempted(outcome)
            }
            Action::ClearReady(Direction::Read) => Event::Cleared(Ok(())),
            Action::Suspend => Event::Polled,
            Action::Finish(result) => break result.unwrap(),
            other => panic!("unexpected {:?}", other),
        };
    };
    assert_eq!(n, data.len());
    assert_eq!(&sent[..], &data[..]);
    assert_eq!(peer, from);
    assert_eq!(state, State::Complete);
    assert!(wire.is_empty());
}

#[test]
fn clearing_readiness_leaves_the_operation_pending() {
    let sock = RawSocket::new(Domain::ipv4(), Type::dgram(), None);
    assert_eq!(sock.clear_read_ready::<usize>(Ok(())), Ok(Poll::Pending));
    assert_eq!(sock.clear_write_ready::<usize>(Ok(())), Ok(Poll::Pending));
}

#[test]
fn failure_to_clear_is_handed_on() {
    let sock = RawSocket::new(Domain::ipv4(), Type::dgram(), None);
    let e = Error { kind: ErrorKind::Other, code: Some(9), message: String::from("bad fd") };
    assert_eq!(sock.clear_read_ready::<usize>(Err(e.clone())), Err(e.clone()));
    assert_eq!(sock.clear_write_ready::<usize>(Err(e.clone())), Err(e));
}
