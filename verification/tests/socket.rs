use std::cell::RefCell;
use std::collections::VecDeque;
use std::rc::Rc;
use std::time::{Duration, Instant};

use zmq::context::Context;
use zmq::error::{Direction, Error, OptionError};
use zmq::message::Message;
use zmq::poll::{
    gather, poll, scatter, settle, wait_for, PollEvents, PollItem, POLLERR, POLLIN, POLLOUT,
};
use zmq::raw::{Created, Fetched, Polled, RawContext, RawSlot, RawSocket, RawValue, Received, Status};
use zmq::socket::{
    accept, after_part, check_address, conclude, part_flags, Socket, SocketType, DONTWAIT,
    SNDMORE,
};
use zmq::sockopt::{Linger, Sndhwm};

const EINVAL: i32 = 22;
const ETERM: i32 = 156384765;

type Queue = Rc<RefCell<VecDeque<(Vec<u8>, bool)>>>;

/// What the engine of these tests was asked to do, in order.
type Log = Rc<RefCell<Vec<String>>>;

/// One end of a wire between two sockets: what is sent on one end can be
/// received on the other, frame by frame, in the order it was sent.
struct Wire {
    inbox: Queue,
    outbox: Queue,
    log: Log,
    linger: i32,
}

fn pair() -> (Wire, Wire, Log) {
    let a: Queue = Rc::new(RefCell::new(VecDeque::new()));
    let b: Queue = Rc::new(RefCell::new(VecDeque::new()));
    let log: Log = Rc::new(RefCell::new(Vec::new()));
    (
        Wire { inbox: a.clone(), outbox: b.clone(), log: log.clone(), linger: 0 },
        Wire { inbox: b, outbox: a, log: log.clone(), linger: 0 },
        log,
    )
}

impl RawSocket for Wire {
    fn setsockopt(&mut self, opt: i32, value: RawValue<'_>) -> Status {
        self.log.borrow_mut().push(format!("set {}", opt));
        match value {
            RawValue::Int(v) => {
                self.linger = v;
                Status { rc: 0, code: 0 }
            }
            _ => Status { rc: -1, code: EINVAL },
        }
    }

    fn getsockopt(&mut self, opt: i32, value: &mut RawSlot) -> Fetched {
        self.log.borrow_mut().push(format!("get {}", opt));
        match value {
            RawSlot::Int(slot) => {
                *slot = self.linger;
                Fetched { rc: 0, code: 0, size: 4 }
            }
            _ => Fetched { rc: -1, code: EINVAL, size: 0 },
        }
    }

    fn connect(&mut self, endpoint: &str) -> Status {
        self.log.borrow_mut().push(format!("connect {}", endpoint));
        if endpoint.starts_with("tcp://") {
            Status { rc: 0, code: 0 }
        } else {
            Status { rc: -1, code: EINVAL }
        }
    }

    fn bind(&mut self, endpoint: &str) -> Status {
        self.log.borrow_mut().push(format!("bind {}", endpoint));
        if endpoint.starts_with("tcp://") {
            Status { rc: 0, code: 0 }
        } else {
            Status { rc: -1, code: EINVAL }
        }
    }

    fn send(&mut self, frame: Vec<u8>, flags: i32) -> Status {
        self.log.borrow_mut().push(format!("send {} {}", frame.len(), flags));
        if frame == b"full" {
            return Status { rc: -1, code: zmq_sys::errno::EAGAIN };
        }
        if frame == b"gone" {
            return Status { rc: -1, code: ETERM };
        }
        let sent = frame.len() as i32;
        self.outbox.borrow_mut().push_back((frame, flags & SNDMORE != 0));
        Status { rc: sent, code: 0 }
    }

    fn recv(&mut self, flags: i32) -> Received {
        self.log.borrow_mut().push(format!("recv {}", flags));
        match self.inbox.borrow_mut().pop_front() {
            Some((data, more)) => Received { rc: data.len() as i32, code: 0, data, more },
            None => Received {
                rc: -1,
                code: if flags & DONTWAIT != 0 { zmq_sys::errno::EAGAIN } else { ETERM },
                data: Vec::new(),
                more: false,
            },
        }
    }

    fn close(self) -> Status {
        self.log.borrow_mut().push("close".to_string());
        Status { rc: 0, code: 0 }
    }

    fn poll(sockets: &Vec<&Self>, events: &Vec<i16>, timeout: i64) -> Polled {
        if let Some(first) = sockets.first() {
            first.log.borrow_mut().push(format!("poll {} {}", sockets.len(), timeout));
        }
        let mut revents = Vec::new();
        let mut ready = 0;
        for (socket, asked) in sockets.iter().zip(events.iter()) {
            if socket.linger == -77 {
                return Polled { rc: -1, code: ETERM, revents: Vec::new() };
            }
            if socket.linger == -78 {
                return Polled { rc: 0, code: 0, revents: Vec::new() };
            }
            let mut found = POLLOUT | 0x40;
            if !socket.inbox.borrow().is_empty() {
                found |= POLLIN;
            }
            let found = found & (asked | 0x40);
            if found & 7 != 0 {
                ready += 1;
            }
            revents.push(found);
        }
        Polled { rc: ready, code: 0, revents }
    }
}

/// A context that makes ends of wires that lead nowhere, until it has made
/// as many as it may.
struct Maker {
    left: RefCell<u32>,
    log: Log,
}

impl RawContext for Maker {
    type Socket = Wire;

    fn socket(&self, kind: i32) -> Created<Wire> {
        self.log.borrow_mut().push(format!("socket {}", kind));
        let mut left = self.left.borrow_mut();
        if *left == 0 {
            Created { socket: None, code: 24 }
        } else {
            *left -= 1;
            let (wire, _, _) = pair();
            Created { socket: Some(wire), code: 0 }
        }
    }

    fn term(self) -> Status {
        self.log.borrow_mut().push("term".to_string());
        Status { rc: 0, code: 0 }
    }
}

fn sockets<'c>() -> (Socket<'c, Wire>, Socket<'c, Wire>, Log) {
    let (a, b, log) = pair();
    (Socket::new(a, SocketType::Push), Socket::new(b, SocketType::Pull), log)
}

#[test]
fn three_frames_arrive_as_three_frames() {
    let (mut sender, mut receiver, log) = sockets();
    let payload = vec![b"header".to_vec(), Vec::new(), b"the body".to_vec()];
    let parts: Vec<Message> = payload.iter().map(|p| Message::from_bytes(p.clone())).collect();
    assert_eq!(sender.send_multipart(parts, 0), Ok(()));
    assert_eq!(*log.borrow(), vec!["send 6 2", "send 0 2", "send 8 0"]);

    let mut got = Vec::new();
    let mut frames = receiver.receive_iter(0);
    while let Some(frame) = frames.next() {
        got.push(frame.unwrap().into_bytes());
    }
    assert!(frames.is_finished());
    assert!(frames.next().is_none());
    assert_eq!(got, payload);
}

#[test]
fn frames_sent_one_by_one_arrive_in_order() {
    let (mut sender, mut receiver, _) = sockets();
    sender.send(Message::from_slice(b"1"), SNDMORE).unwrap();
    sender.send(Message::from_slice(b"2"), SNDMORE).unwrap();
    sender.send(Message::from_slice(b"3"), 0).unwrap();
    sender.send(Message::from_slice(b"next"), 0).unwrap();

    let mut frames = receiver.receive_iter(0);
    assert_eq!(frames.next().unwrap().unwrap().as_bytes(), b"1");
    assert!(!frames.is_finished());
    assert_eq!(frames.next().unwrap().unwrap().as_bytes(), b"2");
    assert_eq!(frames.next().unwrap().unwrap().as_bytes(), b"3");
    assert!(frames.is_finished());
    assert!(frames.next().is_none());
    assert!(frames.next().is_none());

    assert_eq!(receiver.receive(0).unwrap().as_bytes(), b"next");
}

#[test]
fn empty_multipart_sends_nothing() {
    let (mut sender, _receiver, log) = sockets();
    assert_eq!(sender.send_multipart(Vec::new(), 0), Ok(()));
    assert!(log.borrow().is_empty());
}

#[test]
fn multipart_stops_at_the_first_failure() {
    let (mut sender, _receiver, log) = sockets();
    let parts = vec![
        Message::from_slice(b"a"),
        Message::from_slice(b"gone"),
        Message::from_slice(b"c"),
    ];
    assert_eq!(sender.send_multipart(parts, 0), Err(Error::Transport { code: ETERM }));
    assert_eq!(*log.borrow(), vec!["send 1 2", "send 4 2"]);
}

#[test]
fn part_flags_mark_all_but_the_last() {
    assert_eq!(part_flags(0, 0, 3), SNDMORE);
    assert_eq!(part_flags(0, 1, 3), SNDMORE);
    assert_eq!(part_flags(0, 2, 3), 0);
    assert_eq!(part_flags(DONTWAIT, 0, 2), DONTWAIT | SNDMORE);
    assert_eq!(part_flags(DONTWAIT, 1, 2), DONTWAIT);
    assert_eq!(part_flags(0, 0, 1), 0);
    assert_eq!(part_flags(0, usize::MAX, usize::MAX), 0);
    assert_eq!(part_flags(0, 5, 0), 0);
}

#[test]
fn receive_without_waiting_would_block_at_once() {
    let (_sender, mut receiver, _) = sockets();
    let start = Instant::now();
    assert_eq!(receiver.receive(DONTWAIT), Err(Error::WouldBlock));
    assert!(start.elapsed() < Duration::from_secs(1));
}

#[test]
fn receive_sequence_ends_after_a_failure() {
    let (_sender, mut receiver, log) = sockets();
    let mut frames = receiver.receive_iter(DONTWAIT);
    assert_eq!(frames.next(), Some(Err(Error::WouldBlock)));
    assert!(frames.is_finished());
    assert_eq!(frames.next(), None);
    assert_eq!(*log.borrow(), vec!["recv 1"]);
}

#[test]
fn send_that_would_block_says_so() {
    let (mut sender, _receiver, _) = sockets();
    assert_eq!(sender.send(Message::from_slice(b"full"), DONTWAIT), Err(Error::WouldBlock));
    assert_eq!(
        sender.send(Message::from_slice(b"gone"), DONTWAIT),
        Err(Error::Transport { code: ETERM })
    );
}

#[test]
fn conclude_tells_the_three_outcomes_apart() {
    assert_eq!(conclude(0, 11, 11), Ok(()));
    assert_eq!(conclude(17, 11, 11), Ok(()));
    assert_eq!(conclude(-1, 11, 11), Err(Error::WouldBlock));
    assert_eq!(conclude(-1, 4, 11), Err(Error::Transport { code: 4 }));
    assert_eq!(conclude(i32::MIN, 0, 11), Err(Error::Transport { code: 0 }));
}

#[test]
fn accept_reports_more_only_after_a_frame() {
    let (frame, more) =
        accept(Received { rc: 2, code: 0, data: vec![1, 2], more: true }, 11);
    assert_eq!(frame.unwrap().as_bytes(), &[1, 2]);
    assert!(more);
    let (frame, more) =
        accept(Received { rc: 0, code: 0, data: Vec::new(), more: false }, 11);
    assert!(frame.unwrap().is_empty());
    assert!(!more);
    let (frame, more) =
        accept(Received { rc: -1, code: 11, data: vec![1], more: true }, 11);
    assert_eq!(frame, Err(Error::WouldBlock));
    assert!(!more);
}

#[test]
fn closed_socket_fails_every_operation() {
    let (mut socket, _peer, log) = sockets();
    assert!(!socket.closed());
    assert_eq!(socket.close(), Ok(()));
    assert!(socket.closed());
    assert_eq!(*log.borrow(), vec!["close"]);

    assert_eq!(socket.close(), Err(Error::Closed));
    assert_eq!(socket.connect("tcp://localhost:5555"), Err(Error::Closed));
    assert_eq!(socket.bind("tcp://*:5555"), Err(Error::Closed));
    assert_eq!(socket.send(Message::new(), 0), Err(Error::Closed));
    assert_eq!(socket.receive(0), Err(Error::Closed));
    assert_eq!(socket.send_multipart(vec![Message::new()], 0), Err(Error::Closed));
    assert_eq!(socket.send_multipart(Vec::new(), 0), Err(Error::Closed));
    assert_eq!(
        socket.get_option::<Linger>(),
        Err(OptionError { option: 17, direction: Direction::Read, error: Error::Closed })
    );
    assert_eq!(
        socket.set_option::<Sndhwm>(3),
        Err(OptionError { option: 23, direction: Direction::Write, error: Error::Closed })
    );
    let mut frames = socket.receive_iter(0);
    assert_eq!(frames.next(), Some(Err(Error::Closed)));
    assert_eq!(frames.next(), None);
    assert_eq!(socket.kind(), SocketType::Push);
    assert_eq!(*log.borrow(), vec!["close"]);
}

#[test]
fn options_go_through_an_open_socket() {
    let (mut socket, _peer, log) = sockets();
    assert_eq!(socket.set_option::<Linger>(-1), Ok(()));
    assert_eq!(socket.get_option::<Linger>(), Ok(-1));
    assert_eq!(*log.borrow(), vec!["set 17", "get 17"]);
}

#[test]
fn endpoint_with_a_zero_byte_is_no_address() {
    let (mut socket, _peer, log) = sockets();
    assert_eq!(socket.connect("tcp://host\0:1"), Err(Error::Address));
    assert_eq!(socket.bind("\0"), Err(Error::Address));
    assert!(log.borrow().is_empty());
    assert!(!check_address("tcp://a\0b"));
    assert!(check_address("tcp://localhost:5555"));
    assert!(check_address(""));
    assert!(check_address("inproc://h\u{e9}te"));
}

#[test]
fn other_endpoints_are_left_to_the_engine() {
    let (mut socket, _peer, log) = sockets();
    assert_eq!(socket.connect("tcp://localhost:5555"), Ok(()));
    assert_eq!(socket.bind("tcp://*:5556"), Ok(()));
    assert_eq!(socket.connect("nonsense"), Err(Error::Transport { code: EINVAL }));
    assert_eq!(socket.bind(""), Err(Error::Transport { code: EINVAL }));
    assert_eq!(
        *log.borrow(),
        vec!["connect tcp://localhost:5555", "bind tcp://*:5556", "connect nonsense", "bind "]
    );
}

#[test]
fn socket_type_numbers_are_those_of_the_engine() {
    let all = [
        (SocketType::Pair, zmq_sys::ZMQ_PAIR),
        (SocketType::Pub, zmq_sys::ZMQ_PUB),
        (SocketType::Sub, zmq_sys::ZMQ_SUB),
        (SocketType::Req, zmq_sys::ZMQ_REQ),
        (SocketType::Rep, zmq_sys::ZMQ_REP),
        (SocketType::Dealer, zmq_sys::ZMQ_DEALER),
        (SocketType::Router, zmq_sys::ZMQ_ROUTER),
        (SocketType::Pull, zmq_sys::ZMQ_PULL),
        (SocketType::Push, zmq_sys::ZMQ_PUSH),
        (SocketType::XPub, zmq_sys::ZMQ_XPUB),
        (SocketType::XSub, zmq_sys::ZMQ_XSUB),
        (SocketType::Stream, zmq_sys::ZMQ_STREAM),
    ];
    for (kind, number) in all {
        assert_eq!(kind.to_raw() as i64, number as i64);
        assert_eq!(SocketType::from_raw(kind.to_raw()), Some(kind));
    }
    assert_eq!(SocketType::from_raw(12), None);
    assert_eq!(SocketType::from_raw(-1), None);
}

#[test]
fn flags_are_those_of_the_engine() {
    assert_eq!(DONTWAIT as i64, zmq_sys::ZMQ_DONTWAIT as i64);
    assert_eq!(SNDMORE as i64, zmq_sys::ZMQ_SNDMORE as i64);
    assert_eq!(POLLIN as i64, zmq_sys::ZMQ_POLLIN as i64);
    assert_eq!(POLLOUT as i64, zmq_sys::ZMQ_POLLOUT as i64);
    assert_eq!(POLLERR as i64, zmq_sys::ZMQ_POLLERR as i64);
}

#[test]
fn poll_counts_the_ready_entry_and_flags_it() {
    let (mut sender, receiver, log) = sockets();
    let (_other_sender, idle, _) = sockets();
    sender.send(Message::from_slice(b"ping"), 0).unwrap();
    log.borrow_mut().clear();

    let readable = PollEvents::from_bits_truncate(POLLIN);
    let mut items = vec![PollItem::new(&receiver, readable), PollItem::new(&idle, readable)];
    assert_eq!(poll(&mut items, 0), Ok(1));
    assert!(items[0].is_readable());
    assert!(!items[0].is_writable());
    assert!(!items[0].is_error());
    assert_eq!(items[0].revents().bits(), POLLIN);
    assert!(!items[1].is_readable());
    assert!(items[1].revents().is_empty());
    assert_eq!(items[0].events(), readable);
    assert_eq!(*log.borrow(), vec!["poll 2 0"]);
}

#[test]
fn poll_passes_the_timeout_on() {
    let (_sender, receiver, log) = sockets();
    let mut items = vec![PollItem::new(&receiver, PollEvents::all())];
    assert_eq!(poll(&mut items, -1), Ok(1));
    assert_eq!(items[0].revents().bits(), POLLOUT);
    assert_eq!(poll(&mut items, 250), Ok(1));
    assert_eq!(*log.borrow(), vec!["poll 1 -1", "poll 1 250"]);
}

#[test]
fn poll_of_nothing_finds_nothing() {
    let mut items: Vec<PollItem<'_, '_, Wire>> = Vec::new();
    assert_eq!(poll(&mut items, 0), Ok(0));
}

#[test]
fn poll_flags_a_closed_socket_and_still_asks_for_the_others() {
    let (mut sender, receiver, log) = sockets();
    let (mut gone, _peer, _) = sockets();
    gone.close().unwrap();
    sender.send(Message::from_slice(b"ping"), 0).unwrap();
    log.borrow_mut().clear();

    let readable = PollEvents::from_bits_truncate(POLLIN);
    let mut items = vec![
        PollItem::new(&gone, readable),
        PollItem::new(&receiver, readable),
        PollItem::new(&sender, readable),
    ];
    assert_eq!(poll(&mut items, 1000), Ok(2));
    assert!(items[0].is_error());
    assert_eq!(items[0].revents().bits(), POLLERR);
    assert!(items[1].is_readable());
    assert!(items[2].revents().is_empty());
    assert_eq!(*log.borrow(), vec!["poll 2 0"]);
}

#[test]
fn poll_failure_leaves_the_entries_alone() {
    let (_sender, mut receiver, _) = sockets();
    receiver.set_option::<Linger>(-77).unwrap();
    let mut items = vec![PollItem::new(&receiver, PollEvents::all())];
    assert_eq!(poll(&mut items, 0), Err(Error::Transport { code: ETERM }));
    assert!(items[0].revents().is_empty());
    assert_eq!(items[0].events(), PollEvents::all());
}

#[test]
fn poll_answer_of_another_length_is_a_marshal_failure() {
    let (_sender, mut receiver, _) = sockets();
    receiver.set_option::<Linger>(-78).unwrap();
    let mut items = vec![PollItem::new(&receiver, PollEvents::all())];
    assert_eq!(poll(&mut items, 0), Err(Error::Marshal));
    assert!(items[0].revents().is_empty());
}

#[test]
fn settle_keeps_the_known_bits() {
    assert_eq!(settle(false, 0x43).bits(), 3);
    assert_eq!(settle(false, 0).bits(), 0);
    assert_eq!(settle(false, -1).bits(), 7);
    assert_eq!(settle(true, 0x43).bits(), POLLERR);
    assert_eq!(settle(true, 0).bits(), POLLERR);
}

#[test]
fn context_makes_open_sockets_of_the_pattern_asked_for() {
    let log: Log = Rc::new(RefCell::new(Vec::new()));
    let mut context = Context::new(Maker { left: RefCell::new(2), log: log.clone() });
    {
        let req = context.socket(SocketType::Req).unwrap();
        let router = context.socket(SocketType::Router).unwrap();
        assert_eq!(req.kind(), SocketType::Req);
        assert_eq!(router.kind(), SocketType::Router);
        assert!(!req.closed() && !router.closed());
        assert_eq!(context.socket(SocketType::Pub).err(), Some(Error::Transport { code: 24 }));
    }
    assert!(!context.closed());
    assert_eq!(context.close(), Ok(()));
    assert!(context.closed());
    assert_eq!(context.close(), Err(Error::Closed));
    assert_eq!(context.socket(SocketType::Req).err(), Some(Error::Closed));
    assert_eq!(*log.borrow(), vec!["socket 3", "socket 6", "socket 1", "term"]);
}

#[test]
fn after_part_ends_on_failure_or_on_the_last_frame() {
    assert_eq!(after_part(Ok(()), 0, 3), None);
    assert_eq!(after_part(Ok(()), 1, 3), None);
    assert_eq!(after_part(Ok(()), 2, 3), Some(Ok(())));
    assert_eq!(after_part(Ok(()), 0, 1), Some(Ok(())));
    assert_eq!(after_part(Err(Error::WouldBlock), 0, 3), Some(Err(Error::WouldBlock)));
    assert_eq!(
        after_part(Err(Error::Transport { code: 5 }), 2, 3),
        Some(Err(Error::Transport { code: 5 }))
    );
    assert_eq!(after_part(Ok(()), 7, 3), Some(Ok(())));
    assert_eq!(after_part(Ok(()), usize::MAX, usize::MAX), Some(Ok(())));
    assert_eq!(after_part(Ok(()), usize::MAX - 1, usize::MAX), Some(Ok(())));
    assert_eq!(after_part(Ok(()), usize::MAX - 2, usize::MAX), None);
    assert_eq!(after_part(Ok(()), 0, 0), Some(Ok(())));
}

#[test]
fn multipart_that_would_block_on_the_last_frame_fails() {
    let (mut sender, mut receiver, log) = sockets();
    let parts = vec![Message::from_slice(b"a"), Message::from_slice(b"full")];
    assert_eq!(sender.send_multipart(parts, DONTWAIT), Err(Error::WouldBlock));
    assert_eq!(*log.borrow(), vec!["send 1 3", "send 4 1"]);
    assert_eq!(receiver.receive(DONTWAIT).unwrap().as_bytes(), b"a");
    assert_eq!(receiver.receive(DONTWAIT), Err(Error::WouldBlock));
}

#[test]
fn receive_sequence_asks_with_the_flags_it_was_started_with() {
    let (mut sender, mut receiver, log) = sockets();
    sender.send(Message::from_slice(b"1"), SNDMORE).unwrap();
    sender.send(Message::from_slice(b"2"), 0).unwrap();
    log.borrow_mut().clear();
    let mut frames = receiver.receive_iter(DONTWAIT);
    assert_eq!(frames.flags(), DONTWAIT);
    frames.next().unwrap().unwrap();
    assert_eq!(frames.flags(), DONTWAIT);
    frames.next().unwrap().unwrap();
    assert_eq!(frames.next(), None);
    assert_eq!(frames.flags(), DONTWAIT);
    assert_eq!(*log.borrow(), vec!["recv 1", "recv 1"]);
}

#[test]
fn gather_hands_over_the_open_sockets_and_their_interests() {
    let (a, b, _) = sockets();
    let (mut gone, c, _) = sockets();
    gone.close().unwrap();
    let readable = PollEvents::from_bits_truncate(POLLIN);
    let writable = PollEvents::from_bits_truncate(POLLOUT);
    let items = vec![
        PollItem::new(&a, readable),
        PollItem::new(&gone, PollEvents::all()),
        PollItem::new(&b, writable),
        PollItem::new(&c, PollEvents::empty()),
    ];
    let (handed, events, any_closed) = gather(&items);
    assert_eq!(events, vec![POLLIN, POLLOUT, 0]);
    assert_eq!(handed.len(), 3);
    assert!(any_closed);

    let open = vec![PollItem::new(&b, PollEvents::all())];
    let (handed, events, any_closed) = gather(&open);
    assert_eq!(events, vec![7]);
    assert_eq!(handed.len(), 1);
    assert!(!any_closed);

    let none: Vec<PollItem<'_, '_, Wire>> = Vec::new();
    let (handed, events, any_closed) = gather(&none);
    assert!(handed.is_empty() && events.is_empty() && !any_closed);
}

#[test]
fn gather_hands_over_each_socket_at_its_own_place() {
    let (mut first, mut second, _) = sockets();
    first.set_option::<Linger>(11).unwrap();
    second.set_option::<Linger>(22).unwrap();
    let (mut gone, _peer, _) = sockets();
    gone.close().unwrap();
    let items = vec![
        PollItem::new(&gone, PollEvents::all()),
        PollItem::new(&second, PollEvents::all()),
        PollItem::new(&first, PollEvents::all()),
    ];
    let (handed, _, _) = gather(&items);
    let lingers: Vec<i32> = handed.iter().map(|wire| wire.linger).collect();
    assert_eq!(lingers, vec![22, 11]);
}

#[test]
fn scatter_gives_each_entry_the_report_at_its_place() {
    let (a, b, _) = sockets();
    let (mut gone, c, _) = sockets();
    gone.close().unwrap();
    let all = PollEvents::all();
    let mut items = vec![
        PollItem::new(&a, all),
        PollItem::new(&gone, all),
        PollItem::new(&b, all),
        PollItem::new(&c, all),
    ];
    assert_eq!(scatter(&mut items, 2, 0, &vec![POLLIN, 0, POLLOUT | 0x100]), Ok(3));
    assert_eq!(items[0].revents().bits(), POLLIN);
    assert_eq!(items[1].revents().bits(), POLLERR);
    assert_eq!(items[2].revents().bits(), 0);
    assert_eq!(items[3].revents().bits(), POLLOUT);

    assert_eq!(scatter(&mut items, 0, 0, &vec![0, 0, 0]), Ok(1));
    assert_eq!(items[0].revents().bits(), 0);
    assert_eq!(items[1].revents().bits(), POLLERR);
    assert_eq!(items[3].revents().bits(), 0);
}

#[test]
fn scatter_leaves_the_entries_alone_on_failure() {
    let (a, _b, _) = sockets();
    let (mut gone, _c, _) = sockets();
    gone.close().unwrap();
    let all = PollEvents::all();
    let mut items = vec![PollItem::new(&a, all), PollItem::new(&gone, all)];
    assert_eq!(scatter(&mut items, 1, 0, &vec![POLLIN]), Ok(2));

    assert_eq!(scatter(&mut items, -1, ETERM, &vec![0]), Err(Error::Transport { code: ETERM }));
    assert_eq!(scatter(&mut items, -1, 7, &vec![]), Err(Error::Transport { code: 7 }));
    assert_eq!(scatter(&mut items, 0, 7, &vec![]), Err(Error::Marshal));
    assert_eq!(scatter(&mut items, 2, 7, &vec![0, 0]), Err(Error::Marshal));
    assert_eq!(items[0].revents().bits(), POLLIN);
    assert_eq!(items[1].revents().bits(), POLLERR);
    assert_eq!(items[0].events(), all);
}

#[test]
fn wait_is_cut_short_only_where_a_socket_is_closed() {
    assert_eq!(wait_for(250, false), 250);
    assert_eq!(wait_for(-1, false), -1);
    assert_eq!(wait_for(0, false), 0);
    assert_eq!(wait_for(250, true), 0);
    assert_eq!(wait_for(-1, true), 0);
}

#[test]
fn poll_hands_over_the_events_asked_for() {
    let (mut sender, receiver, _) = sockets();
    sender.send(Message::from_slice(b"ping"), 0).unwrap();
    let mut items = vec![PollItem::new(&receiver, PollEvents::from_bits_truncate(POLLOUT))];
    assert_eq!(poll(&mut items, 0), Ok(1));
    assert_eq!(items[0].revents().bits(), POLLOUT);
    let mut items = vec![PollItem::new(&receiver, PollEvents::empty())];
    assert_eq!(poll(&mut items, 0), Ok(0));
    assert!(items[0].revents().is_empty());
}
