//! A socket: one endpoint of the engine, with the pattern it was made for,
//! typed access to its options, and framed sending and receiving.
//!
//! Every operation takes the socket by `&mut`, and a multi-part receive
//! keeps that borrow for as long as it lives, so no two operations on one
//! socket can be under way at once: the compiler refuses such a program.

use vstd::prelude::*;
use vstd::utf8::encode_utf8;
use std::marker::PhantomData;
use crate::error::{Direction, Error, OptionError};
use crate::message::Message;
use crate::raw::{RawSocket, Received, Status};
use crate::sockopt::{check, outcome, OptionGet, OptionSet, SocketOption};

verus! {

/// The flag that keeps a send or a receive from waiting.
pub const DONTWAIT: i32 = 1;

/// The flag that says that more frames of the same message follow.
pub const SNDMORE: i32 = 2;

/// The messaging pattern of a socket.
#[derive(Clone, Copy, Debug, PartialEq, Eq, Structural)]
pub enum SocketType {
    /// One of exactly two peers.
    Pair,
    /// A publisher: sends to all its subscribers.
    Pub,
    /// A subscriber: receives what it has subscribed to.
    Sub,
    /// A client that sends a request and then receives the reply.
    Req,
    /// A service that receives a request and then sends the reply.
    Rep,
    /// A client or service that sends and receives without taking turns.
    Dealer,
    /// A service that addresses each peer by its identity.
    Router,
    /// The receiving end of a pipeline.
    Pull,
    /// The sending end of a pipeline.
    Push,
    /// A publisher that also receives the subscriptions.
    XPub,
    /// A subscriber that sends its subscriptions as messages.
    XSub,
    /// An endpoint that talks to a peer that is no socket of the engine.
    Stream,
}

impl SocketType {
    /// The number by which the engine knows the pattern.
    pub open spec fn raw(self) -> i32 {
        match self {
            SocketType::Pair => 0,
            SocketType::Pub => 1,
            SocketType::Sub => 2,
            SocketType::Req => 3,
            SocketType::Rep => 4,
            SocketType::Dealer => 5,
            SocketType::Router => 6,
            SocketType::Pull => 7,
            SocketType::Push => 8,
            SocketType::XPub => 9,
            SocketType::XSub => 10,
            SocketType::Stream => 11,
        }
    }

    /// The number by which the engine knows the pattern.
    pub fn to_raw(self) -> (r: i32)
        ensures
            r == self.raw(),
    {
        match self {
            SocketType::Pair => 0,
            SocketType::Pub => 1,
            SocketType::Sub => 2,
            SocketType::Req => 3,
            SocketType::Rep => 4,
            SocketType::Dealer => 5,
            SocketType::Router => 6,
            SocketType::Pull => 7,
            SocketType::Push => 8,
            SocketType::XPub => 9,
            SocketType::XSub => 10,
            SocketType::Stream => 11,
        }
    }

    /// The pattern that the engine knows by `raw`, if there is one.
    pub fn from_raw(raw: i32) -> (r: Option<SocketType>)
        ensures
            match r {
                Some(kind) => kind.raw() == raw,
                None => forall|kind: SocketType| kind.raw() != raw,
            },
    {
        match raw {
            0 => Some(SocketType::Pair),
            1 => Some(SocketType::Pub),
            2 => Some(SocketType::Sub),
            3 => Some(SocketType::Req),
            4 => Some(SocketType::Rep),
            5 => Some(SocketType::Dealer),
            6 => Some(SocketType::Router),
            7 => Some(SocketType::Pull),
            8 => Some(SocketType::Push),
            9 => Some(SocketType::XPub),
            10 => Some(SocketType::XSub),
            11 => Some(SocketType::Stream),
            _ => None,
        }
    }
}

/// No two patterns share a number, so the number of a pattern leads back to
/// that pattern and to no other.
pub proof fn lemma_pattern_numbers_differ(a: SocketType, b: SocketType)
    ensures
        a.raw() == b.raw() <==> a == b,
{
}

/// `zmq_sys::errno::EAGAIN`: the error number by which the engine says that
/// a call found nothing to do without waiting. Its value differs between
/// platforms, so nothing is claimed of it.
#[verifier::external_body]
fn again() -> i32 {
    zmq_sys::errno::EAGAIN
}

/// What sending or receiving a frame amounts to, given the return code, the
/// engine's error number, and the error number `again` that stands for
/// "nothing to do without waiting".
pub open spec fn transfer(rc: i32, code: i32, again: i32) -> Result<(), Error> {
    if rc >= 0 {
        Ok(())
    } else if code == again {
        Err(Error::WouldBlock)
    } else {
        Err(Error::Transport { code })
    }
}

/// Turns the return code of a send or a receive into a result.
pub fn conclude(rc: i32, code: i32, again: i32) -> (r: Result<(), Error>)
    ensures
        r == transfer(rc, code, again),
{
    if rc >= 0 {
        Ok(())
    } else if code == again {
        Err(Error::WouldBlock)
    } else {
        Err(Error::Transport { code })
    }
}

/// A send or a receive that found nothing to do without waiting says so
/// and nothing else: the failure is `WouldBlock` exactly when the engine
/// reports failure with the error number that stands for it, and then no
/// frame is returned; every other failure keeps the engine's error number.
pub proof fn lemma_would_block(rc: i32, code: i32, again: i32, data: Seq<u8>)
    ensures
        transfer(rc, code, again) == Err::<(), Error>(Error::WouldBlock) <==> rc < 0 && code
            == again,
        frame(rc, code, again, data) == Err::<Seq<u8>, Error>(Error::WouldBlock) <==> rc < 0
            && code == again,
        rc < 0 && code != again ==> transfer(rc, code, again) == Err::<(), Error>(
            Error::Transport { code },
        ),
        rc >= 0 ==> frame(rc, code, again, data) == Ok::<Seq<u8>, Error>(data),
        ends(rc, true) <==> rc < 0,
{
}

/// Whether `endpoint` can be handed to the engine as an address: it can
/// unless it holds a zero byte, which would end it early.
pub open spec fn is_address(endpoint: Seq<char>) -> bool {
    !encode_utf8(endpoint).contains(0u8)
}

/// Whether `endpoint` can be handed to the engine as an address.
pub fn check_address(endpoint: &str) -> (ok: bool)
    ensures
        ok == is_address(endpoint@),
{
    let bytes = endpoint.as_bytes();
    let mut i: usize = 0;
    while i < bytes.len()
        invariant
            i <= bytes@.len(),
            bytes@ == encode_utf8(endpoint@),
            forall|j: int| 0 <= j < i ==> bytes@[j] != 0u8,
        decreases bytes@.len() - i,
    {
        if bytes[i] == 0 {
            assert(bytes@.contains(0u8));
            return false;
        }
        i = i + 1;
    }
    true
}

/// The outcome of a receive, with the frame as its bytes.
pub open spec fn frame_view(r: Result<Message, Error>) -> Result<Seq<u8>, Error> {
    match r {
        Ok(m) => Ok(m@),
        Err(e) => Err(e),
    }
}

/// What receiving a frame amounts to, given the return code, the engine's
/// error number, the error number `again`, and the bytes that came with
/// the answer.
pub open spec fn frame(rc: i32, code: i32, again: i32, data: Seq<u8>) -> Result<Seq<u8>, Error> {
    match transfer(rc, code, again) {
        Ok(()) => Ok(data),
        Err(e) => Err(e),
    }
}

/// Turns the engine's answer to a receive into the frame or the failure,
/// and says whether more frames of the same message follow: they do only
/// after a frame that arrived and was marked so.
pub fn accept(received: Received, again: i32) -> (r: (Result<Message, Error>, bool))
    ensures
        frame_view(r.0) == frame(received.rc, received.code, again, received.data@),
        r.1 == (received.rc >= 0 && received.more),
{
    match conclude(received.rc, received.code, again) {
        Ok(()) => (Ok(Message::from_bytes(received.data)), received.more),
        Err(e) => (Err(e), false),
    }
}

/// Whether a sequence of frames ends with an answer of the engine: it does
/// unless a frame arrived and was marked as followed by more.
pub open spec fn ends(rc: i32, more: bool) -> bool {
    !(rc >= 0 && more)
}

/// The flags with which the frame at `index` of a message of `count`
/// frames is sent: the last frame goes with `flags` as they are, every other
/// one also with the mark that more frames follow.
pub open spec fn flags_of_part(flags: i32, index: usize, count: usize) -> i32 {
    if index + 1 < count {
        flags | SNDMORE
    } else {
        flags
    }
}

/// The flags with which the frame at `index` of a message of `count`
/// frames is sent.
pub fn part_flags(flags: i32, index: usize, count: usize) -> (r: i32)
    ensures
        r == flags_of_part(flags, index, count),
{
    if index < count && index + 1 < count {
        flags | SNDMORE
    } else {
        flags
    }
}

/// What follows the sending of the frame at `index` of a message of
/// `count` frames, given how that sending went: a failure ends the sending
/// and is the result of the whole; success with the last frame ends it with
/// success; success with any other frame lets it go on.
pub open spec fn step_after(sent: Result<(), Error>, index: usize, count: usize) -> Option<
    Result<(), Error>,
> {
    if sent is Err {
        Some(sent)
    } else if index + 1 >= count {
        Some(Ok(()))
    } else {
        None
    }
}

/// What follows the sending of the frame at `index` of a message of
/// `count` frames: the result of the whole, or nothing while frames are
/// left to send.
pub fn after_part(sent: Result<(), Error>, index: usize, count: usize) -> (next: Option<
    Result<(), Error>,
>)
    ensures
        next == step_after(sent, index, count),
{
    if sent.is_err() {
        Some(sent)
    } else if index >= count || count - index <= 1 {
        Some(Ok(()))
    } else {
        None
    }
}

/// Whether `outcome` is a result that handing one frame to the engine can
/// have.
pub open spec fn transferred(outcome: Result<(), Error>) -> bool {
    exists|rc: i32, code: i32, again: i32| outcome == transfer(rc, code, again)
}

/// Whether `r` is what sending a message of `count` frames comes to, when
/// `outcomes` are the results of the frames that were handed to the engine,
/// in their order: at least one frame was handed over and none beyond the
/// message; every frame before the last one handed over was accepted; the
/// result is that of the last one; and it is success only if the whole
/// message was handed over.
pub open spec fn sent_as(outcomes: Seq<Result<(), Error>>, count: nat, r: Result<(), Error>) -> bool {
    &&& 0 < outcomes.len() <= count
    &&& forall|k: int| 0 <= k < outcomes.len() ==> transferred(#[trigger] outcomes[k])
    &&& forall|k: int| 0 <= k < outcomes.len() - 1 ==> (#[trigger] outcomes[k]) is Ok
    &&& r == outcomes.last()
    &&& r is Ok ==> outcomes.len() == count
}

/// Of the frames of a message that is sent with flags that do not
/// themselves say "more follow", every frame but the last is marked as
/// followed by more, and the last is not.
pub proof fn lemma_only_the_last_part_ends(flags: i32, index: usize, count: usize)
    requires
        flags & SNDMORE == 0,
        index < count,
    ensures
        (flags_of_part(flags, index, count) & SNDMORE != 0) <==> index + 1 < count,
{
    assert((flags | 2i32) & 2i32 != 0i32) by (bit_vector);
}

/// A socket of the engine. It owns its endpoint until it is closed, and it
/// is neither copied nor cloned: closing gives the endpoint up to the
/// engine, so it is released once and cannot be used afterwards. A socket
/// that a context made borrows that context for `'c`, so the context cannot
/// be shut down while the socket is alive.
pub struct Socket<'c, S: RawSocket> {
    raw: Option<S>,
    kind: SocketType,
    context: PhantomData<&'c ()>,
}

impl<'c, S: RawSocket> Socket<'c, S> {
    /// Whether the socket has been closed.
    pub closed spec fn is_closed(&self) -> bool {
        self.raw is None
    }

    /// The pattern the socket was made for.
    pub closed spec fn pattern(&self) -> SocketType {
        self.kind
    }

    /// The socket that owns the endpoint `raw`, which was made for `kind`.
    pub fn new(raw: S, kind: SocketType) -> (s: Socket<'c, S>)
        ensures
            !s.is_closed(),
            s.pattern() == kind,
    {
        Socket { raw: Some(raw), kind, context: PhantomData }
    }

    /// The pattern the socket was made for.
    pub fn kind(&self) -> (k: SocketType)
        ensures
            k == self.pattern(),
    {
        self.kind
    }

    /// The endpoint the socket owns, if it is open.
    pub closed spec fn handle(&self) -> Option<S> {
        self.raw
    }

    /// The endpoint the socket owns, if it is open.
    pub(crate) fn endpoint(&self) -> (e: Option<&S>)
        ensures
            e is None == self.is_closed(),
            match e {
                Some(raw) => self.handle() == Some(*raw),
                None => self.handle() is None,
            },
    {
        self.raw.as_ref()
    }

    /// Whether the socket has been closed.
    pub fn closed(&self) -> (b: bool)
        ensures
            b == self.is_closed(),
    {
        self.raw.is_none()
    }

    /// Reads the option `O`. On a closed socket this fails with `Closed`, and
    /// the engine is not asked; on an open one the result is what reading
    /// the option gives.
    pub fn get_option<O: OptionGet>(&mut self) -> (r: Result<O::Item, OptionError>)
        ensures
            final(self).is_closed() == old(self).is_closed(),
            final(self).pattern() == old(self).pattern(),
            old(self).is_closed() ==> r == Err::<O::Item, OptionError>(
                OptionError {
                    option: O::descriptor().id,
                    direction: Direction::Read,
                    error: Error::Closed,
                },
            ),
            !old(self).is_closed() ==> O::reads(r),
            r matches Err(e) ==> e.option == O::descriptor().id && e.direction == Direction::Read,
    {
        match &mut self.raw {
            Some(raw) => O::get(raw),
            None => Err(
                OptionError {
                    option: O::describe().id,
                    direction: Direction::Read,
                    error: Error::Closed,
                },
            ),
        }
    }

    /// Writes `value` to the option `O`. On a closed socket this fails with
    /// `Closed`, and the engine is not asked; on an open one the result is
    /// what writing the option gives.
    pub fn set_option<O: OptionSet>(&mut self, value: O::Item) -> (r: Result<(), OptionError>)
        ensures
            final(self).is_closed() == old(self).is_closed(),
            final(self).pattern() == old(self).pattern(),
            old(self).is_closed() ==> r == Err::<(), OptionError>(
                OptionError {
                    option: O::descriptor().id,
                    direction: Direction::Write,
                    error: Error::Closed,
                },
            ),
            !old(self).is_closed() ==> O::writes(value, r),
            r matches Err(e) ==> e.option == O::descriptor().id && e.direction == Direction::Write,
    {
        match &mut self.raw {
            Some(raw) => O::set(raw, value),
            None => Err(
                OptionError {
                    option: O::describe().id,
                    direction: Direction::Write,
                    error: Error::Closed,
                },
            ),
        }
    }

    /// Connects the socket to `endpoint`.
    ///
    /// A closed socket fails with `Closed`; an endpoint that is no address
    /// fails with `Address`; neither reaches the engine. Otherwise the
    /// result is the engine's.
    pub fn connect(&mut self, endpoint: &str) -> (r: Result<(), Error>)
        ensures
            final(self).is_closed() == old(self).is_closed(),
            final(self).pattern() == old(self).pattern(),
            old(self).is_closed() ==> r == Err::<(), Error>(Error::Closed),
            !old(self).is_closed() && !is_address(endpoint@) ==> r == Err::<(), Error>(
                Error::Address,
            ),
            !old(self).is_closed() && is_address(endpoint@) ==> exists|rc: i32, code: i32|
                r == outcome(rc, code),
    {
        match &mut self.raw {
            None => Err(Error::Closed),
            Some(raw) => {
                if !check_address(endpoint) {
                    Err(Error::Address)
                } else {
                    let status: Status = raw.connect(endpoint);
                    check(status.rc, status.code)
                }
            },
        }
    }

    /// Binds the socket to `endpoint`.
    ///
    /// A closed socket fails with `Closed`; an endpoint that is no address
    /// fails with `Address`; neither reaches the engine. Otherwise the
    /// result is the engine's.
    pub fn bind(&mut self, endpoint: &str) -> (r: Result<(), Error>)
        ensures
            final(self).is_closed() == old(self).is_closed(),
            final(self).pattern() == old(self).pattern(),
            old(self).is_closed() ==> r == Err::<(), Error>(Error::Closed),
            !old(self).is_closed() && !is_address(endpoint@) ==> r == Err::<(), Error>(
                Error::Address,
            ),
            !old(self).is_closed() && is_address(endpoint@) ==> exists|rc: i32, code: i32|
                r == outcome(rc, code),
    {
        match &mut self.raw {
            None => Err(Error::Closed),
            Some(raw) => {
                if !check_address(endpoint) {
                    Err(Error::Address)
                } else {
                    let status: Status = raw.bind(endpoint);
                    check(status.rc, status.code)
                }
            },
        }
    }

    /// Sends `msg` as one frame. The message is given up, whatever the
    /// outcome.
    ///
    /// A closed socket fails with `Closed`, and the engine is not asked.
    /// Otherwise the result is what [`transfer`] makes of the engine's
    /// answer.
    pub fn send(&mut self, msg: Message, flags: i32) -> (r: Result<(), Error>)
        ensures
            final(self).is_closed() == old(self).is_closed(),
            final(self).pattern() == old(self).pattern(),
            old(self).is_closed() ==> r == Err::<(), Error>(Error::Closed),
            !old(self).is_closed() ==> exists|rc: i32, code: i32, again: i32|
                r == transfer(rc, code, again),
    {
        match &mut self.raw {
            None => Err(Error::Closed),
            Some(raw) => {
                let status: Status = raw.send(msg.into_bytes(), flags);
                conclude(status.rc, status.code, again())
            },
        }
    }

    /// Receives one frame.
    ///
    /// A closed socket fails with `Closed`, and the engine is not asked.
    /// Otherwise the result is what [`frame`] makes of the engine's answer.
    pub fn receive(&mut self, flags: i32) -> (r: Result<Message, Error>)
        ensures
            final(self).is_closed() == old(self).is_closed(),
            final(self).pattern() == old(self).pattern(),
            old(self).is_closed() ==> r == Err::<Message, Error>(Error::Closed),
            !old(self).is_closed() ==> exists|rc: i32, code: i32, again: i32, data: Seq<u8>|
                frame_view(r) == frame(rc, code, again, data),
    {
        match &mut self.raw {
            None => Err(Error::Closed),
            Some(raw) => {
                let received: Received = raw.recv(flags);
                accept(received, again()).0
            },
        }
    }

    /// Closes the socket: the endpoint is released, and every later
    /// operation fails with `Closed`, as does closing a second time.
    pub fn close(&mut self) -> (r: Result<(), Error>)
        ensures
            final(self).is_closed(),
            final(self).pattern() == old(self).pattern(),
            old(self).is_closed() ==> r == Err::<(), Error>(Error::Closed),
            !old(self).is_closed() ==> exists|rc: i32, code: i32| r == outcome(rc, code),
    {
        match self.raw.take() {
            None => Err(Error::Closed),
            Some(raw) => {
                let status: Status = raw.close();
                check(status.rc, status.code)
            },
        }
    }

    /// Sends `parts` as the frames of one message, in their order: every
    /// frame but the last is marked as followed by more. The first failure
    /// ends the sending and is returned; the frames after it are not handed
    /// to the engine. A message without frames is sent by doing nothing.
    pub fn send_multipart(&mut self, parts: Vec<Message>, flags: i32) -> (r: Result<(), Error>)
        ensures
            final(self).is_closed() == old(self).is_closed(),
            final(self).pattern() == old(self).pattern(),
            old(self).is_closed() ==> r == Err::<(), Error>(Error::Closed),
            !old(self).is_closed() && parts@.len() == 0 ==> r == Ok::<(), Error>(()),
            !old(self).is_closed() && parts@.len() > 0 ==> exists|
                outcomes: Seq<Result<(), Error>>,
            | #[trigger] sent_as(outcomes, parts@.len(), r),
    {
        if self.raw.is_none() {
            return Err(Error::Closed);
        }
        let count: usize = parts.len();
        let mut sent: usize = 0;
        let ghost mut outcomes: Seq<Result<(), Error>> = Seq::empty();
        for part in it: parts
            invariant
                sent == it.index(),
                count == it.seq().len(),
                count == parts@.len(),
                count > 0 ==> sent < count,
                outcomes.len() == sent,
                forall|k: int| 0 <= k < outcomes.len() ==> transferred(#[trigger] outcomes[k]),
                forall|k: int| 0 <= k < outcomes.len() ==> (#[trigger] outcomes[k]) is Ok,
                self.is_closed() == old(self).is_closed(),
                self.pattern() == old(self).pattern(),
                !self.is_closed(),
        {
            let one = self.send(part, part_flags(flags, sent, count));
            proof {
                assert(transferred(one));
                outcomes = outcomes.push(one);
            }
            match after_part(one, sent, count) {
                Some(end) => {
                    proof {
                        assert(sent_as(outcomes, parts@.len(), end));
                    }
                    return end;
                },
                None => {},
            }
            sent = sent + 1;
        }
        Ok(())
    }

    /// Starts receiving the frames of one message. The socket stays
    /// borrowed until the sequence is given up, so nothing else can be
    /// sent or received on it meanwhile.
    pub fn receive_iter(&mut self, flags: i32) -> (parts: Parts<'_, 'c, S>)
        ensures
            !parts.finished(),
            parts.subject() == *old(self),
            parts.asked() == flags,
    {
        Parts { socket: self, flags, done: false }
    }
}

/// The frames of one message, as they are received one by one. The sequence
/// ends after the frame that no other follows, or after a failure, and it
/// does not start again.
pub struct Parts<'a, 'c, S: RawSocket> {
    socket: &'a mut Socket<'c, S>,
    flags: i32,
    done: bool,
}

impl<'a, 'c, S: RawSocket> Parts<'a, 'c, S> {
    /// Whether the sequence has ended.
    pub closed spec fn finished(&self) -> bool {
        self.done
    }

    /// The flags with which every frame of the sequence is asked for.
    pub closed spec fn asked(&self) -> i32 {
        self.flags
    }

    /// The socket the frames are received on.
    pub closed spec fn subject(&self) -> Socket<'c, S> {
        *self.socket
    }

    /// Whether the sequence has ended.
    pub fn is_finished(&self) -> (b: bool)
        ensures
            b == self.finished(),
    {
        self.done
    }

    /// The flags with which every frame of the sequence is asked for.
    pub fn flags(&self) -> (f: i32)
        ensures
            f == self.asked(),
    {
        self.flags
    }

    /// Receives the next frame of the message, or says that there is none.
    ///
    /// Once the sequence has ended there is nothing more, and it stays
    /// ended. Before that there is a frame or a failure: on a closed socket
    /// the failure `Closed`, and else what [`frame`] makes of the engine's
    /// answer. The sequence goes on only after a frame that arrived and was
    /// marked as followed by more. Every frame is asked for with the flags
    /// the sequence was started with.
    pub fn next(&mut self) -> (r: Option<Result<Message, Error>>)
        ensures
            final(self).asked() == old(self).asked(),
            final(self).subject().is_closed() == old(self).subject().is_closed(),
            final(self).subject().pattern() == old(self).subject().pattern(),
            old(self).finished() ==> r is None && final(self).finished(),
            !old(self).finished() && old(self).subject().is_closed() ==> r == Some(
                Err::<Message, Error>(Error::Closed),
            ) && final(self).finished(),
            !old(self).finished() && !old(self).subject().is_closed() ==> exists|
                rc: i32,
                code: i32,
                again: i32,
                data: Seq<u8>,
                more: bool,
            |
                {
                    &&& r matches Some(got)
                    &&& frame_view(got) == #[trigger] frame(rc, code, again, data)
                    &&& final(self).finished() == #[trigger] ends(rc, more)
                },
    {
        if self.done {
            None
        } else {
            match &mut self.socket.raw {
                None => {
                    self.done = true;
                    Some(Err(Error::Closed))
                },
                Some(raw) => {
                    let received: Received = raw.recv(self.flags);
                    let ghost rc = received.rc;
                    let ghost code = received.code;
                    let ghost data = received.data@;
                    let ghost marked = received.more;
                    let again: i32 = again();
                    let (r, more) = accept(received, again);
                    self.done = !more;
                    assert(frame_view(r) == frame(rc, code, again, data));
                    assert(self.done == ends(rc, marked));
                    Some(r)
                },
            }
        }
    }
}

} // verus!
