//! Readiness: the set of events a socket can be ready for, and waiting for
//! several sockets at once.

use vstd::prelude::*;
use crate::error::Error;
use crate::raw::{Polled, RawSocket};
use crate::socket::Socket;

verus! {

/// The bit for "at least one message can be received without blocking".
pub const POLLIN: i16 = 1;

/// The bit for "at least one message can be sent without blocking".
pub const POLLOUT: i16 = 2;

/// The bit for "an error condition is present".
pub const POLLERR: i16 = 4;

/// All the bits that stand for an event.
pub const POLLALL: i16 = 7;

/// A set of readiness events, held as the engine's bit mask.
///
/// Only the three known bits are ever set: every set that a program holds
/// satisfies [`PollEvents::wf`].
#[derive(Clone, Copy, Debug, PartialEq, Eq, Structural)]
pub struct PollEvents {
    bits: i16,
}

impl PollEvents {
    /// Every set that exists holds known bits only.
    #[verifier::type_invariant]
    spec fn known(self) -> bool {
        self.bits & POLLALL == self.bits
    }

    /// The bit mask of the set.
    pub closed spec fn mask(self) -> i16 {
        self.bits
    }

    /// No bit is set but those of the three events.
    pub open spec fn wf(self) -> bool {
        self.mask() & POLLALL == self.mask()
    }

    /// The set that `bits` stands for once its unknown bits are dropped.
    pub closed spec fn truncated(bits: i16) -> PollEvents {
        PollEvents { bits: bits & POLLALL }
    }

    /// The set holds every event of `other`.
    pub open spec fn includes(self, other: PollEvents) -> bool {
        self.mask() & other.mask() == other.mask()
    }

    /// The set holds the event "a message can be received".
    pub open spec fn readable(self) -> bool {
        self.mask() & POLLIN != 0
    }

    /// The set holds the event "a message can be sent".
    pub open spec fn writable(self) -> bool {
        self.mask() & POLLOUT != 0
    }

    /// The set holds the event "an error is present".
    pub open spec fn failed(self) -> bool {
        self.mask() & POLLERR != 0
    }

    /// The set without any event.
    pub fn empty() -> (r: PollEvents)
        ensures
            r.mask() == 0,
            r.wf(),
    {
        assert(0i16 & 7i16 == 0i16) by (bit_vector);
        PollEvents { bits: 0 }
    }

    /// The set of all three events.
    pub fn all() -> (r: PollEvents)
        ensures
            r.mask() == POLLALL,
            r.wf(),
    {
        assert(7i16 & 7i16 == 7i16) by (bit_vector);
        PollEvents { bits: POLLALL }
    }

    /// The bit mask of the set.
    pub fn bits(&self) -> (r: i16)
        ensures
            r == self.mask(),
            self.wf(),
    {
        proof {
            use_type_invariant(self);
        }
        self.bits
    }

    /// The set that `bits` stands for, if it holds no unknown bit.
    pub fn from_bits(bits: i16) -> (r: Option<PollEvents>)
        ensures
            bits & POLLALL == bits ==> (r matches Some(p) && p.mask() == bits && p.wf()),
            bits & POLLALL != bits ==> r is None,
    {
        if bits & POLLALL == bits {
            Some(PollEvents { bits })
        } else {
            None
        }
    }

    /// The set that `bits` stands for once its unknown bits are dropped.
    pub fn from_bits_truncate(bits: i16) -> (r: PollEvents)
        ensures
            r == PollEvents::truncated(bits),
            r.mask() == bits & POLLALL,
            r.wf(),
    {
        assert((bits & 7i16) & 7i16 == bits & 7i16) by (bit_vector);
        PollEvents { bits: bits & POLLALL }
    }

    /// Whether the set holds no event.
    pub fn is_empty(&self) -> (r: bool)
        ensures
            r == (self.mask() == 0),
    {
        self.bits == 0
    }

    /// Whether the set holds every event of `other`.
    pub fn contains(&self, other: PollEvents) -> (r: bool)
        ensures
            r == self.includes(other),
    {
        self.bits & other.bits == other.bits
    }

    /// The set of the events that are in `self` or in `other`.
    pub fn union(self, other: PollEvents) -> (r: PollEvents)
        ensures
            r.mask() == self.mask() | other.mask(),
            r.wf(),
            r.readable() == (self.readable() || other.readable()),
            r.writable() == (self.writable() || other.writable()),
            r.failed() == (self.failed() || other.failed()),
    {
        proof {
            use_type_invariant(self);
            use_type_invariant(other);
        }
        let a: i16 = self.bits;
        let b: i16 = other.bits;
        assert(a & 7i16 == a && b & 7i16 == b ==> (a | b) & 7i16 == (a | b)) by (bit_vector);
        assert(((a | b) & 1i16 != 0i16) == ((a & 1i16 != 0i16) || (b & 1i16 != 0i16)))
            by (bit_vector);
        assert(((a | b) & 2i16 != 0i16) == ((a & 2i16 != 0i16) || (b & 2i16 != 0i16)))
            by (bit_vector);
        assert(((a | b) & 4i16 != 0i16) == ((a & 4i16 != 0i16) || (b & 4i16 != 0i16)))
            by (bit_vector);
        PollEvents { bits: a | b }
    }

    /// Whether the set holds the event "a message can be received".
    pub fn is_readable(&self) -> (b: bool)
        ensures
            b == self.readable(),
    {
        self.bits & POLLIN != 0
    }

    /// Whether the set holds the event "a message can be sent".
    pub fn is_writable(&self) -> (b: bool)
        ensures
            b == self.writable(),
    {
        self.bits & POLLOUT != 0
    }

    /// Whether the set holds the event "an error is present".
    pub fn is_error(&self) -> (b: bool)
        ensures
            b == self.failed(),
    {
        self.bits & POLLERR != 0
    }
}

/// Dropping the unknown bits of a mask keeps each of its three known bits
/// and yields a well-formed set.
pub proof fn lemma_truncated(bits: i16)
    ensures
        PollEvents::truncated(bits).mask() == bits & POLLALL,
        PollEvents::truncated(bits).wf(),
        PollEvents::truncated(bits).readable() == (bits & POLLIN != 0),
        PollEvents::truncated(bits).writable() == (bits & POLLOUT != 0),
        PollEvents::truncated(bits).failed() == (bits & POLLERR != 0),
{
    assert((bits & 7i16) & 7i16 == bits & 7i16) by (bit_vector);
    assert(((bits & 7i16) & 1i16 != 0i16) == (bits & 1i16 != 0i16)) by (bit_vector);
    assert(((bits & 7i16) & 2i16 != 0i16) == (bits & 2i16 != 0i16)) by (bit_vector);
    assert(((bits & 7i16) & 4i16 != 0i16) == (bits & 4i16 != 0i16)) by (bit_vector);
}

/// One entry of a poll set: a socket, the events asked of it, and the events
/// found for it by the last poll. The entry borrows the socket and does not
/// own it.
pub struct PollItem<'a, 'c, S: RawSocket> {
    socket: &'a Socket<'c, S>,
    events: PollEvents,
    revents: PollEvents,
}

impl<'a, 'c, S: RawSocket> PollItem<'a, 'c, S> {
    /// The socket the entry is about.
    pub closed spec fn subject(&self) -> Socket<'c, S> {
        *self.socket
    }

    /// The events asked of the socket.
    pub closed spec fn interest(&self) -> PollEvents {
        self.events
    }

    /// The events found for the socket by the last poll.
    pub closed spec fn found(&self) -> PollEvents {
        self.revents
    }

    /// The last poll found the socket ready for something, or in error.
    pub open spec fn is_ready(&self) -> bool {
        self.found().mask() != 0
    }

    /// An entry that asks `events` of `socket`, with nothing found yet.
    pub fn new(socket: &'a Socket<'c, S>, events: PollEvents) -> (item: PollItem<'a, 'c, S>)
        ensures
            item.subject() == *socket,
            item.interest() == events,
            item.found().mask() == 0,
    {
        PollItem { socket, events, revents: PollEvents::empty() }
    }

    /// The events asked of the socket.
    pub fn events(&self) -> (e: PollEvents)
        ensures
            e == self.interest(),
            e.wf(),
    {
        proof {
            use_type_invariant(self.events);
        }
        self.events
    }

    /// The events found for the socket by the last poll.
    pub fn revents(&self) -> (e: PollEvents)
        ensures
            e == self.found(),
            e.wf(),
    {
        proof {
            use_type_invariant(self.revents);
        }
        self.revents
    }

    /// Whether the last poll found a message to receive.
    pub fn is_readable(&self) -> (b: bool)
        ensures
            b == self.found().readable(),
    {
        self.revents.is_readable()
    }

    /// Whether the last poll found room to send.
    pub fn is_writable(&self) -> (b: bool)
        ensures
            b == self.found().writable(),
    {
        self.revents.is_writable()
    }

    /// Whether the last poll found the socket in error.
    pub fn is_error(&self) -> (b: bool)
        ensures
            b == self.found().failed(),
    {
        self.revents.is_error()
    }
}

/// The number of entries that the last poll found ready.
pub open spec fn ready_count<S: RawSocket>(items: Seq<PollItem<'_, '_, S>>) -> nat
    decreases items.len(),
{
    if items.len() == 0 {
        0
    } else {
        ready_count(items.drop_last()) + if items.last().is_ready() {
            1nat
        } else {
            0nat
        }
    }
}

/// The events found for an entry: on a closed socket the error event alone,
/// whatever the engine said; on an open one the known bits of what the
/// engine reported.
pub open spec fn settled(closed: bool, reported: i16) -> PollEvents {
    if closed {
        PollEvents::truncated(POLLERR)
    } else {
        PollEvents::truncated(reported)
    }
}

/// The events found for an entry.
pub fn settle(closed: bool, reported: i16) -> (r: PollEvents)
    ensures
        r == settled(closed, reported),
        r.wf(),
        closed ==> r.mask() == POLLERR && r.failed(),
{
    assert(4i16 & 7i16 == 4i16) by (bit_vector);
    assert(4i16 & 4i16 != 0i16) by (bit_vector);
    if closed {
        PollEvents::from_bits_truncate(POLLERR)
    } else {
        PollEvents::from_bits_truncate(reported)
    }
}

/// The events found for an entry are always among the three that are
/// known. On a closed socket they are the error event alone; on an open one
/// each of the three is found exactly when the engine reported it.
pub proof fn lemma_settled(closed: bool, reported: i16)
    ensures
        settled(closed, reported).wf(),
        closed ==> settled(closed, reported).mask() == POLLERR && settled(
            closed,
            reported,
        ).failed(),
        !closed ==> settled(closed, reported).readable() == (reported & POLLIN != 0),
        !closed ==> settled(closed, reported).writable() == (reported & POLLOUT != 0),
        !closed ==> settled(closed, reported).failed() == (reported & POLLERR != 0),
{
    lemma_truncated(reported);
    lemma_truncated(POLLERR);
    assert(4i16 & 7i16 == 4i16) by (bit_vector);
    assert(4i16 & 4i16 != 0i16) by (bit_vector);
}

/// For how long the engine is asked to wait: not at all where an entry is
/// already known to be in error, and else for as long as the caller said.
pub open spec fn patience(timeout: i64, any_closed: bool) -> i64 {
    if any_closed {
        0
    } else {
        timeout
    }
}

/// For how long the engine is asked to wait.
pub fn wait_for(timeout: i64, any_closed: bool) -> (r: i64)
    ensures
        r == patience(timeout, any_closed),
{
    if any_closed {
        0
    } else {
        timeout
    }
}

/// The number of entries whose socket is open.
pub open spec fn open_count<S: RawSocket>(items: Seq<PollItem<'_, '_, S>>) -> nat
    decreases items.len(),
{
    if items.len() == 0 {
        0
    } else {
        open_count(items.drop_last()) + if items.last().subject().is_closed() {
            0nat
        } else {
            1nat
        }
    }
}

/// The events asked of the entries whose socket is open, as bit masks, in
/// the order of the entries.
pub open spec fn interests<S: RawSocket>(items: Seq<PollItem<'_, '_, S>>) -> Seq<i16>
    decreases items.len(),
{
    if items.len() == 0 {
        Seq::empty()
    } else if items.last().subject().is_closed() {
        interests(items.drop_last())
    } else {
        interests(items.drop_last()).push(items.last().interest().mask())
    }
}

/// The endpoints of the entries whose socket is open, in the order of the
/// entries.
pub open spec fn endpoints<S: RawSocket>(items: Seq<PollItem<'_, '_, S>>) -> Seq<S>
    decreases items.len(),
{
    if items.len() == 0 {
        Seq::empty()
    } else if items.last().subject().is_closed() {
        endpoints(items.drop_last())
    } else {
        endpoints(items.drop_last()).push(items.last().subject().handle()->0)
    }
}

/// The place that the entry at `i` has among the entries whose socket is
/// open: the number of open sockets before it.
pub open spec fn rank<S: RawSocket>(items: Seq<PollItem<'_, '_, S>>, i: int) -> int {
    open_count(items.take(i)) as int
}

/// A front part of a poll set holds no more open sockets than the whole.
proof fn lemma_open_count_grows<S: RawSocket>(items: Seq<PollItem<'_, '_, S>>, i: int)
    requires
        0 <= i <= items.len(),
    ensures
        open_count(items.take(i)) <= open_count(items),
    decreases items.len() - i,
{
    if i < items.len() {
        lemma_open_count_grows(items, i + 1);
        assert(items.take(i + 1).drop_last() =~= items.take(i));
    } else {
        assert(items.take(i) =~= items);
    }
}

/// There are as many masks and as many endpoints to hand over as there are
/// open sockets, and never more than entries.
pub proof fn lemma_one_for_each_open_socket<S: RawSocket>(items: Seq<PollItem<'_, '_, S>>)
    ensures
        interests(items).len() == open_count(items),
        endpoints(items).len() == open_count(items),
        open_count(items) <= items.len(),
    decreases items.len(),
{
    if items.len() > 0 {
        lemma_one_for_each_open_socket(items.drop_last());
    }
}

/// Makes what is handed to the engine for a poll of `items`: the endpoints
/// of the open sockets and, beside each, the events asked of it; and says
/// whether some socket is closed.
pub fn gather<'a, 'c, S: RawSocket>(items: &Vec<PollItem<'a, 'c, S>>) -> (r: (
    Vec<&'a S>,
    Vec<i16>,
    bool,
))
    ensures
        r.1@ == interests(items@),
        r.0@.len() == open_count(items@),
        r.1@.len() == open_count(items@),
        forall|k: int| 0 <= k < r.0@.len() ==> *(#[trigger] r.0@[k]) == endpoints(items@)[k],
        r.2 == (open_count(items@) < items@.len()),
{
    let n: usize = items.len();
    let mut sockets: Vec<&'a S> = Vec::new();
    let mut events: Vec<i16> = Vec::new();
    let mut any_closed = false;
    let mut i: usize = 0;
    while i < n
        invariant
            i <= n,
            n == items@.len(),
            events@ == interests(items@.take(i as int)),
            sockets@.len() == open_count(items@.take(i as int)),
            events@.len() == open_count(items@.take(i as int)),
            forall|k: int|
                0 <= k < sockets@.len() ==> *(#[trigger] sockets@[k]) == endpoints(
                    items@.take(i as int),
                )[k],
            any_closed == (open_count(items@.take(i as int)) < i),
        decreases n - i,
    {
        proof {
            assert(items@.take(i + 1).drop_last() =~= items@.take(i as int));
            lemma_one_for_each_open_socket(items@.take(i as int));
        }
        match items[i].socket.endpoint() {
            None => {
                any_closed = true;
            },
            Some(endpoint) => {
                sockets.push(endpoint);
                events.push(items[i].events.bits());
            },
        }
        i = i + 1;
    }
    proof {
        assert(items@.take(n as int) =~= items@);
    }
    (sockets, events, any_closed)
}

/// Whether `after` and `r` are what a poll of the entries `before` comes
/// to, when the engine answered with the return code `rc`, the error number
/// `code` and the events `reported`, one for each open socket in the order
/// of the entries.
///
/// The sockets and the events asked of them stay as they were. A negative
/// return code is the engine's failure, and an answer that does not hold one
/// report for each open socket cannot be taken apart; either leaves the
/// entries as they were. Otherwise every entry holds what [`settled`] makes
/// of the report at its place among the open sockets, or the error event
/// alone where its socket is closed, and the result counts the entries found
/// ready.
pub open spec fn polled<S: RawSocket>(
    before: Seq<PollItem<'_, '_, S>>,
    after: Seq<PollItem<'_, '_, S>>,
    rc: i32,
    code: i32,
    reported: Seq<i16>,
    r: Result<usize, Error>,
) -> bool {
    &&& after.len() == before.len()
    &&& forall|i: int|
        0 <= i < before.len() ==> {
            &&& (#[trigger] after[i]).subject() == before[i].subject()
            &&& after[i].interest() == before[i].interest()
        }
    &&& if rc < 0 {
        r == Err::<usize, Error>(Error::Transport { code }) && after == before
    } else if reported.len() != open_count(before) {
        r == Err::<usize, Error>(Error::Marshal) && after == before
    } else {
        &&& r matches Ok(n)
        &&& n == ready_count(after)
        &&& forall|i: int|
            0 <= i < before.len() ==> (#[trigger] after[i]).found() == settled(
                before[i].subject().is_closed(),
                if before[i].subject().is_closed() {
                    0
                } else {
                    reported[rank(before, i)]
                },
            )
    }
}

/// Takes the engine's answer to a poll apart: gives each entry of `items`
/// the events found for it, and counts the entries found ready.
pub fn scatter<'a, 'c, S: RawSocket>(
    items: &mut Vec<PollItem<'a, 'c, S>>,
    rc: i32,
    code: i32,
    revents: &Vec<i16>,
) -> (r: Result<usize, Error>)
    ensures
        polled(old(items)@, final(items)@, rc, code, revents@, r),
{
    let n: usize = items.len();
    if rc < 0 {
        return Err(Error::Transport { code });
    }
    let mut open: usize = 0;
    let mut i: usize = 0;
    while i < n
        invariant
            i <= n,
            n == items@.len(),
            items@ == old(items)@,
            open == open_count(items@.take(i as int)),
            open <= i,
        decreases n - i,
    {
        proof {
            assert(items@.take(i + 1).drop_last() =~= items@.take(i as int));
        }
        if !items[i].socket.closed() {
            open = open + 1;
        }
        i = i + 1;
    }
    proof {
        assert(items@.take(n as int) =~= items@);
    }
    if revents.len() != open {
        return Err(Error::Marshal);
    }
    let mut count: usize = 0;
    let mut next: usize = 0;
    i = 0;
    while i < n
        invariant
            i <= n,
            n == items@.len(),
            n == old(items)@.len(),
            rc >= 0,
            open == revents@.len(),
            open == open_count(old(items)@),
            next == rank(old(items)@, i as int),
            count == ready_count(items@.take(i as int)),
            count <= i,
            forall|j: int|
                0 <= j < n ==> {
                    &&& (#[trigger] items@[j]).subject() == old(items)@[j].subject()
                    &&& items@[j].interest() == old(items)@[j].interest()
                },
            forall|j: int|
                0 <= j < i ==> (#[trigger] items@[j]).found() == settled(
                    old(items)@[j].subject().is_closed(),
                    if old(items)@[j].subject().is_closed() {
                        0
                    } else {
                        revents@[rank(old(items)@, j)]
                    },
                ),
        decreases n - i,
    {
        proof {
            lemma_open_count_grows(old(items)@, i + 1);
            assert(old(items)@.take(i + 1).drop_last() =~= old(items)@.take(i as int));
        }
        let closed: bool = items[i].socket.closed();
        assert(!closed ==> next < open);
        let reported: i16 = if closed {
            0
        } else {
            revents[next]
        };
        let found = settle(closed, reported);
        let ghost before = items@;
        items[i] = PollItem { socket: items[i].socket, events: items[i].events, revents: found };
        proof {
            assert(items@.take(i + 1).drop_last() =~= before.take(i as int));
            assert(items@.take(i as int) =~= before.take(i as int));
        }
        if !found.is_empty() {
            count = count + 1;
        }
        if !closed {
            next = next + 1;
        }
        i = i + 1;
    }
    proof {
        assert(items@.take(n as int) =~= items@);
    }
    Ok(count)
}

/// Waits until one of the sockets in `items` is ready for one of the events
/// asked of it, or until `timeout` milliseconds have passed. A `timeout` of
/// zero looks and returns at once; a negative one waits without end.
///
/// An entry whose socket is closed is not handed to the engine: it is found
/// in error, and the engine is then asked not to wait. What is handed to the
/// engine is what [`gather`] makes of the entries, and the entries and the
/// result are what [`polled`] says of the engine's answer, whatever that
/// answer is.
pub fn poll<'a, 'c, S: RawSocket>(items: &mut Vec<PollItem<'a, 'c, S>>, timeout: i64) -> (r: Result<
    usize,
    Error,
>)
    ensures
        exists|rc: i32, code: i32, reported: Seq<i16>| #[trigger]
            polled(old(items)@, final(items)@, rc, code, reported, r),
{
    let (sockets, events, any_closed) = gather(items);
    let answer: Polled = S::poll(&sockets, &events, wait_for(timeout, any_closed));
    scatter(items, answer.rc, answer.code, &answer.revents)
}

} // verus!
