//! The raw transport binding: the few calls into the engine that the layers
//! above are built on, and the values that cross it.
//!
//! What crosses the binding is written with C's names for its integer
//! types, as the engine declares its calls; they are other names for `i32`,
//! `u32` and `usize`.

use vstd::prelude::*;
use vstd::utf8::encode_utf8;
use libc::{c_int, c_uint, size_t};

verus! {

/// The mathematical content of a [`RawValue`] or a [`RawSlot`].
pub enum Raw {
    /// A C `int`.
    Int(c_int),
    /// A C `unsigned int`.
    UInt(c_uint),
    /// An `int64_t`.
    Int64(i64),
    /// A `uint64_t`.
    UInt64(u64),
    /// A run of bytes.
    Bytes(Seq<u8>),
    /// No value: the null pointer with length zero.
    Null,
}

/// An option value on its way to the engine: a C integer, a run of bytes
/// borrowed from the caller, or no value at all.
#[derive(Clone, Copy, Debug)]
pub enum RawValue<'a> {
    /// A C `int`.
    Int(c_int),
    /// An `int64_t`.
    Int64(i64),
    /// A `uint64_t`.
    UInt64(u64),
    /// A buffer of bytes.
    Bytes(&'a [u8]),
    /// The null pointer with length zero.
    Null,
}

impl<'a> View for RawValue<'a> {
    type V = Raw;

    open spec fn view(&self) -> Raw {
        match *self {
            RawValue::Int(v) => Raw::Int(v),
            RawValue::Int64(v) => Raw::Int64(v),
            RawValue::UInt64(v) => Raw::UInt64(v),
            RawValue::Bytes(v) => Raw::Bytes(v@),
            RawValue::Null => Raw::Null,
        }
    }
}

/// The storage offered to the engine for reading an option, and what the
/// engine left in it.
#[derive(Debug)]
pub enum RawSlot {
    /// A C `int`.
    Int(c_int),
    /// A C `unsigned int`.
    UInt(c_uint),
    /// An `int64_t`.
    Int64(i64),
    /// A `uint64_t`.
    UInt64(u64),
    /// A buffer of bytes; its length is the room the engine may fill.
    Bytes(Vec<u8>),
}

impl View for RawSlot {
    type V = Raw;

    open spec fn view(&self) -> Raw {
        match *self {
            RawSlot::Int(v) => Raw::Int(v),
            RawSlot::UInt(v) => Raw::UInt(v),
            RawSlot::Int64(v) => Raw::Int64(v),
            RawSlot::UInt64(v) => Raw::UInt64(v),
            RawSlot::Bytes(v) => Raw::Bytes(v@),
        }
    }
}

/// What the engine hands back from a call: its return code, and the error
/// number it reports, which means something only where the return code
/// stands for a failure.
#[derive(Clone, Copy, Debug, PartialEq, Eq, Structural)]
pub struct Status {
    /// The return code of the call.
    pub rc: c_int,
    /// The engine's error number after the call.
    pub code: c_int,
}

/// What the engine hands back from reading an option.
#[derive(Clone, Copy, Debug, PartialEq, Eq, Structural)]
pub struct Fetched {
    /// The return code of the call: zero on success.
    pub rc: c_int,
    /// The engine's error number after the call.
    pub code: c_int,
    /// The number of bytes the engine says the value occupies.
    pub size: size_t,
}

/// What the engine hands back from receiving a frame.
#[derive(Debug)]
pub struct Received {
    /// The return code of the call: negative on failure.
    pub rc: c_int,
    /// The engine's error number after the call.
    pub code: c_int,
    /// The bytes of the frame.
    pub data: Vec<u8>,
    /// Whether more frames of the same message follow.
    pub more: bool,
}

/// What the engine hands back from polling.
#[derive(Debug)]
pub struct Polled {
    /// The return code of the call: negative on failure.
    pub rc: c_int,
    /// The engine's error number after the call.
    pub code: c_int,
    /// The events found for each socket, in the order the sockets were given.
    pub revents: Vec<i16>,
}

/// One endpoint of the engine, seen through the calls that the layers above
/// are built on.
///
/// Nothing is promised of an implementation: every function of this crate
/// that calls one is verified for whatever comes back. What an implementation
/// may rely on is stated with each call.
pub trait RawSocket: Sized {
    /// Writes `value` to option `opt`.
    fn setsockopt(&mut self, opt: c_int, value: RawValue<'_>) -> Status;

    /// Reads option `opt` into `value`, whose shape and size on entry are
    /// the storage offered to the engine.
    fn getsockopt(&mut self, opt: c_int, value: &mut RawSlot) -> Fetched;

    /// Connects the socket to `endpoint`, which holds no zero byte.
    fn connect(&mut self, endpoint: &str) -> Status
        requires
            !encode_utf8(endpoint@).contains(0u8),
    ;

    /// Binds the socket to `endpoint`, which holds no zero byte.
    fn bind(&mut self, endpoint: &str) -> Status
        requires
            !encode_utf8(endpoint@).contains(0u8),
    ;

    /// Hands `frame` to the engine for sending.
    fn send(&mut self, frame: Vec<u8>, flags: c_int) -> Status;

    /// Takes the next frame from the engine.
    fn recv(&mut self, flags: c_int) -> Received;

    /// Releases the endpoint, which is given up with the call.
    fn close(self) -> Status;

    /// Waits until one of `sockets` is ready for one of the events asked of
    /// it in `events`, at the same index, or until `timeout` milliseconds
    /// have passed; a negative `timeout` waits without end.
    fn poll(sockets: &Vec<&Self>, events: &Vec<i16>, timeout: i64) -> Polled
        requires
            sockets.len() == events.len(),
    ;
}

/// What the engine hands back from making a socket.
#[derive(Debug)]
pub struct Created<S> {
    /// The new endpoint, or nothing where the engine refused.
    pub socket: Option<S>,
    /// The engine's error number after the call.
    pub code: c_int,
}

/// The engine's context, seen through the calls that the layers above are
/// built on. As with [`RawSocket`], nothing is promised of an
/// implementation.
pub trait RawContext: Sized {
    /// The endpoints the context makes.
    type Socket: RawSocket;

    /// Makes an endpoint for the pattern that the engine knows by `kind`.
    fn socket(&self, kind: c_int) -> Created<Self::Socket>;

    /// Shuts the context down and releases what it holds. The context is
    /// given up with the call.
    fn term(self) -> Status;
}

} // verus!
