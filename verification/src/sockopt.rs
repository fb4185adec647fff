//! Typed socket options: how each kind of value is marshalled to and from
//! the engine, and the registry of the options themselves.
//!
//! Integers go to the engine and come back as they are. A flag is written
//! as the integer 1 or 0 and reads as set only where the engine holds
//! exactly 1. Bytes are read into storage of a fixed size and cut to the
//! length the engine reports. A text is written as its UTF-8 bytes; the
//! engine ends it with a zero byte when it hands it back, so on reading the
//! last byte is dropped, whatever it is, before the rest is taken as UTF-8;
//! bytes that are no UTF-8 are handed to the caller as they are. A text
//! that can be cleared is cleared by writing the null value, which is not
//! the empty text.

use vstd::prelude::*;
use vstd::utf8::{decode_utf8, encode_utf8, valid_utf8};
use vstd::utf8::{encode_utf8_decode_utf8, encode_utf8_valid_utf8};
use std::marker::PhantomData;
use libc::{c_int, size_t};
use crate::error::{Direction, Error, OptionError};
use crate::poll::{lemma_truncated, PollEvents};
use crate::raw::{Fetched, Raw, RawSlot, RawSocket, RawValue, Status};
use crate::text::string_from_utf8;

verus! {

/// A value that can be read from a socket option.
pub trait Getter: Sized {
    /// The storage that reading a value of this type offers to the engine.
    spec fn storage() -> Raw;

    /// The value that a successful reply stands for, when the engine left
    /// `raw` in the storage.
    spec fn of_raw(raw: Raw) -> Result<Self, Error>;

    /// Makes the storage to offer to the engine.
    fn slot() -> (s: RawSlot)
        ensures
            s@ == Self::storage(),
    ;

    /// Converts what the engine left in the storage.
    fn from_raw(raw: RawSlot) -> (r: Result<Self, Error>)
        ensures
            r == Self::of_raw(raw@),
    ;

    /// Reads option `opt` of `sock`.
    ///
    /// Whatever the engine does, the result is the engine's own failure with
    /// its error number, or the conversion of what it left in the storage.
    fn get<S: RawSocket>(sock: &mut S, opt: c_int) -> (r: Result<Self, Error>)
        ensures
            (exists|code: i32| r == Err::<Self, Error>(Error::Transport { code })) || (exists|
                raw: Raw,
            | r == Self::of_raw(raw)),
    ;
}

/// A value that can be written to a socket option.
pub trait Setter: Sized {
    /// The raw value that writing `self` hands to the engine.
    spec fn raw(self) -> Raw;

    /// Converts the value to its raw representation.
    fn to_raw(&self) -> (r: RawValue<'_>)
        ensures
            r@ == self.raw(),
    ;

    /// Writes `value` to option `opt` of `sock`.
    ///
    /// Whatever the engine does, the result is what [`outcome`] makes of its
    /// return code: success, or the engine's failure with its error number.
    fn set<S: RawSocket>(sock: &mut S, opt: c_int, value: Self) -> (r: Result<(), Error>)
        ensures
            exists|rc: i32, code: i32| r == outcome(rc, code),
    ;
}

/// What a call into the engine amounts to, given its return code and the
/// error number the engine reports: success on zero, and the engine's error
/// number otherwise.
pub open spec fn outcome(rc: i32, code: i32) -> Result<(), Error> {
    if rc == 0 {
        Ok(())
    } else {
        Err(Error::Transport { code })
    }
}

/// What reading a `T` amounts to, given the return code, the error number
/// and what the engine left in the storage.
pub open spec fn answer<T: Getter>(rc: i32, code: i32, raw: Raw) -> Result<T, Error> {
    if rc == 0 {
        T::of_raw(raw)
    } else {
        Err(Error::Transport { code })
    }
}

/// Turns the return code of a call into a result.
pub fn check(rc: i32, code: i32) -> (r: Result<(), Error>)
    ensures
        r == outcome(rc, code),
{
    if rc == 0 {
        Ok(())
    } else {
        Err(Error::Transport { code })
    }
}

/// Offers `slot` to the engine for option `opt`, and returns what the engine
/// left in it together with the size it reported.
pub fn fetch<S: RawSocket>(sock: &mut S, opt: c_int, slot: RawSlot) -> (r: Result<
    (RawSlot, usize),
    Error,
>)
    ensures
        r matches Err(e) ==> e is Transport,
{
    let mut slot = slot;
    let fetched: Fetched = sock.getsockopt(opt, &mut slot);
    match check(fetched.rc, fetched.code) {
        Ok(()) => Ok((slot, fetched.size)),
        Err(e) => Err(e),
    }
}

/// Hands `raw` to the engine for option `opt`.
pub fn store<S: RawSocket>(sock: &mut S, opt: c_int, raw: RawValue<'_>) -> (r: Result<(), Error>)
    ensures
        exists|rc: i32, code: i32| r == outcome(rc, code),
{
    let status: Status = sock.setsockopt(opt, raw);
    check(status.rc, status.code)
}

/// Reads option `opt` of `sock`.
pub fn get<T: Getter, S: RawSocket>(sock: &mut S, opt: c_int) -> (r: Result<T, Error>)
    ensures
        exists|rc: i32, code: i32, raw: Raw| r == answer::<T>(rc, code, raw),
{
    let r = T::get(sock, opt);
    proof {
        if exists|code: i32| r == Err::<T, Error>(Error::Transport { code }) {
            let code = choose|code: i32| r == Err::<T, Error>(Error::Transport { code });
            assert(r == answer::<T>(1, code, T::storage()));
        } else {
            let raw = choose|raw: Raw| r == T::of_raw(raw);
            assert(r == answer::<T>(0, 0, raw));
        }
    }
    r
}

/// Writes `value` to option `opt` of `sock`.
pub fn set<T: Setter, S: RawSocket>(sock: &mut S, opt: c_int, value: T) -> (r: Result<(), Error>)
    ensures
        exists|rc: i32, code: i32| r == outcome(rc, code),
{
    T::set(sock, opt, value)
}

impl Getter for i32 {
    open spec fn storage() -> Raw {
        Raw::Int(0)
    }

    open spec fn of_raw(raw: Raw) -> Result<i32, Error> {
        match raw {
            Raw::Int(v) => Ok(v),
            _ => Err(Error::Marshal),
        }
    }

    fn slot() -> (s: RawSlot) {
        RawSlot::Int(0)
    }

    fn from_raw(raw: RawSlot) -> (r: Result<i32, Error>) {
        match raw {
            RawSlot::Int(v) => Ok(v),
            _ => Err(Error::Marshal),
        }
    }

    fn get<S: RawSocket>(sock: &mut S, opt: c_int) -> (r: Result<i32, Error>) {
        match fetch(sock, opt, Self::slot()) {
            Ok((slot, _)) => {
                let r = Self::from_raw(slot);
                assert(r == Self::of_raw(slot@));
                r
            },
            Err(e) => {
                assert(e == Error::Transport { code: e->code });
                Err(e)
            },
        }
    }
}

impl Getter for u32 {
    open spec fn storage() -> Raw {
        Raw::UInt(0)
    }

    open spec fn of_raw(raw: Raw) -> Result<u32, Error> {
        match raw {
            Raw::UInt(v) => Ok(v),
            _ => Err(Error::Marshal),
        }
    }

    fn slot() -> (s: RawSlot) {
        RawSlot::UInt(0)
    }

    fn from_raw(raw: RawSlot) -> (r: Result<u32, Error>) {
        match raw {
            RawSlot::UInt(v) => Ok(v),
            _ => Err(Error::Marshal),
        }
    }

    fn get<S: RawSocket>(sock: &mut S, opt: c_int) -> (r: Result<u32, Error>) {
        match fetch(sock, opt, Self::slot()) {
            Ok((slot, _)) => {
                let r = Self::from_raw(slot);
                assert(r == Self::of_raw(slot@));
                r
            },
            Err(e) => {
                assert(e == Error::Transport { code: e->code });
                Err(e)
            },
        }
    }
}

impl Getter for i64 {
    open spec fn storage() -> Raw {
        Raw::Int64(0)
    }

    open spec fn of_raw(raw: Raw) -> Result<i64, Error> {
        match raw {
            Raw::Int64(v) => Ok(v),
            _ => Err(Error::Marshal),
        }
    }

    fn slot() -> (s: RawSlot) {
        RawSlot::Int64(0)
    }

    fn from_raw(raw: RawSlot) -> (r: Result<i64, Error>) {
        match raw {
            RawSlot::Int64(v) => Ok(v),
            _ => Err(Error::Marshal),
        }
    }

    fn get<S: RawSocket>(sock: &mut S, opt: c_int) -> (r: Result<i64, Error>) {
        match fetch(sock, opt, Self::slot()) {
            Ok((slot, _)) => {
                let r = Self::from_raw(slot);
                assert(r == Self::of_raw(slot@));
                r
            },
            Err(e) => {
                assert(e == Error::Transport { code: e->code });
                Err(e)
            },
        }
    }
}

impl Getter for u64 {
    open spec fn storage() -> Raw {
        Raw::UInt64(0)
    }

    open spec fn of_raw(raw: Raw) -> Result<u64, Error> {
        match raw {
            Raw::UInt64(v) => Ok(v),
            _ => Err(Error::Marshal),
        }
    }

    fn slot() -> (s: RawSlot) {
        RawSlot::UInt64(0)
    }

    fn from_raw(raw: RawSlot) -> (r: Result<u64, Error>) {
        match raw {
            RawSlot::UInt64(v) => Ok(v),
            _ => Err(Error::Marshal),
        }
    }

    fn get<S: RawSocket>(sock: &mut S, opt: c_int) -> (r: Result<u64, Error>) {
        match fetch(sock, opt, Self::slot()) {
            Ok((slot, _)) => {
                let r = Self::from_raw(slot);
                assert(r == Self::of_raw(slot@));
                r
            },
            Err(e) => {
                assert(e == Error::Transport { code: e->code });
                Err(e)
            },
        }
    }
}

impl Setter for i32 {
    open spec fn raw(self) -> Raw {
        Raw::Int(self)
    }

    fn to_raw(&self) -> (r: RawValue<'_>) {
        RawValue::Int(*self)
    }

    fn set<S: RawSocket>(sock: &mut S, opt: c_int, value: i32) -> (r: Result<(), Error>) {
        store(sock, opt, value.to_raw())
    }
}

impl Setter for i64 {
    open spec fn raw(self) -> Raw {
        Raw::Int64(self)
    }

    fn to_raw(&self) -> (r: RawValue<'_>) {
        RawValue::Int64(*self)
    }

    fn set<S: RawSocket>(sock: &mut S, opt: c_int, value: i64) -> (r: Result<(), Error>) {
        store(sock, opt, value.to_raw())
    }
}

impl Setter for u64 {
    open spec fn raw(self) -> Raw {
        Raw::UInt64(self)
    }

    fn to_raw(&self) -> (r: RawValue<'_>) {
        RawValue::UInt64(*self)
    }

    fn set<S: RawSocket>(sock: &mut S, opt: c_int, value: u64) -> (r: Result<(), Error>) {
        store(sock, opt, value.to_raw())
    }
}

impl Getter for bool {
    open spec fn storage() -> Raw {
        Raw::Int(0)
    }

    /// A flag is set exactly when the engine holds the integer 1.
    open spec fn of_raw(raw: Raw) -> Result<bool, Error> {
        match raw {
            Raw::Int(v) => Ok(v == 1),
            _ => Err(Error::Marshal),
        }
    }

    fn slot() -> (s: RawSlot) {
        RawSlot::Int(0)
    }

    fn from_raw(raw: RawSlot) -> (r: Result<bool, Error>) {
        match raw {
            RawSlot::Int(v) => Ok(v == 1),
            _ => Err(Error::Marshal),
        }
    }

    fn get<S: RawSocket>(sock: &mut S, opt: c_int) -> (r: Result<bool, Error>) {
        match fetch(sock, opt, Self::slot()) {
            Ok((slot, _)) => {
                let r = Self::from_raw(slot);
                assert(r == Self::of_raw(slot@));
                r
            },
            Err(e) => {
                assert(e == Error::Transport { code: e->code });
                Err(e)
            },
        }
    }
}

impl Setter for bool {
    open spec fn raw(self) -> Raw {
        Raw::Int(if self { 1i32 } else { 0i32 })
    }

    fn to_raw(&self) -> (r: RawValue<'_>) {
        RawValue::Int(if *self { 1i32 } else { 0i32 })
    }

    fn set<S: RawSocket>(sock: &mut S, opt: c_int, value: bool) -> (r: Result<(), Error>) {
        store(sock, opt, value.to_raw())
    }
}

impl<'a> Setter for &'a [u8] {
    open spec fn raw(self) -> Raw {
        Raw::Bytes(self@)
    }

    fn to_raw(&self) -> (r: RawValue<'_>) {
        RawValue::Bytes(*self)
    }

    fn set<S: RawSocket>(sock: &mut S, opt: c_int, value: &'a [u8]) -> (r: Result<(), Error>) {
        store(sock, opt, value.to_raw())
    }
}

impl<'a> Setter for &'a str {
    open spec fn raw(self) -> Raw {
        Raw::Bytes(encode_utf8(self@))
    }

    fn to_raw(&self) -> (r: RawValue<'_>) {
        RawValue::Bytes(self.as_bytes())
    }

    fn set<S: RawSocket>(sock: &mut S, opt: c_int, value: &'a str) -> (r: Result<(), Error>) {
        store(sock, opt, value.to_raw())
    }
}

impl<'a> Setter for Option<&'a str> {
    /// A text is written as its bytes; the absence of a text as the null
    /// value, which is not the empty run of bytes.
    open spec fn raw(self) -> Raw {
        match self {
            Some(s) => Raw::Bytes(encode_utf8(s@)),
            None => Raw::Null,
        }
    }

    fn to_raw(&self) -> (r: RawValue<'_>) {
        match *self {
            Some(s) => RawValue::Bytes(s.as_bytes()),
            None => RawValue::Null,
        }
    }

    fn set<S: RawSocket>(sock: &mut S, opt: c_int, value: Option<&'a str>) -> (r: Result<
        (),
        Error,
    >) {
        store(sock, opt, value.to_raw())
    }
}

impl Getter for PollEvents {
    open spec fn storage() -> Raw {
        Raw::Int(0)
    }

    /// The events are the known bits among the low sixteen of the integer.
    open spec fn of_raw(raw: Raw) -> Result<PollEvents, Error> {
        match raw {
            Raw::Int(v) => Ok(PollEvents::truncated(v as i16)),
            _ => Err(Error::Marshal),
        }
    }

    fn slot() -> (s: RawSlot) {
        RawSlot::Int(0)
    }

    fn from_raw(raw: RawSlot) -> (r: Result<PollEvents, Error>) {
        match raw {
            RawSlot::Int(v) => Ok(PollEvents::from_bits_truncate(#[verifier::truncate] (v as i16))),
            _ => Err(Error::Marshal),
        }
    }

    fn get<S: RawSocket>(sock: &mut S, opt: c_int) -> (r: Result<PollEvents, Error>) {
        match fetch(sock, opt, Self::slot()) {
            Ok((slot, _)) => {
                let r = Self::from_raw(slot);
                assert(r == Self::of_raw(slot@));
                r
            },
            Err(e) => {
                assert(e == Error::Transport { code: e->code });
                Err(e)
            },
        }
    }
}

/// A result that holds bytes, with the bytes as a sequence.
pub open spec fn bytes_view(r: Result<Vec<u8>, Error>) -> Result<Seq<u8>, Error> {
    match r {
        Ok(v) => Ok(v@),
        Err(e) => Err(e),
    }
}

/// A text or the bytes that are no text, as sequences.
pub open spec fn text_view(r: Result<String, Vec<u8>>) -> Result<Seq<char>, Seq<u8>> {
    match r {
        Ok(s) => Ok(s@),
        Err(raw) => Err(raw@),
    }
}

/// The outcome of reading a text option, as sequences.
pub open spec fn string_view(r: Result<Result<String, Vec<u8>>, Error>) -> Result<
    Result<Seq<char>, Seq<u8>>,
    Error,
> {
    match r {
        Ok(t) => Ok(text_view(t)),
        Err(e) => Err(e),
    }
}

/// The bytes that a successful reply stands for, when `size` bytes of
/// storage were offered and the engine left `raw` there and reported
/// `returned` bytes: the front of the buffer, as long as the engine said.
pub open spec fn bytes_of_raw(raw: Raw, returned: usize, size: usize) -> Result<Seq<u8>, Error> {
    match raw {
        Raw::Bytes(buffer) => if buffer.len() == size {
            Ok(
                buffer.take(
                    if returned <= size {
                        returned as int
                    } else {
                        size as int
                    },
                ),
            )
        } else {
            Err(Error::Marshal)
        },
        _ => Err(Error::Marshal),
    }
}

/// What reading a byte option into `size` bytes of storage amounts to.
pub open spec fn bytes_answer(rc: i32, code: i32, raw: Raw, returned: usize, size: usize) -> Result<
    Seq<u8>,
    Error,
> {
    if rc == 0 {
        bytes_of_raw(raw, returned, size)
    } else {
        Err(Error::Transport { code })
    }
}

/// The text that the bytes of a reply stand for. With `remove_nulbyte` the
/// last byte, whatever it is, is dropped first, if there is one. Bytes that
/// are not UTF-8 come back as they are, after that drop.
pub open spec fn text_of_bytes(bytes: Seq<u8>, remove_nulbyte: bool) -> Result<
    Seq<char>,
    Seq<u8>,
> {
    let kept = if remove_nulbyte && bytes.len() > 0 {
        bytes.drop_last()
    } else {
        bytes
    };
    if valid_utf8(kept) {
        Ok(decode_utf8(kept))
    } else {
        Err(kept)
    }
}

/// What reading a text option into `size` bytes of storage amounts to.
pub open spec fn string_answer(
    rc: i32,
    code: i32,
    raw: Raw,
    returned: usize,
    size: usize,
    remove_nulbyte: bool,
) -> Result<Result<Seq<char>, Seq<u8>>, Error> {
    match bytes_answer(rc, code, raw, returned, size) {
        Ok(bytes) => Ok(text_of_bytes(bytes, remove_nulbyte)),
        Err(e) => Err(e),
    }
}

/// A buffer of `size` zero bytes.
pub fn zeroed(size: usize) -> (v: Vec<u8>)
    ensures
        v@ == Seq::new(size as nat, |i: int| 0u8),
{
    let v = vec![0u8; size];
    assert(v@ =~= Seq::new(size as nat, |i: int| 0u8));
    v
}

/// Converts what the engine left in the storage of a byte option.
pub fn bytes_from_raw(raw: RawSlot, returned: usize, size: usize) -> (r: Result<Vec<u8>, Error>)
    ensures
        bytes_view(r) == bytes_of_raw(raw@, returned, size),
{
    match raw {
        RawSlot::Bytes(buffer) => {
            if buffer.len() == size {
                let mut value = buffer;
                value.truncate(returned);
                assert(value@ =~= buffer@.take(
                    if returned <= size {
                        returned as int
                    } else {
                        size as int
                    },
                ));
                Ok(value)
            } else {
                Err(Error::Marshal)
            }
        },
        _ => Err(Error::Marshal),
    }
}

/// Reads option `opt` of `sock` as bytes, offering the engine `size` bytes
/// of storage. The result is cut to the length the engine reports.
pub fn get_bytes<S: RawSocket>(sock: &mut S, opt: c_int, size: size_t) -> (r: Result<Vec<u8>, Error>)
    ensures
        exists|rc: i32, code: i32, raw: Raw, returned: usize|
            bytes_view(r) == bytes_answer(rc, code, raw, returned, size),
        r matches Ok(v) ==> v@.len() <= size,
{
    match fetch(sock, opt, RawSlot::Bytes(zeroed(size))) {
        Ok((slot, returned)) => {
            let r = bytes_from_raw(slot, returned, size);
            assert(bytes_view(r) == bytes_answer(0, 0, slot@, returned, size));
            r
        },
        Err(e) => {
            assert(bytes_view(Err(e)) == bytes_answer(1, e->code, Raw::Null, 0, size));
            Err(e)
        },
    }
}

/// Converts the bytes of a reply to text.
pub fn text_from_bytes(value: Vec<u8>, remove_nulbyte: bool) -> (r: Result<String, Vec<u8>>)
    ensures
        text_view(r) == text_of_bytes(value@, remove_nulbyte),
{
    let mut value = value;
    if remove_nulbyte {
        value.pop();
    }
    string_from_utf8(value)
}

/// Reads option `opt` of `sock` as text, offering the engine `size` bytes of
/// storage. Bytes that are no UTF-8 are kept, as the inner `Err`.
pub fn get_string<S: RawSocket>(
    sock: &mut S,
    opt: c_int,
    size: size_t,
    remove_nulbyte: bool,
) -> (r: Result<Result<String, Vec<u8>>, Error>)
    ensures
        exists|rc: i32, code: i32, raw: Raw, returned: usize|
            string_view(r) == string_answer(rc, code, raw, returned, size, remove_nulbyte),
{
    let got = get_bytes(sock, opt, size);
    let ghost (rc, code, raw, returned) = choose|rc: i32, code: i32, raw: Raw, returned: usize|
        bytes_view(got) == bytes_answer(rc, code, raw, returned, size);
    match got {
        Ok(value) => {
            let t = text_from_bytes(value, remove_nulbyte);
            assert(string_view(Ok(t)) == string_answer(
                rc,
                code,
                raw,
                returned,
                size,
                remove_nulbyte,
            ));
            Ok(t)
        },
        Err(e) => {
            assert(string_view(Err(e)) == string_answer(
                rc,
                code,
                raw,
                returned,
                size,
                remove_nulbyte,
            ));
            Err(e)
        },
    }
}

/// What the registry records of an option.
#[derive(Clone, Copy, Debug, PartialEq, Eq, Structural)]
pub struct Descriptor {
    /// The raw identifier by which the engine knows the option.
    pub id: i32,
    /// Whether the option can be read.
    pub readable: bool,
    /// Whether the option can be written.
    pub writable: bool,
    /// For an option whose values vary in size and are bounded, the size in
    /// bytes of the storage into which a value is read. For a run of bytes
    /// it is also the bound on writing: a longer run is refused. A text is
    /// not held to it on writing: it is handed to the engine whatever its
    /// length, and the engine decides. A text ends with a zero byte in the
    /// storage, so the longest text that can be read back is one byte
    /// shorter.
    pub max_len: Option<usize>,
}

/// An entry of the registry: a type that stands for one socket option.
pub trait SocketOption {
    /// What the registry records of the option.
    spec fn descriptor() -> Descriptor;

    /// What the registry records of the option.
    fn describe() -> (d: Descriptor)
        ensures
            d == Self::descriptor(),
    ;
}

/// An option that can be read. Only an option that the registry marks as
/// readable can implement this.
pub trait OptionGet: SocketOption {
    /// The type of the option's value when read.
    type Item;

    /// Whether `r` is a result that reading the option can have: what the
    /// engine's answer amounts to for the option's type, for some answer.
    spec fn reads(r: Result<Self::Item, OptionError>) -> bool;

    /// The registry marks the option as readable.
    proof fn readable()
        ensures
            Self::descriptor().readable,
    ;

    /// Reads the option from `sock`. A failure names this option and the
    /// reading direction.
    fn get<S: RawSocket>(sock: &mut S) -> (r: Result<Self::Item, OptionError>)
        ensures
            Self::reads(r),
            r matches Err(e) ==> e.option == Self::descriptor().id && e.direction
                == Direction::Read,
    ;
}

/// An option that can be written. Only an option that the registry marks as
/// writable can implement this.
pub trait OptionSet: SocketOption {
    /// The type of the option's value when written.
    type Item;

    /// Whether `r` is a result that writing `value` to the option can have.
    spec fn writes(value: Self::Item, r: Result<(), OptionError>) -> bool;

    /// The registry marks the option as writable.
    proof fn writable()
        ensures
            Self::descriptor().writable,
    ;

    /// Writes `value` to the option of `sock`. A failure names this option
    /// and the writing direction.
    fn set<S: RawSocket>(sock: &mut S, value: Self::Item) -> (r: Result<(), OptionError>)
        ensures
            Self::writes(value, r),
            r matches Err(e) ==> e.option == Self::descriptor().id && e.direction
                == Direction::Write,
    ;
}

/// A result with its failure, if any, marked with the option and the
/// direction in which it happened.
pub open spec fn located<T>(r: Result<T, Error>, option: i32, direction: Direction) -> Result<
    T,
    OptionError,
> {
    match r {
        Ok(v) => Ok(v),
        Err(error) => Err(OptionError { option, direction, error }),
    }
}

/// A result with the mark taken off its failure.
pub open spec fn cause<T>(r: Result<T, OptionError>) -> Result<T, Error> {
    match r {
        Ok(v) => Ok(v),
        Err(e) => Err(e.error),
    }
}

/// Marks the failure of `r`, if any, with the option and the direction.
pub fn locate<T>(r: Result<T, Error>, option: i32, direction: Direction) -> (l: Result<
    T,
    OptionError,
>)
    ensures
        l == located(r, option, direction),
{
    match r {
        Ok(v) => Ok(v),
        Err(error) => Err(OptionError { option, direction, error }),
    }
}

/// The raw identifier that the number `id` of an option type stands for.
pub open spec fn raw_id(id: u32) -> i32 {
    id as i32
}

/// The raw identifier that the number `id` of an option type stands for.
pub fn to_raw_id(id: u32) -> (r: i32)
    ensures
        r == raw_id(id),
{
    #[verifier::truncate]
    (id as i32)
}

/// Whether `r` is a result that writing to the option `option` can have once
/// the value is handed to the engine: success, or the engine's failure.
pub open spec fn written(option: i32, r: Result<(), OptionError>) -> bool {
    exists|rc: i32, code: i32| r == located(outcome(rc, code), option, Direction::Write)
}

/// Whether `r` is a result that reading a `T` from the option `option` can
/// have.
pub open spec fn read_as<T: Getter>(option: i32, r: Result<T, OptionError>) -> bool {
    exists|rc: i32, code: i32, raw: Raw|
        r == located(answer::<T>(rc, code, raw), option, Direction::Read)
}

/// Whether `r` is a result that reading bytes from the option `option`
/// into `size` bytes of storage can have.
pub open spec fn read_as_bytes(option: i32, size: usize, r: Result<Vec<u8>, OptionError>) -> bool {
    &&& exists|rc: i32, code: i32, raw: Raw, returned: usize|
        bytes_view(cause(r)) == #[trigger] bytes_answer(rc, code, raw, returned, size)
    &&& r matches Err(e) ==> e.option == option && e.direction == Direction::Read
}

/// Whether `r` is a result that reading a text from the option `option`
/// into `size` bytes of storage can have.
pub open spec fn read_as_text(
    option: i32,
    size: usize,
    r: Result<Result<String, Vec<u8>>, OptionError>,
) -> bool {
    &&& exists|rc: i32, code: i32, raw: Raw, returned: usize|
        string_view(cause(r)) == #[trigger] string_answer(rc, code, raw, returned, size, true)
    &&& r matches Err(e) ==> e.option == option && e.direction == Direction::Read
}

/// An option of fixed size that can be read and written, with value type
/// `T` and identifier `ID`.
pub struct Scalar<T, const ID: u32> {
    marker: PhantomData<T>,
}

impl<T, const ID: u32> SocketOption for Scalar<T, ID> {
    open spec fn descriptor() -> Descriptor {
        Descriptor { id: raw_id(ID), readable: true, writable: true, max_len: None }
    }

    fn describe() -> (d: Descriptor) {
        Descriptor { id: to_raw_id(ID), readable: true, writable: true, max_len: None }
    }
}

impl<T: Getter, const ID: u32> OptionGet for Scalar<T, ID> {
    type Item = T;

    open spec fn reads(r: Result<T, OptionError>) -> bool {
        read_as::<T>(raw_id(ID), r)
    }

    proof fn readable() {
    }

    fn get<S: RawSocket>(sock: &mut S) -> (r: Result<T, OptionError>) {
        let id: i32 = to_raw_id(ID);
        let got = get::<T, S>(sock, id);
        locate(got, id, Direction::Read)
    }
}

impl<T: Setter, const ID: u32> OptionSet for Scalar<T, ID> {
    type Item = T;

    open spec fn writes(value: T, r: Result<(), OptionError>) -> bool {
        written(raw_id(ID), r)
    }

    proof fn writable() {
    }

    fn set<S: RawSocket>(sock: &mut S, value: T) -> (r: Result<(), OptionError>) {
        let id: i32 = to_raw_id(ID);
        let put = set::<T, S>(sock, id, value);
        locate(put, id, Direction::Write)
    }
}

/// An option of fixed size that can only be read, with value type `T` and
/// identifier `ID`.
pub struct ReadOnly<T, const ID: u32> {
    marker: PhantomData<T>,
}

impl<T, const ID: u32> SocketOption for ReadOnly<T, ID> {
    open spec fn descriptor() -> Descriptor {
        Descriptor { id: raw_id(ID), readable: true, writable: false, max_len: None }
    }

    fn describe() -> (d: Descriptor) {
        Descriptor { id: to_raw_id(ID), readable: true, writable: false, max_len: None }
    }
}

impl<T: Getter, const ID: u32> OptionGet for ReadOnly<T, ID> {
    type Item = T;

    open spec fn reads(r: Result<T, OptionError>) -> bool {
        read_as::<T>(raw_id(ID), r)
    }

    proof fn readable() {
    }

    fn get<S: RawSocket>(sock: &mut S) -> (r: Result<T, OptionError>) {
        let id: i32 = to_raw_id(ID);
        let got = get::<T, S>(sock, id);
        locate(got, id, Direction::Read)
    }
}

/// An option whose value is a run of at most `MAX` bytes, with identifier
/// `ID`. A longer value is refused before it reaches the engine.
pub struct Bytes<'a, const ID: u32, const MAX: usize> {
    marker: PhantomData<&'a ()>,
}

impl<'a, const ID: u32, const MAX: usize> SocketOption for Bytes<'a, ID, MAX> {
    open spec fn descriptor() -> Descriptor {
        Descriptor { id: raw_id(ID), readable: true, writable: true, max_len: Some(MAX) }
    }

    fn describe() -> (d: Descriptor) {
        Descriptor { id: to_raw_id(ID), readable: true, writable: true, max_len: Some(MAX) }
    }
}

impl<'a, const ID: u32, const MAX: usize> OptionGet for Bytes<'a, ID, MAX> {
    type Item = Vec<u8>;

    /// The bytes read are never more than `MAX`.
    open spec fn reads(r: Result<Vec<u8>, OptionError>) -> bool {
        &&& read_as_bytes(raw_id(ID), MAX, r)
        &&& r matches Ok(v) ==> v@.len() <= MAX
    }

    proof fn readable() {
    }

    fn get<S: RawSocket>(sock: &mut S) -> (r: Result<Vec<u8>, OptionError>) {
        let id: i32 = to_raw_id(ID);
        let got = get_bytes(sock, id, MAX);
        locate(got, id, Direction::Read)
    }
}

impl<'a, const ID: u32, const MAX: usize> OptionSet for Bytes<'a, ID, MAX> {
    type Item = &'a [u8];

    /// A value of more than `MAX` bytes is refused as it is; a shorter one
    /// is handed to the engine.
    open spec fn writes(value: &'a [u8], r: Result<(), OptionError>) -> bool {
        if value@.len() > MAX {
            r == Err::<(), OptionError>(
                OptionError {
                    option: raw_id(ID),
                    direction: Direction::Write,
                    error: Error::Marshal,
                },
            )
        } else {
            written(raw_id(ID), r)
        }
    }

    proof fn writable() {
    }

    fn set<S: RawSocket>(sock: &mut S, value: &'a [u8]) -> (r: Result<(), OptionError>) {
        let id: i32 = to_raw_id(ID);
        if value.len() > MAX {
            Err(OptionError { option: id, direction: Direction::Write, error: Error::Marshal })
        } else {
            let put = set::<&[u8], S>(sock, id, value);
            locate(put, id, Direction::Write)
        }
    }
}

/// An option that takes a run of bytes of any length and cannot be read,
/// with identifier `ID`.
pub struct WriteBytes<'a, const ID: u32> {
    marker: PhantomData<&'a ()>,
}

impl<'a, const ID: u32> SocketOption for WriteBytes<'a, ID> {
    open spec fn descriptor() -> Descriptor {
        Descriptor { id: raw_id(ID), readable: false, writable: true, max_len: None }
    }

    fn describe() -> (d: Descriptor) {
        Descriptor { id: to_raw_id(ID), readable: false, writable: true, max_len: None }
    }
}

impl<'a, const ID: u32> OptionSet for WriteBytes<'a, ID> {
    type Item = &'a [u8];

    open spec fn writes(value: &'a [u8], r: Result<(), OptionError>) -> bool {
        written(raw_id(ID), r)
    }

    proof fn writable() {
    }

    fn set<S: RawSocket>(sock: &mut S, value: &'a [u8]) -> (r: Result<(), OptionError>) {
        let id: i32 = to_raw_id(ID);
        let put = set::<&[u8], S>(sock, id, value);
        locate(put, id, Direction::Write)
    }
}

/// An option whose value is a text, read into `MAX` bytes of storage, with
/// identifier `ID`. The engine ends the text with a zero byte, so the last
/// byte of what it hands back is dropped on reading. Bytes that are no
/// UTF-8 are kept, as the inner `Err`. On writing, `MAX` is no bound: a text
/// of any length is handed to the engine.
pub struct Text<'a, const ID: u32, const MAX: usize> {
    marker: PhantomData<&'a ()>,
}

impl<'a, const ID: u32, const MAX: usize> SocketOption for Text<'a, ID, MAX> {
    open spec fn descriptor() -> Descriptor {
        Descriptor { id: raw_id(ID), readable: true, writable: true, max_len: Some(MAX) }
    }

    fn describe() -> (d: Descriptor) {
        Descriptor { id: to_raw_id(ID), readable: true, writable: true, max_len: Some(MAX) }
    }
}

impl<'a, const ID: u32, const MAX: usize> OptionGet for Text<'a, ID, MAX> {
    type Item = Result<String, Vec<u8>>;

    open spec fn reads(r: Result<Result<String, Vec<u8>>, OptionError>) -> bool {
        read_as_text(raw_id(ID), MAX, r)
    }

    proof fn readable() {
    }

    fn get<S: RawSocket>(sock: &mut S) -> (r: Result<Result<String, Vec<u8>>, OptionError>) {
        let id: i32 = to_raw_id(ID);
        let got = get_string(sock, id, MAX, true);
        locate(got, id, Direction::Read)
    }
}

impl<'a, const ID: u32, const MAX: usize> OptionSet for Text<'a, ID, MAX> {
    type Item = &'a str;

    /// A text is handed to the engine whatever its length, so the result
    /// is the engine's for every text.
    open spec fn writes(value: &'a str, r: Result<(), OptionError>) -> bool {
        written(raw_id(ID), r)
    }

    proof fn writable() {
    }

    fn set<S: RawSocket>(sock: &mut S, value: &'a str) -> (r: Result<(), OptionError>) {
        let id: i32 = to_raw_id(ID);
        let put = set::<&str, S>(sock, id, value);
        locate(put, id, Direction::Write)
    }
}

/// An option whose value is a text that can also be cleared, read into
/// `MAX` bytes of storage, with identifier `ID`. Writing `None` hands the
/// engine the null value, not an empty text. Reading is as for [`Text`],
/// and on writing, as there, a text of any length is handed to the engine.
pub struct NullableText<'a, const ID: u32, const MAX: usize> {
    marker: PhantomData<&'a ()>,
}

impl<'a, const ID: u32, const MAX: usize> SocketOption for NullableText<'a, ID, MAX> {
    open spec fn descriptor() -> Descriptor {
        Descriptor { id: raw_id(ID), readable: true, writable: true, max_len: Some(MAX) }
    }

    fn describe() -> (d: Descriptor) {
        Descriptor { id: to_raw_id(ID), readable: true, writable: true, max_len: Some(MAX) }
    }
}

impl<'a, const ID: u32, const MAX: usize> OptionGet for NullableText<'a, ID, MAX> {
    type Item = Result<String, Vec<u8>>;

    open spec fn reads(r: Result<Result<String, Vec<u8>>, OptionError>) -> bool {
        read_as_text(raw_id(ID), MAX, r)
    }

    proof fn readable() {
    }

    fn get<S: RawSocket>(sock: &mut S) -> (r: Result<Result<String, Vec<u8>>, OptionError>) {
        let id: i32 = to_raw_id(ID);
        let got = get_string(sock, id, MAX, true);
        locate(got, id, Direction::Read)
    }
}

impl<'a, const ID: u32, const MAX: usize> OptionSet for NullableText<'a, ID, MAX> {
    type Item = Option<&'a str>;

    /// A text, or its absence, is handed to the engine whatever the
    /// length of the text, so the result is the engine's for every value.
    open spec fn writes(value: Option<&'a str>, r: Result<(), OptionError>) -> bool {
        written(raw_id(ID), r)
    }

    proof fn writable() {
    }

    fn set<S: RawSocket>(sock: &mut S, value: Option<&'a str>) -> (r: Result<(), OptionError>) {
        let id: i32 = to_raw_id(ID);
        let put = set::<Option<&str>, S>(sock, id, value);
        locate(put, id, Direction::Write)
    }
}

/// The largest size of an inbound message, in bytes; -1 for no limit.
pub type MaxMsgSize = Scalar<i64, 22>;

/// The high-water mark for outbound messages.
pub type Sndhwm = Scalar<i32, 23>;

/// The high-water mark for inbound messages.
pub type Rcvhwm = Scalar<i32, 24>;

/// The I/O threads that serve the socket's connections, as a bit mask.
pub type Affinity = Scalar<u64, 4>;

/// The multicast data rate, in kilobits per second.
pub type Rate = Scalar<i32, 8>;

/// The multicast recovery interval, in milliseconds.
pub type RecoveryIvl = Scalar<i32, 9>;

/// The size of the kernel's transmit buffer, in bytes.
pub type Sndbuf = Scalar<i32, 11>;

/// The size of the kernel's receive buffer, in bytes.
pub type Rcvbuf = Scalar<i32, 12>;

/// The type-of-service field of outbound packets.
pub type Tos = Scalar<i32, 57>;

/// How long unsent messages linger after the socket is closed, in
/// milliseconds; -1 for ever.
pub type Linger = Scalar<i32, 17>;

/// The first interval between attempts to reconnect, in milliseconds.
pub type ReconnectIvl = Scalar<i32, 18>;

/// The longest interval between attempts to reconnect, in milliseconds.
pub type ReconnectIvlMax = Scalar<i32, 21>;

/// The longest queue of pending connections.
pub type Backlog = Scalar<i32, 19>;

/// Whether the socket speaks IPv6.
pub type Ipv6 = Scalar<bool, 42>;

/// Whether messages are queued only to completed connections.
pub type Immediate = Scalar<bool, 39>;

/// Whether the socket acts as the server of the PLAIN mechanism.
pub type PlainServer = Scalar<bool, 44>;

/// Whether only the last message is kept.
pub type Conflate = Scalar<bool, 54>;

/// Whether a router reports messages that cannot be routed.
pub type RouterMandatory = Scalar<bool, 33>;

/// Whether an empty message is sent to every new connection.
pub type ProbeRouter = Scalar<bool, 51>;

/// Whether the socket acts as the server of the CURVE mechanism.
pub type CurveServer = Scalar<bool, 47>;

/// The most hops a multicast packet may take.
pub type MulticastHops = Scalar<i32, 25>;

/// How long a receive may wait, in milliseconds; -1 for ever.
pub type Rcvtimeo = Scalar<i32, 27>;

/// How long a send may wait, in milliseconds; -1 for ever.
pub type Sndtimeo = Scalar<i32, 28>;

/// How long a handshake may take, in milliseconds.
pub type HandshakeIvl = Scalar<i32, 66>;

/// Whether TCP keep-alive is used; -1 for the system's default.
pub type TcpKeepalive = Scalar<i32, 34>;

/// The number of TCP keep-alive probes; -1 for the system's default.
pub type TcpKeepaliveCnt = Scalar<i32, 35>;

/// The idle time before TCP keep-alive starts; -1 for the system's default.
pub type TcpKeepaliveIdle = Scalar<i32, 36>;

/// The interval between TCP keep-alive probes; -1 for the system's default.
pub type TcpKeepaliveIntvl = Scalar<i32, 37>;

/// The identity of the socket: at most 255 bytes.
pub type Identity<'a> = Bytes<'a, 5, 255>;

/// The file descriptor on which the socket signals its events.
pub type Fd = ReadOnly<zmq_sys::RawFd, 14>;

/// The events the socket is ready for.
pub type Events = ReadOnly<PollEvents, 15>;

/// A prefix of the messages a subscriber wants.
pub type Subscribe<'a> = WriteBytes<'a, 6>;

/// A prefix of the messages a subscriber no longer wants.
pub type Unsubscribe<'a> = WriteBytes<'a, 7>;

/// The SOCKS5 proxy through which connections go. The longest domain name
/// has 253 bytes, so 255 bytes of storage are enough.
pub type SocksProxy<'a> = NullableText<'a, 68, 255>;

/// The domain for authentication, read into 255 bytes of storage.
pub type ZapDomain<'a> = Text<'a, 55, 255>;

/// The user name for the PLAIN mechanism, read into 255 bytes of storage.
pub type PlainUsername<'a> = NullableText<'a, 45, 255>;

/// The password for the PLAIN mechanism, read into 255 bytes of storage.
pub type PlainPassword<'a> = NullableText<'a, 46, 255>;

/// The socket's long-term public key for CURVE: 32 bytes.
pub type CurvePublickey<'a> = Bytes<'a, 48, 32>;

/// The socket's long-term secret key for CURVE: 32 bytes.
pub type CurveSecretkey<'a> = Bytes<'a, 49, 32>;

/// The server's long-term public key for CURVE: 32 bytes.
pub type CurveServerkey<'a> = Bytes<'a, 50, 32>;

/// An integer that is read back as it was written is the integer that was
/// set: for each of the three integer types that can be written, converting
/// the raw value of `x` gives `x` again, for every `x` of the type.
pub proof fn lemma_integer_round_trip(x: i32, y: i64, z: u64, code: i32)
    ensures
        <i32 as Getter>::of_raw(x.raw()) == Ok::<i32, Error>(x),
        <i64 as Getter>::of_raw(y.raw()) == Ok::<i64, Error>(y),
        <u64 as Getter>::of_raw(z.raw()) == Ok::<u64, Error>(z),
        answer::<i32>(0, code, x.raw()) == Ok::<i32, Error>(x),
        answer::<i64>(0, code, y.raw()) == Ok::<i64, Error>(y),
        answer::<u64>(0, code, z.raw()) == Ok::<u64, Error>(z),
{
}

/// A flag that is read back as it was written is the flag that was set.
pub proof fn lemma_flag_round_trip(flag: bool, code: i32)
    ensures
        <bool as Getter>::of_raw(flag.raw()) == Ok::<bool, Error>(flag),
        answer::<bool>(0, code, flag.raw()) == Ok::<bool, Error>(flag),
{
}

/// A flag reads as set only when the engine holds exactly 1: no other
/// integer counts as true.
pub proof fn lemma_flag_is_exactly_one(v: i32)
    ensures
        <bool as Getter>::of_raw(Raw::Int(v)) == Ok::<bool, Error>(v == 1),
{
}

/// The events read from an option are always among the three that are
/// known, whatever integer the engine holds.
pub proof fn lemma_events_are_known(v: i32)
    ensures
        <PollEvents as Getter>::of_raw(Raw::Int(v)) matches Ok(events) && events.wf(),
{
    lemma_truncated(v as i16);
}

/// A text is never refused for its length: whatever the text, what writing
/// it comes to is what the engine answers, which rules out the failure by
/// which an over-long run of bytes is refused.
pub proof fn lemma_text_of_any_length_is_handed_on<const ID: u32, const MAX: usize>(
    text: &str,
    cleared: Option<&str>,
    r: Result<(), OptionError>,
)
    ensures
        <Text<'_, ID, MAX> as OptionSet>::writes(text, r) == written(raw_id(ID), r),
        <NullableText<'_, ID, MAX> as OptionSet>::writes(cleared, r) == written(raw_id(ID), r),
        written(raw_id(ID), r) ==> r is Ok || (r matches Err(e) && e.error is Transport),
{
}

/// A failed read keeps the engine's error number as it is, whatever stands
/// in the storage: no zeroed buffer is taken for a value, the failure is of
/// no other kind, and this holds for the number by which the engine says
/// that it would have to wait as for any other.
pub proof fn lemma_failed_read_keeps_the_error_number(
    rc: i32,
    code: i32,
    raw: Raw,
    returned: usize,
    size: usize,
    remove_nulbyte: bool,
)
    requires
        rc != 0,
    ensures
        outcome(rc, code) == Err::<(), Error>(Error::Transport { code }),
        answer::<i32>(rc, code, raw) == Err::<i32, Error>(Error::Transport { code }),
        answer::<i64>(rc, code, raw) == Err::<i64, Error>(Error::Transport { code }),
        answer::<u64>(rc, code, raw) == Err::<u64, Error>(Error::Transport { code }),
        answer::<bool>(rc, code, raw) == Err::<bool, Error>(Error::Transport { code }),
        bytes_answer(rc, code, raw, returned, size) == Err::<Seq<u8>, Error>(
            Error::Transport { code },
        ),
        string_answer(rc, code, raw, returned, size, remove_nulbyte) == Err::<
            Result<Seq<char>, Seq<u8>>,
            Error,
        >(Error::Transport { code }),
{
}

/// Bytes that fit the storage are read back as they were written: `value`
/// is handed to the engine as it is, and when the engine puts it at the
/// front of a buffer of `size` bytes and reports its length, reading gives
/// `value` again, whatever `rest` follows it in the buffer.
pub proof fn lemma_bytes_round_trip(value: &[u8], rest: Seq<u8>, size: usize, code: i32)
    requires
        value@.len() + rest.len() == size,
    ensures
        value.raw() == Raw::Bytes(value@),
        bytes_answer(0, code, Raw::Bytes(value@ + rest), value@.len() as usize, size) == Ok::<
            Seq<u8>,
            Error,
        >(value@),
{
    assert((value@ + rest).take(value@.len() as int) =~= value@);
}

/// A run of bytes is accepted for an option with a bound only if it is
/// within the bound, so whatever was accepted fits the storage it is read
/// back into; a longer run is refused, always with the same failure, which
/// names the option.
pub proof fn lemma_accepted_bytes_fit<const ID: u32, const MAX: usize>(
    value: &[u8],
    r: Result<(), OptionError>,
)
    requires
        <Bytes<'_, ID, MAX> as OptionSet>::writes(value, r),
    ensures
        r is Ok ==> value@.len() <= MAX,
        value@.len() > MAX ==> r == Err::<(), OptionError>(
            OptionError { option: raw_id(ID), direction: Direction::Write, error: Error::Marshal },
        ),
{
}

/// A text that fits the storage is read back as it was written: `text` is
/// handed to the engine as its UTF-8 bytes, whether written plainly or as
/// `Some`, and when the engine puts those bytes and a closing zero byte at
/// the front of a buffer of `size` bytes and reports their length, reading
/// gives `text` again.
pub proof fn lemma_text_round_trip(text: &str, rest: Seq<u8>, size: usize, code: i32)
    requires
        encode_utf8(text@).len() + 1 + rest.len() == size,
    ensures
        text.raw() == Raw::Bytes(encode_utf8(text@)),
        Some(text).raw() == Raw::Bytes(encode_utf8(text@)),
        string_answer(
            0,
            code,
            Raw::Bytes(encode_utf8(text@).push(0u8) + rest),
            (encode_utf8(text@).len() + 1) as usize,
            size,
            true,
        ) == Ok::<Result<Seq<char>, Seq<u8>>, Error>(Ok(text@)),
{
    let bytes = encode_utf8(text@);
    let sent = bytes.push(0u8);
    assert((sent + rest).take(sent.len() as int) =~= sent);
    assert(sent.drop_last() =~= bytes);
    encode_utf8_valid_utf8(text@);
    encode_utf8_decode_utf8(text@);
}

/// A cleared text reads as the empty text, not as a failure: clearing hands
/// the engine the null value, and a reply that holds nothing but the closing
/// zero byte, or nothing at all, gives the empty text.
pub proof fn lemma_cleared_text_is_empty(rest: Seq<u8>, size: usize, code: i32)
    requires
        1 + rest.len() == size,
    ensures
        None::<&str>.raw() == Raw::Null,
        string_answer(0, code, Raw::Bytes(seq![0u8] + rest), 1, size, true) == Ok::<
            Result<Seq<char>, Seq<u8>>,
            Error,
        >(Ok(Seq::<char>::empty())),
        string_answer(0, code, Raw::Bytes(seq![0u8] + rest), 0, size, true) == Ok::<
            Result<Seq<char>, Seq<u8>>,
            Error,
        >(Ok(Seq::<char>::empty())),
{
    let none = Seq::<u8>::empty();
    assert((seq![0u8] + rest).take(1) =~= seq![0u8]);
    assert((seq![0u8] + rest).take(0) =~= none);
    assert(seq![0u8].drop_last() =~= none);
    assert(encode_utf8(Seq::<char>::empty()) =~= none);
    encode_utf8_valid_utf8(Seq::<char>::empty());
    encode_utf8_decode_utf8(Seq::<char>::empty());
}

} // verus!
