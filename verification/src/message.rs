//! A message frame: the bytes of one unit that is sent or received.

use vstd::prelude::*;
use vstd::slice::slice_to_vec;
use vstd::utf8::{decode_utf8, valid_utf8};
use crate::error::EncodingError;
use crate::text::{str_from_utf8, string_from_utf8};

verus! {

/// One frame. A message owns its bytes: it is made from a buffer without a
/// copy, and whoever takes the message takes the buffer with it.
#[derive(Debug, PartialEq, Eq)]
pub struct Message {
    data: Vec<u8>,
}

impl View for Message {
    type V = Seq<u8>;

    closed spec fn view(&self) -> Seq<u8> {
        self.data@
    }
}

impl Message {
    /// The frame without any byte.
    pub fn new() -> (m: Message)
        ensures
            m@ == Seq::<u8>::empty(),
    {
        Message { data: Vec::new() }
    }

    /// The frame that holds `data`, which is taken over as it is.
    pub fn from_bytes(data: Vec<u8>) -> (m: Message)
        ensures
            m@ == data@,
    {
        Message { data }
    }

    /// The frame that holds a copy of `data`.
    pub fn from_slice(data: &[u8]) -> (m: Message)
        ensures
            m@ == data@,
    {
        Message { data: slice_to_vec(data) }
    }

    /// The number of bytes in the frame.
    pub fn len(&self) -> (n: usize)
        ensures
            n == self@.len(),
    {
        self.data.len()
    }

    /// Whether the frame holds no byte.
    pub fn is_empty(&self) -> (b: bool)
        ensures
            b == (self@.len() == 0),
    {
        self.data.len() == 0
    }

    /// The bytes of the frame.
    pub fn as_bytes(&self) -> (bytes: &[u8])
        ensures
            bytes@ == self@,
    {
        self.data.as_slice()
    }

    /// Gives up the frame for its bytes.
    pub fn into_bytes(self) -> (bytes: Vec<u8>)
        ensures
            bytes@ == self@,
    {
        self.data
    }

    /// The frame as text, if its bytes are UTF-8; if not, an error that holds
    /// a copy of the bytes.
    pub fn as_str(&self) -> (r: Result<&str, EncodingError>)
        ensures
            match r {
                Ok(s) => valid_utf8(self@) && s@ == decode_utf8(self@),
                Err(e) => !valid_utf8(self@) && e.raw_bytes@ == self@,
            },
    {
        match str_from_utf8(self.data.as_slice()) {
            Some(s) => Ok(s),
            None => Err(EncodingError { raw_bytes: self.data.clone() }),
        }
    }

    /// Gives up the frame for its text, if its bytes are UTF-8; if not, for an
    /// error that holds the bytes.
    pub fn into_string(self) -> (r: Result<String, EncodingError>)
        ensures
            match r {
                Ok(s) => valid_utf8(self@) && s@ == decode_utf8(self@),
                Err(e) => !valid_utf8(self@) && e.raw_bytes@ == self@,
            },
    {
        match string_from_utf8(self.data) {
            Ok(s) => Ok(s),
            Err(raw_bytes) => Err(EncodingError { raw_bytes }),
        }
    }
}

} // verus!
