//! A typed front to a message-queueing transport engine.
//!
//! The engine does the networking; this crate gives its sockets types. Every
//! socket option has a type of its own that says what kind of value it
//! takes and whether it can be read, written or both ([`sockopt`]); a socket
//! owns its endpoint, refuses to be used once closed, and can be used by one
//! operation at a time only ([`socket`]); a message owns its bytes
//! ([`message`]); and several sockets can be waited for at once ([`poll`]).
//!
//! The engine itself stays outside: it is reached through the two traits of
//! [`raw`], of whose implementations nothing is assumed. What a function of
//! this crate returns is stated for every answer the engine may give.

pub mod context;
pub mod error;
pub mod message;
pub mod poll;
pub mod raw;
pub mod socket;
pub mod sockopt;
mod text;
