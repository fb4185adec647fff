//! The context: the handle on the engine's process-wide resources, from
//! which sockets are made.

use vstd::prelude::*;
use crate::error::Error;
use crate::raw::{Created, RawContext, Status};
use crate::socket::{Socket, SocketType};
use crate::sockopt::{check, outcome};

verus! {

/// A context of the engine. Sockets made from it borrow it, so it cannot be
/// shut down, moved or dropped before they are gone. Shutting it down gives
/// the engine's context up, so it is released once.
pub struct Context<C: RawContext> {
    raw: Option<C>,
}

impl<C: RawContext> Context<C> {
    /// Whether the context has been shut down.
    pub closed spec fn is_closed(&self) -> bool {
        self.raw is None
    }

    /// The context that owns the engine's context `raw`.
    pub fn new(raw: C) -> (c: Context<C>)
        ensures
            !c.is_closed(),
    {
        Context { raw: Some(raw) }
    }

    /// Whether the context has been shut down.
    pub fn closed(&self) -> (b: bool)
        ensures
            b == self.is_closed(),
    {
        self.raw.is_none()
    }

    /// Makes a socket for the pattern `kind`.
    ///
    /// On a context that has been shut down this fails with `Closed`, and
    /// the engine is not asked. Otherwise the socket is open and has the
    /// pattern asked for, or the engine refused and its error number is
    /// returned.
    pub fn socket<'c>(&'c self, kind: SocketType) -> (r: Result<Socket<'c, C::Socket>, Error>)
        ensures
            self.is_closed() ==> r matches Err(Error::Closed),
            !self.is_closed() ==> r is Ok || r matches Err(Error::Transport { .. }),
            r matches Ok(s) ==> !s.is_closed() && s.pattern() == kind,
    {
        match &self.raw {
            None => Err(Error::Closed),
            Some(raw) => {
                let created: Created<C::Socket> = raw.socket(kind.to_raw());
                match created.socket {
                    Some(endpoint) => Ok(Socket::new(endpoint, kind)),
                    None => Err(Error::Transport { code: created.code }),
                }
            },
        }
    }

    /// Shuts the context down. Every later operation fails with `Closed`, as
    /// does shutting down a second time.
    pub fn close(&mut self) -> (r: Result<(), Error>)
        ensures
            final(self).is_closed(),
            old(self).is_closed() ==> r == Err::<(), Error>(Error::Closed),
            !old(self).is_closed() ==> exists|rc: i32, code: i32| r == outcome(rc, code),
    {
        match self.raw.take() {
            None => Err(Error::Closed),
            Some(raw) => {
                let status: Status = raw.term();
                check(status.rc, status.code)
            },
        }
    }
}

} // verus!
