//! What can go wrong on a connection.

use vstd::prelude::*;

verus! {

/// The area of the client that an error comes from.
#[non_exhaustive]
#[derive(Debug, Clone, Copy, PartialEq, Eq)]
pub enum Kind {
    WebSocket,
}

/// An error of the connection; `E` is the error of the transport.
#[non_exhaustive]
#[derive(Debug)]
pub enum WsError<E> {
    /// The transport failed.
    Connection(E),
    /// The connection was closed.
    ConnectionClosed,
}

/// An error with the area that it comes from.
#[derive(Debug)]
pub struct Error<E> {
    pub kind: Kind,
    pub source: WsError<E>,
}

impl<E> Error<E> {
    /// The error `source`, of the area `kind`.
    pub fn with_source(kind: Kind, source: WsError<E>) -> (r: Self)
        ensures
            r == (Error { kind, source }),
    {
        Error { kind, source }
    }
}

/// Why a request was not handed to the connection; `S` is the error of writing it out.
#[derive(Debug)]
pub enum RequestError<S> {
    /// The request could not be written out.
    Request(S),
    /// Nothing takes requests any more.
    ConnectionClosed,
}

} // verus!
