//! Requests that tell who makes them.

use vstd::prelude::*;

verus! {

/// A request that is written out together with credentials, of type `C`, which users of a
/// connection supply. `T` is what it is written out as.
pub trait WithCredentials<C, T = String> {
    /// Why the request could not be written out.
    type Error;

    /// Writes the request out as JSON, with the credentials in it.
    fn as_authenticated(&self, credentials: &C) -> Result<T, Self::Error>;
}

/// A request that is used up when it is written out. Every reference to a request with
/// credentials is one; who takes any such request cannot write it out twice.
pub trait WrittenOnce<C, T>: Sized {
    /// Why the request could not be written out.
    type Error;

    /// `json` is what may come of writing the request out.
    spec fn writes(self, credentials: &C, json: Result<T, Self::Error>) -> bool;

    /// Writes the request out as JSON, with the credentials in it.
    fn write_out(self, credentials: &C) -> (r: Result<T, Self::Error>)
        ensures
            self.writes(credentials, r),
    ;
}

impl<'a, R: WithCredentials<C, T>, C, T> WrittenOnce<C, T> for &'a R {
    type Error = R::Error;

    open spec fn writes(self, credentials: &C, json: Result<T, R::Error>) -> bool {
        call_ensures(R::as_authenticated, (self, credentials), json)
    }

    fn write_out(self, credentials: &C) -> (r: Result<T, R::Error>) {
        self.as_authenticated(credentials)
    }
}

} // verus!
