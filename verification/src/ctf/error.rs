//! What can go wrong in a client operation.

use vstd::prelude::*;

verus! {

/// An error of the client.
#[non_exhaustive]
#[derive(Debug, Clone, PartialEq, Eq)]
pub enum CtfError {
    /// A contract call that could not be made, or that did not go through.
    ContractCall(String),
}

impl CtfError {
    /// The text that the error carries.
    pub open spec fn text(self) -> Seq<char> {
        match self {
            CtfError::ContractCall(text) => text@,
        }
    }

    /// A failed contract call, described by `head` followed by `tail`.
    pub(crate) fn contract_call(head: &str, tail: &str) -> (r: Self)
        ensures
            r is ContractCall,
            r.text() == head@ + tail@,
    {
        CtfError::ContractCall(crate::text::join(head, tail))
    }
}

/// `result` answers as `expected` says: with that value, or with an error of that text.
pub open spec fn answers<T>(result: Result<T, CtfError>, expected: Result<T, Seq<char>>) -> bool {
    match expected {
        Ok(value) => result == Ok::<T, CtfError>(value),
        Err(text) => result is Err && result->Err_0 is ContractCall && result->Err_0.text() == text,
    }
}

} // verus!
