//! How the texts of a connection become messages.

use vstd::prelude::*;

verus! {

/// A parser of incoming texts, which users of a connection supply.
pub trait MessageParser<M> {
    /// Why a text could not be parsed.
    type Error;

    /// Parses one text, given as UTF-8, into the messages that it holds.
    fn parse(&self, bytes: &[u8]) -> Result<Vec<M>, Self::Error>;
}

/// The messages of a parse, or `None` if it failed.
pub open spec fn messages<M, X>(result: Result<Vec<M>, X>) -> Option<Seq<M>> {
    match result {
        Ok(messages) => Some(messages@),
        Err(_) => None,
    }
}

/// `parser` may find `found` in `text`.
pub open spec fn may_find<M, P: MessageParser<M>>(
    parser: &P,
    text: Seq<char>,
    found: Option<Seq<M>>,
) -> bool {
    exists|bytes: &[u8], result: Result<Vec<M>, P::Error>|
        {
            &&& bytes@ == vstd::utf8::encode_utf8(text)
            &&& #[trigger] call_ensures(P::parse, (parser, bytes), result)
            &&& messages(result) == found
        }
}

/// Parses `text`; a parse that fails finds nothing.
pub fn find_messages<M, P: MessageParser<M>>(parser: &P, text: &str) -> (r: Option<Vec<M>>)
    ensures
        may_find(
            parser,
            text@,
            match r {
                Some(messages) => Some(messages@),
                None => None,
            },
        ),
{
    let bytes = text.as_bytes();
    let result = parser.parse(bytes);
    assert(call_ensures(P::parse, (parser, bytes), result));
    match result {
        Ok(messages) => Some(messages),
        Err(_) => None,
    }
}

} // verus!
