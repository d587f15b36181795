//! An open connection: what is done with each message that arrives, each request that
//! is to go out and each PING that the heartbeat asks for, and how the connection ends.

use crate::ws::error::{Error, Kind, WsError};
use crate::ws::parser::{find_messages, may_find, MessageParser};
use vstd::prelude::*;

verus! {

/// A message of the transport.
#[derive(Debug)]
pub enum Message {
    Text(String),
    Close,
    /// A binary or a control frame, which carries nothing for the client.
    Other,
}

/// What happened on the connection; `E` is the error of the transport.
#[derive(Debug)]
pub enum HandlerEvent<E> {
    /// A message arrived.
    Received(Message),
    /// Reading failed.
    ReadFailed(E),
    /// A request is to go out; `None` if all who could make requests are gone.
    Outgoing(Option<String>),
    /// The heartbeat asks for a PING.
    PingRequested,
    /// Nothing can happen any more.
    Exhausted,
    /// What was written went out, or could not.
    Written { ok: bool },
}

/// What to do next.
#[derive(Debug)]
pub enum HandlerAction<E> {
    /// Wait for the next event.
    Wait,
    /// Tell the heartbeat that a PONG has arrived now, then wait for the next event.
    NotifyPong,
    /// Write this text, and report whether it went out.
    Write(String),
    /// Abort the heartbeat, and end the handling of the connection with this result.
    Finish(Result<(), Error<E>>),
}

/// What the handler decides on an event: the messages to hand to the subscribers, in order,
/// and what to do next.
#[derive(Debug)]
pub struct Reaction<M, E> {
    pub messages: Vec<M>,
    pub action: HandlerAction<E>,
}

/// A [`HandlerEvent`], with sequences for its texts.
pub enum EventView<E> {
    Text(Seq<char>),
    Close,
    Other,
    ReadFailed(E),
    Outgoing(Option<Seq<char>>),
    PingRequested,
    Exhausted,
    Written { ok: bool },
}

/// A [`HandlerAction`], with a sequence for its text.
#[verifier::ext_equal]
pub enum ActionView<E> {
    Wait,
    NotifyPong,
    Write(Seq<char>),
    Finish(Result<(), Error<E>>),
}

impl<E> View for HandlerEvent<E> {
    type V = EventView<E>;

    open spec fn view(&self) -> EventView<E> {
        match *self {
            HandlerEvent::Received(Message::Text(text)) => EventView::Text(text@),
            HandlerEvent::Received(Message::Close) => EventView::Close,
            HandlerEvent::Received(Message::Other) => EventView::Other,
            HandlerEvent::ReadFailed(error) => EventView::ReadFailed(error),
            HandlerEvent::Outgoing(Some(text)) => EventView::Outgoing(Some(text@)),
            HandlerEvent::Outgoing(None) => EventView::Outgoing(None),
            HandlerEvent::PingRequested => EventView::PingRequested,
            HandlerEvent::Exhausted => EventView::Exhausted,
            HandlerEvent::Written { ok } => EventView::Written { ok },
        }
    }
}

impl<E> View for HandlerAction<E> {
    type V = ActionView<E>;

    open spec fn view(&self) -> ActionView<E> {
        match *self {
            HandlerAction::Wait => ActionView::Wait,
            HandlerAction::NotifyPong => ActionView::NotifyPong,
            HandlerAction::Write(text) => ActionView::Write(text@),
            HandlerAction::Finish(result) => ActionView::Finish(result),
        }
    }
}

impl<E> EventView<E> {
    /// Whether the event brings a text for the parser: any text but the answer to a PING.
    pub open spec fn brings_text(self) -> bool {
        self is Text && self->Text_0 != "PONG"@
    }
}

/// What the handler is doing.
#[derive(Debug, Clone, Copy, PartialEq, Eq)]
pub enum HandlerPhase {
    /// Waiting for something to happen.
    Waiting,
    /// Waiting for what it wrote to go out.
    Writing,
    /// Nothing: the handling of the connection is over.
    Finished,
}

/// Whether `event` is one that a handler in `phase` is waiting for.
pub open spec fn expected<E>(phase: HandlerPhase, event: EventView<E>) -> bool {
    match phase {
        HandlerPhase::Waiting => !(event is Written),
        HandlerPhase::Writing => event is Written,
        HandlerPhase::Finished => false,
    }
}

/// An event of a connection, with what the parser finds in the text that it brings, if it
/// brings one.
pub type Happening<M, E> = (EventView<E>, Option<Seq<M>>);

/// What the handler does on an event: the phase that follows, the messages to hand to the
/// subscribers, and what to do next.
pub type ReactionView<M, E> = (HandlerPhase, Seq<M>, ActionView<E>);

/// The handler waits on, and there is nothing to hand out.
pub open spec fn waiting<M, E>(action: ActionView<E>) -> ReactionView<M, E> {
    (HandlerPhase::Waiting, seq![], action)
}

/// The handler has `text` written, and there is nothing to hand out.
pub open spec fn writing<M, E>(text: Seq<char>) -> ReactionView<M, E> {
    (HandlerPhase::Writing, seq![], ActionView::Write(text))
}

/// The handling of the connection is over, with `result`.
pub open spec fn finished<M, E>(result: Result<(), Error<E>>) -> ReactionView<M, E> {
    (HandlerPhase::Finished, seq![], ActionView::Finish(result))
}

/// What the handler does on `event`; `found` is what the parser finds in the text that the
/// event brings, if it brings one.
pub open spec fn reaction<M, E>(event: EventView<E>, found: Option<Seq<M>>) -> ReactionView<M, E> {
    match event {
        EventView::Text(text) => if text == "PONG"@ {
            waiting(ActionView::NotifyPong)
        } else {
            match found {
                Some(messages) => (HandlerPhase::Waiting, messages, ActionView::Wait),
                None => waiting(ActionView::Wait),
            }
        },
        EventView::Close => finished(
            Err(Error { kind: Kind::WebSocket, source: WsError::ConnectionClosed }),
        ),
        EventView::Other => waiting(ActionView::Wait),
        EventView::ReadFailed(error) => finished(
            Err(Error { kind: Kind::WebSocket, source: WsError::Connection(error) }),
        ),
        EventView::Outgoing(Some(text)) => writing(text),
        EventView::Outgoing(None) => finished(Ok(())),
        EventView::PingRequested => writing("PING"@),
        EventView::Exhausted => finished(Ok(())),
        EventView::Written { ok } => if ok {
            waiting(ActionView::Wait)
        } else {
            finished(Ok(()))
        },
    }
}

/// `found` is what `parser` may find in the text that `event` brings; nothing, if it brings
/// none.
pub open spec fn may_bring<M, P: MessageParser<M>, E>(
    parser: &P,
    event: EventView<E>,
    found: Option<Seq<M>>,
) -> bool {
    if event.brings_text() {
        may_find(parser, event->Text_0, found)
    } else {
        found is None
    }
}

/// The handler of an open connection. Its view is what it is doing.
#[derive(Debug)]
pub struct ConnectionHandler {
    phase: HandlerPhase,
}

impl View for ConnectionHandler {
    type V = HandlerPhase;

    closed spec fn view(&self) -> HandlerPhase {
        self.phase
    }
}

/// Whether `text` answers a PING.
fn is_pong(text: &String) -> (r: bool)
    ensures
        r == (text@ == "PONG"@),
{
    *text == "PONG".to_owned()
}

/// The text that `event` brings for the parser, if it brings one.
pub fn text_for_parser<E>(event: &HandlerEvent<E>) -> (r: Option<&str>)
    ensures
        r is Some <==> event@.brings_text(),
        r matches Some(text) ==> event@ == EventView::<E>::Text(text@),
{
    match event {
        HandlerEvent::Received(Message::Text(text)) => {
            if is_pong(text) {
                None
            } else {
                Some(text.as_str())
            }
        },
        _ => None,
    }
}

impl ConnectionHandler {
    /// The handler of a connection that was just opened.
    pub fn new() -> (r: Self)
        ensures
            r@ is Waiting,
    {
        ConnectionHandler { phase: HandlerPhase::Waiting }
    }

    /// Whether `event` is one that the handler is waiting for.
    pub fn awaits<E>(&self, event: &HandlerEvent<E>) -> (r: bool)
        ensures
            r == expected(self@, event@),
    {
        match self.phase {
            HandlerPhase::Waiting => !matches!(event, HandlerEvent::Written { .. }),
            HandlerPhase::Writing => matches!(event, HandlerEvent::Written { .. }),
            HandlerPhase::Finished => false,
        }
    }

    /// Ends the handling of the connection.
    fn finish<E>(&mut self, result: Result<(), Error<E>>) -> (r: HandlerAction<E>)
        ensures
            final(self)@ is Finished,
            r@ == ActionView::Finish(result),
    {
        self.phase = HandlerPhase::Finished;
        HandlerAction::Finish(result)
    }

    /// Decides what to do on `event`; `found` is what the parser found in the text that
    /// the event brings, if it brings one.
    pub fn react<M, E>(&mut self, event: HandlerEvent<E>, found: Option<Vec<M>>) -> (r: Reaction<
        M,
        E,
    >)
        requires
            expected(old(self)@, event@),
        ensures
            (final(self)@, r.messages@, r.action@) == reaction(
                event@,
                match found {
                    Some(messages) => Some(messages@),
                    None => None,
                },
            ),
    {
        let mut messages: Vec<M> = Vec::new();
        let action = match event {
            HandlerEvent::Received(Message::Text(text)) => {
                if is_pong(&text) {
                    HandlerAction::NotifyPong
                } else {
                    if let Some(found) = found {
                        messages = found;
                    }
                    HandlerAction::Wait
                }
            },
            HandlerEvent::Received(Message::Close) => self.finish(
                Err(Error::with_source(Kind::WebSocket, WsError::ConnectionClosed)),
            ),
            HandlerEvent::ReadFailed(error) => self.finish(
                Err(Error::with_source(Kind::WebSocket, WsError::Connection(error))),
            ),
            HandlerEvent::Received(Message::Other) => HandlerAction::Wait,
            HandlerEvent::Outgoing(Some(text)) => {
                self.phase = HandlerPhase::Writing;
                HandlerAction::Write(text)
            },
            HandlerEvent::Outgoing(None) => self.finish(Ok(())),
            HandlerEvent::PingRequested => {
                self.phase = HandlerPhase::Writing;
                HandlerAction::Write("PING".to_owned())
            },
            HandlerEvent::Exhausted => self.finish(Ok(())),
            HandlerEvent::Written { ok } => {
                if ok {
                    self.phase = HandlerPhase::Waiting;
                    HandlerAction::Wait
                } else {
                    self.finish(Ok(()))
                }
            },
        };
        Reaction { messages, action }
    }

    /// Has the parser look at the text that `event` brings, if it brings one, and decides
    /// what to do.
    pub fn handle<M, P: MessageParser<M>, E>(&mut self, parser: &P, event: HandlerEvent<E>) -> (r:
        Reaction<M, E>)
        requires
            expected(old(self)@, event@),
        ensures
            exists|found: Option<Seq<M>>| #[trigger]
                may_bring(parser, event@, found) && (final(self)@, r.messages@, r.action@)
                    == reaction(event@, found),
    {
        let found: Option<Vec<M>> = match text_for_parser(&event) {
            Some(text) => find_messages(parser, text),
            None => None,
        };
        assert(may_bring(
            parser,
            event@,
            match found {
                Some(messages) => Some(messages@),
                None => None,
            },
        ));
        self.react(event, found)
    }
}

} // verus!
