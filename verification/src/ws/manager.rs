//! The handle that users hold on a connection, and the task that runs it.

use crate::ws::channels::last_state;
use crate::ws::config::Config;
use crate::ws::credentials::WrittenOnce;
use crate::ws::error::RequestError;
use crate::ws::handler::{
    expected, may_bring, reaction, ActionView, ConnectionHandler, Happening, HandlerAction,
    HandlerEvent, HandlerPhase,
};
use crate::ws::outlets::{
    MessageOutlet, RequestChannel, RequestOutlet, StateChannel, StateOutlet,
};
use crate::ws::parser::MessageParser;
use crate::ws::reconnect::{
    published, ConnectionLoop, LoopEffect, LoopEvent, LoopStep, LoopWork,
};
use crate::ws::state::ConnectionState;
use std::marker::PhantomData;
use tokio::sync::{broadcast, mpsc, watch};
use vstd::prelude::*;

verus! {

/// How many incoming messages are kept for a subscriber that lags.
pub const BROADCAST_CAPACITY: usize = 1024;

/// Manages the lifecycle of a WebSocket connection: it is opened, opened again when it is
/// lost, checked by PING and PONG, and its messages, of type `M`, are broadcast to any
/// number of subscribers.
///
/// Requests are of type `T`, of which nothing is known here: the handle can pass a request
/// on, but cannot copy it, make one up or look into it.
#[verifier::reject_recursive_types(M)]
#[verifier::reject_recursive_types(T)]
pub struct ConnectionManager<M, P, T = String> where P: MessageParser<M> {
    state_tx: StateChannel<ConnectionState>,
    state_rx: watch::Receiver<ConnectionState>,
    sender_tx: RequestChannel<T>,
    broadcast_tx: broadcast::Sender<M>,
    parser: PhantomData<P>,
}

/// What the background task of a connection works with.
#[verifier::reject_recursive_types(M)]
#[verifier::reject_recursive_types(T)]
pub struct ConnectionTask<M, P, T = String> {
    pub endpoint: String,
    pub config: Config,
    /// The requests that are to go out.
    pub sender_rx: mpsc::UnboundedReceiver<T>,
    /// Where incoming messages go.
    pub broadcast_tx: MessageOutlet<M>,
    pub parser: P,
    /// Where the state of the connection is published.
    pub state_tx: StateOutlet<ConnectionState>,
}

/// What is left to do of a step of the connection loop: a receiver of the connection state
/// is kept for the heartbeat of the next connection, the backoff policy is set back if that
/// is asked for, and then the work is done.
#[derive(Debug)]
pub struct LoopOrder {
    pub state_rx: Option<watch::Receiver<ConnectionState>>,
    pub reset_backoff: bool,
    pub work: LoopWork,
}

impl<M, P, T> ConnectionTask<M, P, T> {
    /// Whether nobody holds the handle of the connection any more.
    pub fn is_closed(&self) -> (r: bool)
        ensures
            call_ensures(mpsc::UnboundedReceiver::<T>::is_closed, (&self.sender_rx,), r),
    {
        self.sender_rx.is_closed()
    }

    /// Publishes a state of the connection. It is lost if nobody looks at the state.
    pub fn publish(&mut self, state: ConnectionState)
        ensures
            final(self).state_tx@ == old(self).state_tx@.push(state),
            final(self).state_tx.subscriptions() == old(self).state_tx.subscriptions(),
            final(self).state_tx.channel() == old(self).state_tx.channel(),
            *final(self) == (ConnectionTask { state_tx: final(self).state_tx, ..*old(self) }),
            exists|outcome: Result<(), watch::error::SendError<ConnectionState>>|
                call_ensures(
                    watch::Sender::<ConnectionState>::send,
                    (&old(self).state_tx.channel(), state),
                    outcome,
                ),
    {
        let _ = self.state_tx.send(state);
    }

    /// Hands incoming messages to the subscribers, each once and in order. They are lost
    /// if there are no subscribers.
    pub fn hand_out(&mut self, messages: Vec<M>)
        ensures
            final(self).broadcast_tx@ == old(self).broadcast_tx@ + messages@,
            final(self).broadcast_tx.channel() == old(self).broadcast_tx.channel(),
            *final(self) == (ConnectionTask {
                broadcast_tx: final(self).broadcast_tx,
                ..*old(self)
            }),
            forall|i: int|
                0 <= i < messages@.len() ==> old(self).broadcast_tx.gave(#[trigger] messages@[i]),
    {
        for message in iter: messages
            invariant
                iter.seq() == messages@,
                self.broadcast_tx@ == old(self).broadcast_tx@ + messages@.take(iter.index()),
                self.broadcast_tx.channel() == old(self).broadcast_tx.channel(),
                *self == (ConnectionTask { broadcast_tx: self.broadcast_tx, ..*old(self) }),
                forall|i: int|
                    0 <= i < iter.index() ==> old(self).broadcast_tx.gave(#[trigger] messages@[i]),
        {
            let _ = self.broadcast_tx.send(message);
        }
    }

    /// Takes an event of the connection loop: takes the receiver that it asks for, then
    /// publishes the states that it decides on, and says what is left to do.
    pub fn advance(&mut self, connection: &mut ConnectionLoop, event: LoopEvent) -> (r: LoopOrder)
        requires
            old(connection)@.awaits(event),
        ensures
            ({
                let (state, effects, work) = old(connection)@.next(event);
                &&& final(connection)@ == state
                &&& final(self).state_tx@ == old(self).state_tx@ + published(effects)
                &&& r.state_rx is Some <==> effects.contains(LoopEffect::Subscribe)
                &&& r.reset_backoff <==> effects.contains(LoopEffect::ResetBackoff)
                &&& r.work == work
            }),
            r.state_rx matches Some(state_rx) ==> call_ensures(
                watch::Sender::<ConnectionState>::subscribe,
                (&old(self).state_tx.channel(),),
                state_rx,
            ),
            final(self).state_tx.subscriptions() == if r.state_rx is Some {
                old(self).state_tx.subscriptions().push(old(self).state_tx@.len())
            } else {
                old(self).state_tx.subscriptions()
            },
            final(self).state_tx.channel() == old(self).state_tx.channel(),
            *final(self) == (ConnectionTask { state_tx: final(self).state_tx, ..*old(self) }),
    {
        let LoopStep { effects, work } = connection.next(event);
        let ghost all = effects@;
        let mut state_rx: Option<watch::Receiver<ConnectionState>> = None;
        let mut reset_backoff = false;
        for effect in iter: effects
            invariant
                iter.seq() == all,
                forall|i: int| 0 < i < all.len() ==> !(#[trigger] all[i] is Subscribe),
                self.state_tx@ == old(self).state_tx@ + published(all.take(iter.index())),
                self.state_tx.subscriptions() == if state_rx is Some {
                    old(self).state_tx.subscriptions().push(old(self).state_tx@.len())
                } else {
                    old(self).state_tx.subscriptions()
                },
                self.state_tx.channel() == old(self).state_tx.channel(),
                *self == (ConnectionTask { state_tx: self.state_tx, ..*old(self) }),
                state_rx is Some <==> all.take(iter.index()).contains(LoopEffect::Subscribe),
                reset_backoff <==> all.take(iter.index()).contains(LoopEffect::ResetBackoff),
                state_rx matches Some(state_rx) ==> call_ensures(
                    watch::Sender::<ConnectionState>::subscribe,
                    (&old(self).state_tx.channel(),),
                    state_rx,
                ),
        {
            let ghost i = iter.index();
            proof {
                let one_more = all.take(i + 1);
                assert(one_more.drop_last() =~= all.take(i));
                assert(one_more =~= all.take(i).push(effect));
                assert forall|other: LoopEffect| one_more.contains(other) <==> all.take(i).contains(
                    other,
                ) || other == effect by {
                    if all.take(i).contains(other) {
                        let k = all.take(i).index_of(other);
                        assert(one_more[k] == other);
                    }
                    assert(one_more[i] == effect);
                }
            }
            match effect {
                LoopEffect::Subscribe => state_rx = Some(self.state_receiver()),
                LoopEffect::Publish(state) => self.publish(state),
                LoopEffect::ResetBackoff => reset_backoff = true,
            }
        }
        assert(all.take(all.len() as int) =~= all);
        LoopOrder { state_rx, reset_backoff, work }
    }

    /// Takes an event of the open connection: has the parser look at the text that it
    /// brings, if it brings one, hands out the messages that are found, and says what to
    /// do next.
    pub fn handle<E>(&mut self, handler: &mut ConnectionHandler, event: HandlerEvent<E>) -> (r:
        HandlerAction<E>) where P: MessageParser<M>
        requires
            expected(old(handler)@, event@),
        ensures
            exists|found: Option<Seq<M>>|
                {
                    &&& #[trigger] may_bring(&old(self).parser, event@, found)
                    &&& (final(handler)@, final(self).broadcast_tx@, r@) == handled_by_task(
                        old(self).broadcast_tx@,
                        (event@, found),
                    )
                },
            final(self).broadcast_tx.channel() == old(self).broadcast_tx.channel(),
            *final(self) == (ConnectionTask {
                broadcast_tx: final(self).broadcast_tx,
                ..*old(self)
            }),
            forall|i: int|
                old(self).broadcast_tx@.len() <= i < final(self).broadcast_tx@.len() ==> old(
                    self,
                ).broadcast_tx.gave(#[trigger] final(self).broadcast_tx@[i]),
    {
        let reaction = handler.handle(&self.parser, event);
        let ghost messages = reaction.messages@;
        self.hand_out(reaction.messages);
        proof {
            let before = old(self).broadcast_tx@;
            assert forall|i: int| before.len() <= i < self.broadcast_tx@.len() implies old(
                self,
            ).broadcast_tx.gave(#[trigger] self.broadcast_tx@[i]) by {
                assert(self.broadcast_tx@[i] == messages[i - before.len()]);
            }
        }
        reaction.action
    }

    /// Subscribes to the changes of the connection state.
    pub fn state_receiver(&mut self) -> (r: watch::Receiver<ConnectionState>)
        ensures
            final(self).state_tx@ == old(self).state_tx@,
            final(self).state_tx.subscriptions() == old(self).state_tx.subscriptions().push(
                old(self).state_tx@.len(),
            ),
            final(self).state_tx.channel() == old(self).state_tx.channel(),
            *final(self) == (ConnectionTask { state_tx: final(self).state_tx, ..*old(self) }),
            call_ensures(
                watch::Sender::<ConnectionState>::subscribe,
                (&old(self).state_tx.channel(),),
                r,
            ),
    {
        self.state_tx.subscribe()
    }
}

/// What the task does on an event, given what was handed out before and what the parser
/// finds in the text that the event brings, if it brings one: the phase of the handler that
/// follows, all that is handed out by then, and what to do next.
pub open spec fn handled_by_task<M, E>(handed_out: Seq<M>, happening: Happening<M, E>) -> (
    HandlerPhase,
    Seq<M>,
    ActionView<E>,
) {
    let (phase, messages, action) = reaction(happening.0, happening.1);
    (phase, handed_out + messages, action)
}

/// What became of a request, given whether the connection took it.
pub fn request_sent<S>(taken: Result<(), mpsc::error::SendError<String>>) -> (r: Result<
    (),
    RequestError<S>,
>)
    ensures
        r == sending_result::<S, String>(taken),
{
    answered(taken)
}

/// What became of a request of any type, given whether the connection took it.
fn answered<S, T>(taken: Result<(), mpsc::error::SendError<T>>) -> (r: Result<
    (),
    RequestError<S>,
>)
    ensures
        r == sending_result::<S, T>(taken),
{
    match taken {
        Ok(()) => Ok(()),
        Err(_) => Err(RequestError::ConnectionClosed),
    }
}

/// What became of a request, given whether the connection took it.
pub open spec fn sending_result<S, T>(taken: Result<(), mpsc::error::SendError<T>>) -> Result<
    (),
    RequestError<S>,
> {
    match taken {
        Ok(_) => Ok(()),
        Err(_) => Err(RequestError::ConnectionClosed),
    }
}

/// The requests that are to go out, given what came of writing one out.
pub open spec fn requests_in<S, T>(json: Result<T, S>) -> Seq<T> {
    match json {
        Ok(text) => seq![text],
        Err(_) => seq![],
    }
}

impl<M: Clone, P: MessageParser<M>, T> ConnectionManager<M, P, T> {
    /// Makes the handle of a connection, and what its background task works with. The
    /// state of the connection is `Disconnected` until the task publishes another.
    pub fn new(endpoint: String, config: Config, parser: P) -> (r: (Self, ConnectionTask<M, P, T>))
        ensures
            r.1.endpoint == endpoint,
            r.1.config == config,
            r.1.parser == parser,
            r.1.broadcast_tx.channel() == r.0.messages(),
            r.1.broadcast_tx@ == Seq::<M>::empty(),
            r.1.state_tx.channel() == r.0.states(),
            r.1.state_tx@ == Seq::<ConnectionState>::empty(),
            r.1.state_tx.subscriptions() == Seq::<nat>::empty(),
            call_ensures(
                mpsc::unbounded_channel::<T>,
                (),
                (r.0.requests(), r.1.sender_rx),
            ),
            exists|receiver: broadcast::Receiver<M>|
                call_ensures(
                    broadcast::channel::<M>,
                    (BROADCAST_CAPACITY,),
                    (r.0.messages(), receiver),
                ),
            exists|receiver: broadcast::Receiver<M>|
                call_ensures(broadcast::channel::<M>, (1024usize,), (r.0.messages(), receiver)),
            call_ensures(
                watch::channel::<ConnectionState>,
                (ConnectionState::Disconnected,),
                (r.0.states(), r.0.state_view()),
            ),
    {
        let (sender_tx, sender_rx) = RequestChannel::new();
        let messages = broadcast::channel(BROADCAST_CAPACITY);
        assert(call_ensures(broadcast::channel::<M>, (BROADCAST_CAPACITY,), messages));
        let (broadcast_tx, _) = messages;
        let (state_tx, state_rx, state_outlet) = StateChannel::new(ConnectionState::Disconnected);
        let task = ConnectionTask {
            endpoint,
            config,
            sender_rx,
            broadcast_tx: MessageOutlet::new(broadcast_tx.clone()),
            parser,
            state_tx: state_outlet,
        };
        let manager = ConnectionManager {
            state_tx,
            state_rx,
            sender_tx,
            broadcast_tx,
            parser: PhantomData,
        };
        (manager, task)
    }
}

impl<M, P: MessageParser<M>, T> ConnectionManager<M, P, T> {
    /// The channel of the requests that are to go out.
    pub closed spec fn requests(self) -> mpsc::UnboundedSender<T> {
        self.sender_tx.channel()
    }

    /// The channel of the incoming messages.
    pub closed spec fn messages(self) -> broadcast::Sender<M> {
        self.broadcast_tx
    }

    /// The channel of the connection state.
    pub closed spec fn states(self) -> watch::Sender<ConnectionState> {
        self.state_tx.channel()
    }

    /// The end of that channel at which [`ConnectionManager::state`] looks.
    pub closed spec fn state_view(self) -> watch::Receiver<ConnectionState> {
        self.state_rx
    }

    /// `state` is one that a look at the channel of the connection state may give.
    pub closed spec fn showed(self, state: ConnectionState) -> bool {
        call_ensures(last_state, (&self.state_rx,), state)
    }

    /// `result` is what became of handing in the request that `json` is, if it is one.
    pub open spec fn answers_request<S>(
        self,
        json: Result<T, S>,
        result: Result<(), RequestError<S>>,
    ) -> bool {
        match json {
            Ok(text) => exists|taken: Result<(), mpsc::error::SendError<T>>|
                #[trigger] call_ensures(
                    mpsc::UnboundedSender::<T>::send,
                    (&self.requests(), text),
                    taken,
                ) && result == sending_result::<S, T>(taken),
            Err(error) => result == Err::<(), _>(RequestError::Request(error)),
        }
    }

    /// A sending end of the channel of the requests took `texts`, and nothing else.
    pub open spec fn handed_in(self, texts: Seq<T>) -> bool {
        exists|outlet: RequestOutlet<T>| #[trigger]
            outlet.channel() == self.requests() && outlet@ == texts
    }

    /// Hands a request to the connection, given what came of writing it out as JSON.
    pub fn send<S>(&self, json: Result<T, S>) -> (r: Result<(), RequestError<S>>)
        ensures
            self.answers_request(json, r),
            self.handed_in(requests_in(json)),
    {
        let mut outlet = self.sender_tx.outlet();
        let r = match json {
            Ok(json) => answered(outlet.send(json)),
            Err(error) => Err(RequestError::Request(error)),
        };
        assert(outlet@ =~= requests_in(json));
        r
    }

    /// Has a request write itself out as JSON together with the credentials of the user, and
    /// hands it to the connection.
    pub fn send_authenticated<Q: WrittenOnce<C, T>, C>(&self, request: Q, credentials: &C) -> (r:
        Result<(), RequestError<Q::Error>>)
        ensures
            exists|json: Result<T, Q::Error>| #[trigger]
                request.writes(credentials, json) && self.answers_request(json, r)
                    && self.handed_in(requests_in(json)),
    {
        let json = request.write_out(credentials);
        self.send(json)
    }

    /// The state of the connection at this moment.
    #[must_use]
    pub fn state(&self) -> (r: ConnectionState)
        ensures
            self.showed(r),
    {
        last_state(&self.state_rx)
    }

    /// Subscribes to the incoming messages. Each call gives a receiver of its own, which
    /// gets all that arrives from now on.
    #[must_use]
    pub fn subscribe(&self) -> (r: broadcast::Receiver<M>)
        ensures
            call_ensures(broadcast::Sender::<M>::subscribe, (&self.messages(),), r),
    {
        self.broadcast_tx.subscribe()
    }

    /// Subscribes to the changes of the connection state.
    #[must_use]
    pub fn state_receiver(&self) -> (r: watch::Receiver<ConnectionState>)
        ensures
            call_ensures(
                watch::Sender::<ConnectionState>::subscribe,
                (&self.states(),),
                r,
            ),
    {
        self.state_tx.subscribe()
    }
}

impl<M, P: MessageParser<M>, T> Clone for ConnectionManager<M, P, T> {
    /// Another handle on the same connection.
    fn clone(&self) -> (r: Self)
        ensures
            r == *self,
    {
        ConnectionManager {
            state_tx: self.state_tx.clone(),
            state_rx: self.state_rx.clone(),
            sender_tx: self.sender_tx.clone(),
            broadcast_tx: self.broadcast_tx.clone(),
            parser: PhantomData,
        }
    }
}

/// The state that a handle shows is one that a look at its channel gave, unaltered.
pub(crate) proof fn law_the_state_is_what_a_look_gave<M, P: MessageParser<M>, T>(
    manager: ConnectionManager<M, P, T>,
    state: ConnectionState,
)
    ensures
        manager.showed(state) <==> call_ensures(last_state, (&manager.state_view(),), state),
{
}

} // verus!
