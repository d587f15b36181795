//! The ends of the channels of a connection that things are sent through. An outlet
//! remembers, for the contracts, what went through it.
//!
//! All of it is written for any type of thing, so nothing here can copy a thing, make one up
//! or look into it: what is given away can be sent once, and nothing else can be sent.

use tokio::sync::{broadcast, mpsc, watch};
use vstd::prelude::*;

verus! {

/// Where incoming messages go. The view is what was handed out here, in order.
#[verifier::reject_recursive_types(M)]
pub struct MessageOutlet<M> {
    channel: broadcast::Sender<M>,
    handed_out: Ghost<Seq<M>>,
}

impl<M> View for MessageOutlet<M> {
    type V = Seq<M>;

    closed spec fn view(&self) -> Seq<M> {
        self.handed_out@
    }
}

impl<M> MessageOutlet<M> {
    /// The channel behind the outlet.
    pub closed spec fn channel(self) -> broadcast::Sender<M> {
        self.channel
    }

    /// `message` was handed to the subscribers that there were.
    pub open spec fn gave(self, message: M) -> bool {
        exists|outcome: Result<usize, broadcast::error::SendError<M>>|
            call_ensures(broadcast::Sender::<M>::send, (&self.channel(), message), outcome)
    }

    pub(crate) fn new(channel: broadcast::Sender<M>) -> (r: Self)
        ensures
            r@ == Seq::<M>::empty(),
            r.channel() == channel,
    {
        MessageOutlet { channel, handed_out: Ghost(Seq::empty()) }
    }

    /// Hands one message to the subscribers, and tells how many there were, if any.
    pub fn send(&mut self, message: M) -> (r: Result<usize, broadcast::error::SendError<M>>)
        ensures
            final(self)@ == old(self)@.push(message),
            final(self).channel() == old(self).channel(),
            call_ensures(broadcast::Sender::<M>::send, (&old(self).channel(), message), r),
    {
        self.handed_out = Ghost(self.handed_out@.push(message));
        self.channel.send(message)
    }
}

/// The channel of the requests that are to go out, as those who make requests hold it.
#[verifier::reject_recursive_types(T)]
pub struct RequestChannel<T> {
    channel: mpsc::UnboundedSender<T>,
}

impl<T> RequestChannel<T> {
    /// The channel itself.
    pub closed spec fn channel(self) -> mpsc::UnboundedSender<T> {
        self.channel
    }

    /// Makes a channel, with the end that requests arrive at.
    pub(crate) fn new() -> (r: (Self, mpsc::UnboundedReceiver<T>))
        ensures
            call_ensures(mpsc::unbounded_channel::<T>, (), (r.0.channel(), r.1)),
    {
        let ends = mpsc::unbounded_channel();
        assert(call_ensures(mpsc::unbounded_channel::<T>, (), ends));
        let (channel, receiver) = ends;
        (RequestChannel { channel }, receiver)
    }

    /// A sending end through which nothing has gone yet.
    pub(crate) fn outlet(&self) -> (r: RequestOutlet<T>)
        ensures
            r@ == Seq::<T>::empty(),
            r.channel() == self.channel(),
    {
        RequestOutlet { channel: self.channel.clone(), handed_in: Ghost(Seq::empty()) }
    }
}

impl<T> Clone for RequestChannel<T> {
    fn clone(&self) -> (r: Self)
        ensures
            r == *self,
    {
        RequestChannel { channel: self.channel.clone() }
    }
}

/// A sending end of the channel of the requests. The view is what was handed in here, in
/// order.
#[verifier::reject_recursive_types(T)]
pub struct RequestOutlet<T> {
    channel: mpsc::UnboundedSender<T>,
    handed_in: Ghost<Seq<T>>,
}

impl<T> View for RequestOutlet<T> {
    type V = Seq<T>;

    closed spec fn view(&self) -> Seq<T> {
        self.handed_in@
    }
}

impl<T> RequestOutlet<T> {
    /// The channel behind the outlet.
    pub closed spec fn channel(self) -> mpsc::UnboundedSender<T> {
        self.channel
    }

    /// Hands in one request, and tells whether it was taken.
    pub fn send(&mut self, request: T) -> (r: Result<(), mpsc::error::SendError<T>>)
        ensures
            final(self)@ == old(self)@.push(request),
            final(self).channel() == old(self).channel(),
            call_ensures(mpsc::UnboundedSender::<T>::send, (&old(self).channel(), request), r),
    {
        self.handed_in = Ghost(self.handed_in@.push(request));
        self.channel.send(request)
    }
}

/// The channel of the state of the connection, of type `T`, as those who look at the state
/// hold it.
#[verifier::reject_recursive_types(T)]
pub struct StateChannel<T> {
    channel: watch::Sender<T>,
}

impl<T> StateChannel<T> {
    /// The channel itself.
    pub closed spec fn channel(self) -> watch::Sender<T> {
        self.channel
    }

    /// Makes a channel that holds `init`, with an end to look at it and the end to publish at.
    pub(crate) fn new(init: T) -> (r: (Self, watch::Receiver<T>, StateOutlet<T>))
        ensures
            call_ensures(watch::channel::<T>, (init,), (r.0.channel(), r.1)),
            r.2@ == Seq::<T>::empty(),
            r.2.subscriptions() == Seq::<nat>::empty(),
            r.2.channel() == r.0.channel(),
    {
        let ends = watch::channel(init);
        assert(call_ensures(watch::channel::<T>, (init,), ends));
        let (channel, receiver) = ends;
        let outlet = StateOutlet::new(channel.clone());
        (StateChannel { channel }, receiver, outlet)
    }

    /// Subscribes to the changes of the state.
    pub fn subscribe(&self) -> (r: watch::Receiver<T>)
        ensures
            call_ensures(watch::Sender::<T>::subscribe, (&self.channel(),), r),
    {
        self.channel.subscribe()
    }
}

impl<T> Clone for StateChannel<T> {
    fn clone(&self) -> (r: Self)
        ensures
            r == *self,
    {
        StateChannel { channel: self.channel.clone() }
    }
}

/// Where the state of the connection, of type `T`, is published. The view is what was
/// published here, in order.
#[verifier::reject_recursive_types(T)]
pub struct StateOutlet<T> {
    channel: watch::Sender<T>,
    published: Ghost<Seq<T>>,
    subscriptions: Ghost<Seq<nat>>,
}

impl<T> View for StateOutlet<T> {
    type V = Seq<T>;

    closed spec fn view(&self) -> Seq<T> {
        self.published@
    }
}

impl<T> StateOutlet<T> {
    /// The channel behind the outlet.
    pub closed spec fn channel(self) -> watch::Sender<T> {
        self.channel
    }

    /// The subscriptions that were made here, in order: for each, how many states had been
    /// published before it.
    pub closed spec fn subscriptions(self) -> Seq<nat> {
        self.subscriptions@
    }

    fn new(channel: watch::Sender<T>) -> (r: Self)
        ensures
            r@ == Seq::<T>::empty(),
            r.subscriptions() == Seq::<nat>::empty(),
            r.channel() == channel,
    {
        StateOutlet {
            channel,
            published: Ghost(Seq::empty()),
            subscriptions: Ghost(Seq::empty()),
        }
    }

    /// Publishes one state, and tells whether anybody could look at it.
    pub fn send(&mut self, state: T) -> (r: Result<(), watch::error::SendError<T>>)
        ensures
            final(self)@ == old(self)@.push(state),
            final(self).subscriptions() == old(self).subscriptions(),
            final(self).channel() == old(self).channel(),
            call_ensures(watch::Sender::<T>::send, (&old(self).channel(), state), r),
    {
        self.published = Ghost(self.published@.push(state));
        self.channel.send(state)
    }

    /// Subscribes to the changes of the state.
    pub fn subscribe(&mut self) -> (r: watch::Receiver<T>)
        ensures
            final(self)@ == old(self)@,
            final(self).subscriptions() == old(self).subscriptions().push(old(self)@.len()),
            final(self).channel() == old(self).channel(),
            call_ensures(watch::Sender::<T>::subscribe, (&old(self).channel(),), r),
    {
        self.subscriptions = Ghost(self.subscriptions@.push(self.published@.len()));
        self.channel.subscribe()
    }
}

} // verus!
