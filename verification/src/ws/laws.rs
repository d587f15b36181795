//! What holds of a connection over its whole life.

use crate::ws::config::ReconnectConfig;
use crate::ws::connect::{tunnel_target, UrlParts};
use crate::ws::credentials::{WithCredentials, WrittenOnce};
use crate::ws::error::{Error, Kind, RequestError, WsError};
use crate::ws::handler::{
    expected, may_bring, reaction, waiting, ActionView, EventView, HandlerAction, HandlerEvent,
    HandlerPhase, Happening, Message,
};
use crate::ws::heartbeat::{beat, outcome_of, HeartbeatEvent, HeartbeatWork};
use crate::ws::manager::{handled_by_task, requests_in, sending_result, ConnectionManager};
use crate::ws::outlets::RequestOutlet;
use crate::ws::parser::{messages, MessageParser};
use crate::ws::reconnect::{
    initial_loop, published, LoopEffect, LoopEvent, LoopPhase, LoopState, LoopWork,
};
use crate::ws::state::ConnectionState;
use std::time::{Duration, Instant};
use tokio::sync::mpsc;
use vstd::prelude::*;

verus! {

// ---- The connection loop ----

/// The loop after `events`.
pub open spec fn after(start: LoopState, events: Seq<LoopEvent>) -> LoopState
    decreases events.len(),
{
    if events.len() == 0 {
        start
    } else {
        after(start, events.drop_last()).next(events.last()).0
    }
}

/// Each of `events` is one that the loop waits for when it comes.
pub open spec fn possible(start: LoopState, events: Seq<LoopEvent>) -> bool
    decreases events.len(),
{
    events.len() == 0 || {
        &&& possible(start, events.drop_last())
        &&& after(start, events.drop_last()).awaits(events.last())
    }
}

/// All the states that the loop publishes during `events`, in order.
pub open spec fn published_during(start: LoopState, events: Seq<LoopEvent>) -> Seq<ConnectionState>
    decreases events.len(),
{
    if events.len() == 0 {
        seq![]
    } else {
        published_during(start, events.drop_last()) + published(
            after(start, events.drop_last()).next(events.last()).1,
        )
    }
}

/// The connection state that is shown when `states` have been published: the last one, and
/// `Disconnected` before the first.
pub open spec fn shown(states: Seq<ConnectionState>) -> ConnectionState {
    if states.len() == 0 {
        ConnectionState::Disconnected
    } else {
        states.last()
    }
}

/// `states[i]` is what a task has published when the first `i` of `events` have come.
pub open spec fn task_publishes(
    states: Seq<Seq<ConnectionState>>,
    start: LoopState,
    events: Seq<LoopEvent>,
) -> bool {
    &&& states.len() == events.len() + 1
    &&& forall|i: int|
        0 <= i < events.len() ==> states[i + 1] == states[i] + published(
            after(start, events.take(i)).next(#[trigger] events[i]).1,
        )
}

/// The count of failed attempts stays below the limit while the loop runs, and is zero
/// while there is a connection.
pub open spec fn within_limit(state: LoopState) -> bool {
    &&& state.phase is Connected ==> state.attempt == 0
    &&& !(state.phase is Stopped) && state.attempt > 0 && state.max_attempts is Some
        ==> state.attempt < state.max_attempts->0
}

/// `state` is what users are shown of the loop `state_of`.
pub open spec fn tells(state: ConnectionState, state_of: LoopState) -> bool {
    match state_of.phase {
        LoopPhase::Checking => state is Disconnected || state == (ConnectionState::Reconnecting {
            attempt: state_of.attempt,
        }),
        LoopPhase::Connecting => state is Connecting,
        LoopPhase::Connected => state is Connected,
        LoopPhase::BackingOff | LoopPhase::Sleeping => state == (ConnectionState::Reconnecting {
            attempt: state_of.attempt,
        }),
        LoopPhase::Stopped => state is Disconnected,
    }
}

/// After any events, fewer attempts in a row have failed than are allowed, unless the loop
/// has stopped.
pub proof fn law_attempts_stay_within_the_limit(config: ReconnectConfig, events: Seq<LoopEvent>)
    requires
        possible(initial_loop(config), events),
    ensures
        within_limit(after(initial_loop(config), events)),
        after(initial_loop(config), events).max_attempts == config.max_attempts,
    decreases events.len(),
{
    if events.len() > 0 {
        law_attempts_stay_within_the_limit(config, events.drop_last());
    }
}

/// After any events, the state that is shown tells what the loop is doing: that it
/// attempts to connect, that it is connected, how many attempts have failed, or that it
/// has ended.
pub proof fn law_shown_state_is_true(config: ReconnectConfig, events: Seq<LoopEvent>)
    requires
        possible(initial_loop(config), events),
    ensures
        tells(
            shown(published_during(initial_loop(config), events)),
            after(initial_loop(config), events),
        ),
    decreases events.len(),
{
    if events.len() > 0 {
        let before = events.drop_last();
        law_shown_state_is_true(config, before);
        let effects = after(initial_loop(config), before).next(events.last()).1;
        reveal_with_fuel(published, 2);
        if effects.len() > 0 {
            assert(effects.last() is Publish);
        } else {
            assert(published_during(initial_loop(config), events) =~= published_during(
                initial_loop(config),
                before,
            ));
        }
    }
}

/// What a task sends to the channel of the connection state is what the loop publishes:
/// all of it, each state once, in order, and nothing else.
pub proof fn law_the_channel_gets_what_the_loop_publishes(
    states: Seq<Seq<ConnectionState>>,
    start: LoopState,
    events: Seq<LoopEvent>,
)
    requires
        task_publishes(states, start, events),
    ensures
        states.last() == states[0] + published_during(start, events),
    decreases events.len(),
{
    if events.len() == 0 {
        assert(states[0] + published_during(start, events) =~= states[0]);
    } else {
        let n = events.len() - 1;
        let before = events.drop_last();
        assert forall|i: int| 0 <= i < before.len() implies states.drop_last()[i + 1]
            == states.drop_last()[i] + published(
            after(start, before.take(i)).next(#[trigger] before[i]).1,
        ) by {
            assert(before.take(i) =~= events.take(i));
            assert(before[i] == events[i]);
        }
        law_the_channel_gets_what_the_loop_publishes(states.drop_last(), start, before);
        assert(events.take(n) =~= before);
        assert(states[n + 1] == states[n] + published(
            after(start, before).next(events[n]).1,
        ));
        assert(states[0] + published_during(start, events) =~= states[n] + published(
            after(start, before).next(events[n]).1,
        ));
    }
}

/// The loop ends only when nobody wants the connection any more, or when an attempt or a
/// connection is over and the limit on failed attempts is reached. It then publishes
/// `Disconnected`, which it does at no other time, and waits for nothing.
pub proof fn law_why_the_loop_ends(state: LoopState, event: LoopEvent, later: LoopEvent)
    requires
        state.awaits(event),
    ensures
        ({
            let (following, effects, work) = state.next(event);
            &&& work is Stop <==> {
                ||| event == (LoopEvent::Checked { closed: true })
                ||| event is Failed && state.counted().exhausted()
                ||| event is Ended && state.exhausted()
            }
            &&& work is Stop <==> following.phase is Stopped
            &&& work is Stop <==> effects.contains(
                LoopEffect::Publish(ConnectionState::Disconnected),
            )
            &&& work is Stop ==> !following.awaits(later)
        }),
{
    let effects = state.next(event).1;
    if state.next(event).2 is Stop {
        assert(effects[0] == LoopEffect::Publish(ConnectionState::Disconnected));
    }
}

/// Without a limit the loop ends only when nobody wants the connection any more.
pub proof fn law_unlimited_loop_keeps_trying(state: LoopState, event: LoopEvent)
    requires
        state.awaits(event),
        state.max_attempts is None,
    ensures
        state.next(event).2 is Stop <==> event == (LoopEvent::Checked { closed: true }),
{
}

/// A connection that is opened sets the count of failed attempts and the backoff policy
/// back. Nothing else sets the policy back.
pub proof fn law_success_starts_afresh(state: LoopState, event: LoopEvent)
    requires
        state.awaits(event),
    ensures
        event is Opened ==> state.next(event).0.attempt == 0,
        event is Opened <==> state.next(event).1.contains(LoopEffect::ResetBackoff),
{
    if event is Opened {
        assert(state.next(event).1[0] == LoopEffect::ResetBackoff);
    }
}

/// How many attempts failed after the last of `events` that opened a connection.
pub open spec fn failures_in_a_row(events: Seq<LoopEvent>) -> nat
    decreases events.len(),
{
    if events.len() == 0 {
        0
    } else {
        match events.last() {
            LoopEvent::Opened { .. } => 0,
            LoopEvent::Failed => failures_in_a_row(events.drop_last()) + 1,
            _ => failures_in_a_row(events.drop_last()),
        }
    }
}

/// After any events, the loop has counted the attempts that failed since a connection was
/// last opened, as far as a `u32` goes.
pub proof fn law_attempt_is_the_failures_in_a_row(config: ReconnectConfig, events: Seq<LoopEvent>)
    requires
        possible(initial_loop(config), events),
    ensures
        after(initial_loop(config), events).attempt == if failures_in_a_row(events) <= u32::MAX {
            failures_in_a_row(events)
        } else {
            u32::MAX as nat
        },
    decreases events.len(),
{
    if events.len() > 0 {
        law_attempt_is_the_failures_in_a_row(config, events.drop_last());
    }
}

/// A round in which the attempt to connect fails and the loop goes on, with the answer of
/// the backoff policy.
pub open spec fn failed_round(delay: Option<Duration>) -> Seq<LoopEvent> {
    let attempt = seq![
        LoopEvent::Checked { closed: false },
        LoopEvent::Failed,
        LoopEvent::Delay(delay),
    ];
    if delay is Some {
        attempt.push(LoopEvent::Slept)
    } else {
        attempt
    }
}

/// Failed rounds, one for each answer of the backoff policy.
pub open spec fn failed_rounds(delays: Seq<Option<Duration>>) -> Seq<LoopEvent>
    decreases delays.len(),
{
    if delays.len() == 0 {
        seq![]
    } else {
        failed_rounds(delays.drop_last()) + failed_round(delays.last())
    }
}

/// Events one after the other act as their parts do.
proof fn lemma_after_all(start: LoopState, first: Seq<LoopEvent>, second: Seq<LoopEvent>)
    ensures
        after(start, first + second) == after(after(start, first), second),
        possible(start, first + second) <==> possible(start, first) && possible(
            after(start, first),
            second,
        ),
    decreases second.len(),
{
    if second.len() == 0 {
        assert(first + second =~= first);
    } else {
        assert((first + second).drop_last() =~= first + second.drop_last());
        lemma_after_all(start, first, second.drop_last());
    }
}

/// One failed round, where the limit allows another attempt.
proof fn lemma_failed_round(state: LoopState, delay: Option<Duration>)
    requires
        state.phase is Checking,
        !state.counted().exhausted(),
    ensures
        possible(state, failed_round(delay)),
        after(state, failed_round(delay)) == state.counted(),
{
    let round = failed_round(delay);
    let checked = seq![LoopEvent::Checked { closed: false }];
    let failed = checked.push(LoopEvent::Failed);
    let delayed = failed.push(LoopEvent::Delay(delay));
    assert(checked.drop_last() =~= Seq::empty());
    assert(failed.drop_last() =~= checked);
    assert(delayed.drop_last() =~= failed);
    reveal_with_fuel(after, 2);
    reveal_with_fuel(possible, 2);
    assert(after(state, checked) == state.in_phase(LoopPhase::Connecting));
    assert(possible(state, checked));
    assert(after(state, failed) == state.counted().in_phase(LoopPhase::BackingOff));
    assert(possible(state, failed));
    assert(possible(state, delayed));
    if delay is Some {
        assert(round.drop_last() =~= delayed);
        assert(after(state, delayed) == state.counted().in_phase(LoopPhase::Sleeping));
    } else {
        assert(round =~= delayed);
    }
}

/// After `n` failed rounds, fewer than are allowed, the loop is about to try again and has
/// counted `n` failures.
pub proof fn law_failures_are_counted(config: ReconnectConfig, delays: Seq<Option<Duration>>)
    requires
        delays.len() <= u32::MAX,
        config.max_attempts matches Some(max) ==> delays.len() < max || delays.len() == 0,
    ensures
        possible(initial_loop(config), failed_rounds(delays)),
        after(initial_loop(config), failed_rounds(delays)) == initial_loop(config).with_attempt(
            delays.len() as u32,
        ),
    decreases delays.len(),
{
    if delays.len() > 0 {
        let before = failed_rounds(delays.drop_last());
        law_failures_are_counted(config, delays.drop_last());
        let state = after(initial_loop(config), before);
        lemma_failed_round(state, delays.last());
        lemma_after_all(initial_loop(config), before, failed_round(delays.last()));
    }
}

/// If `max` attempts are allowed to fail, the loop ends, and shows it, right after the
/// one that is number `max` in a row. (With a limit of zero that is the first.)
pub proof fn law_the_last_failure_ends_the_loop(
    config: ReconnectConfig,
    delays: Seq<Option<Duration>>,
)
    requires
        config.max_attempts is Some,
        delays.len() + 1 == config.max_attempts->0 || delays.len() == 0
            && config.max_attempts->0 == 0,
    ensures
        ({
            let last = seq![LoopEvent::Checked { closed: false }, LoopEvent::Failed];
            let events = failed_rounds(delays) + last;
            &&& possible(initial_loop(config), events)
            &&& after(initial_loop(config), events).phase is Stopped
            &&& shown(published_during(initial_loop(config), events)) is Disconnected
        }),
{
    let start = initial_loop(config);
    let before = failed_rounds(delays);
    let checked = seq![LoopEvent::Checked { closed: false }];
    let last = checked.push(LoopEvent::Failed);
    assert(last =~= seq![LoopEvent::Checked { closed: false }, LoopEvent::Failed]);
    law_failures_are_counted(config, delays);
    let state = after(start, before);
    assert(checked.drop_last() =~= Seq::empty());
    assert(last.drop_last() =~= checked);
    reveal_with_fuel(after, 3);
    reveal_with_fuel(possible, 3);
    assert(possible(state, last));
    lemma_after_all(start, before, last);
    law_shown_state_is_true(config, before + last);
}

/// A connection that was lost is opened again unless the limit on failed attempts is zero:
/// the count of failed attempts does not carry over from before it was opened.
pub proof fn law_lost_connection_is_opened_again(state: LoopState, since: Instant)
    requires
        state.phase is Connecting,
    ensures
        ({
            let (connected, _, _) = state.next(LoopEvent::Opened { since });
            let (lost, effects, work) = connected.next(LoopEvent::Ended);
            &&& connected.awaits(LoopEvent::Ended)
            &&& work is Backoff <==> state.max_attempts != Some(0u32)
            &&& work is Backoff ==> effects == seq![
                LoopEffect::Publish(ConnectionState::Reconnecting { attempt: 0 }),
            ]
        }),
{
}

/// Before the first event no attempt has failed, the limit is that of the configuration, and
/// the loop is to check whether anybody wants the connection.
pub proof fn law_how_the_loop_begins(config: ReconnectConfig)
    ensures
        initial_loop(config).max_attempts == config.max_attempts,
        initial_loop(config).attempt == 0,
        initial_loop(config).phase is Checking,
{
}

/// In each phase the loop waits for the outcome of the work that led to it, and for nothing
/// else.
pub proof fn law_what_the_loop_waits_for(state: LoopState, event: LoopEvent)
    ensures
        state.awaits(event) <==> {
            ||| state.phase is Checking && event is Checked
            ||| state.phase is Connecting && (event is Opened || event is Failed)
            ||| state.phase is Connected && event is Ended
            ||| state.phase is BackingOff && event is Delay
            ||| state.phase is Sleeping && event is Slept
        },
{
}

/// The work that the loop gives is the one whose outcome it then waits for, and the limit
/// stays what it was.
pub proof fn law_work_and_phase_agree(state: LoopState, event: LoopEvent)
    requires
        state.awaits(event),
    ensures
        ({
            let (following, _, work) = state.next(event);
            &&& work is Check <==> following.phase is Checking
            &&& work is Connect <==> following.phase is Connecting
            &&& work is Handle <==> following.phase is Connected
            &&& work is Backoff <==> following.phase is BackingOff
            &&& work is Sleep <==> following.phase is Sleeping
            &&& work is Stop <==> following.phase is Stopped
            &&& following.max_attempts == state.max_attempts
        }),
{
}

/// A check of the request channel ends the loop if the channel is closed. If not, the loop
/// takes a receiver of the connection state, publishes `Connecting`, and attempts to connect;
/// nothing else makes it do so.
pub proof fn law_a_check_leads_to_an_attempt(state: LoopState, event: LoopEvent)
    requires
        state.awaits(event),
    ensures
        event == (LoopEvent::Checked { closed: false }) <==> state.next(event).2 is Connect,
        event == (LoopEvent::Checked { closed: true }) ==> {
            &&& state.next(event).2 is Stop
            &&& state.next(event).1 == seq![LoopEffect::Publish(ConnectionState::Disconnected)]
        },
        event == (LoopEvent::Checked { closed: false }) ==> state.next(event).1 == seq![
            LoopEffect::Subscribe,
            LoopEffect::Publish(ConnectionState::Connecting),
        ],
        event is Checked ==> state.next(event).0.attempt == state.attempt,
{
}

/// When an attempt succeeds the loop sets the backoff policy back, publishes since when there
/// is a connection, and handles it.
pub proof fn law_an_open_connection_is_handled(state: LoopState, event: LoopEvent)
    requires
        state.awaits(event),
    ensures
        event is Opened <==> state.next(event).2 is Handle,
        event matches LoopEvent::Opened { since } ==> {
            &&& state.next(event).0.attempt == 0
            &&& state.next(event).1 == seq![
                LoopEffect::ResetBackoff,
                LoopEffect::Publish(ConnectionState::Connected { since }),
            ]
        },
{
}

/// A failed attempt counts for one more, as far as a `u32` goes. An attempt or a connection
/// that is over ends the loop if as many attempts have failed as are allowed; if not, the loop
/// publishes how many have failed, and asks the backoff policy how long to wait.
pub proof fn law_what_follows_a_failure_or_a_loss(state: LoopState, event: LoopEvent)
    requires
        state.awaits(event),
        event is Failed || event is Ended,
    ensures
        ({
            let failed: int = if event is Ended {
                state.attempt as int
            } else if state.attempt == u32::MAX {
                u32::MAX as int
            } else {
                state.attempt + 1
            };
            let (following, effects, work) = state.next(event);
            let over = state.max_attempts is Some && failed >= state.max_attempts->0;
            &&& following.attempt == failed
            &&& over ==> work is Stop && effects == seq![
                LoopEffect::Publish(ConnectionState::Disconnected),
            ]
            &&& !over ==> work is Backoff && effects == seq![
                LoopEffect::Publish(ConnectionState::Reconnecting { attempt: failed as u32 }),
            ]
        }),
{
}

/// Whatever the count of failed attempts, a delay of the backoff policy is slept: the loop
/// sleeps for that very time, publishes nothing meanwhile, and waits for nothing but the end
/// of the delay, after which it checks whether to connect again.
pub proof fn law_every_delay_is_slept(state: LoopState, delay: Duration, later: LoopEvent)
    requires
        state.phase is BackingOff,
    ensures
        ({
            let event = LoopEvent::Delay(Some(delay));
            let (sleeping, effects, work) = state.next(event);
            &&& state.awaits(event)
            &&& work == LoopWork::Sleep(delay)
            &&& effects.len() == 0
            &&& sleeping.phase is Sleeping
            &&& sleeping.attempt == state.attempt
            &&& sleeping.max_attempts == state.max_attempts
            &&& sleeping.awaits(later) <==> later is Slept
            &&& sleeping.next(LoopEvent::Slept).2 is Check
        }),
{
}

/// The loop sleeps only for a delay of the backoff policy, and no longer or shorter than that.
pub proof fn law_only_delays_are_slept(state: LoopState, event: LoopEvent, delay: Duration)
    requires
        state.awaits(event),
    ensures
        state.next(event).2 == LoopWork::Sleep(delay) <==> event == LoopEvent::Delay(Some(delay)),
{
}

/// When the delay is over, and when the policy gives none, the loop checks at once whether to
/// connect again; it publishes nothing, and keeps its count of failed attempts.
pub proof fn law_after_the_delay_comes_a_check(state: LoopState, event: LoopEvent)
    requires
        state.awaits(event),
        event is Slept || event == LoopEvent::Delay(None),
    ensures
        state.next(event).2 is Check,
        state.next(event).1.len() == 0,
        state.next(event).0.attempt == state.attempt,
{
}

/// In every run of the loop, between a delay that the policy gives and the next attempt to
/// connect, the delay is slept to its end: no event but its end can follow it.
pub proof fn law_no_attempt_before_the_delay_is_over(
    start: LoopState,
    events: Seq<LoopEvent>,
    i: int,
)
    requires
        possible(start, events),
        0 <= i < events.len() - 1,
        events[i] is Delay,
        events[i]->Delay_0 is Some,
    ensures
        events[i + 1] is Slept,
        after(start, events.take(i)).next(events[i]).2 == LoopWork::Sleep(events[i]->Delay_0->0),
        !(after(start, events.take(i + 1)).next(events[i + 1]).2 is Connect),
    decreases events.len(),
{
    if i < events.len() - 2 {
        law_no_attempt_before_the_delay_is_over(start, events.drop_last(), i);
        assert(events.drop_last().take(i) =~= events.take(i));
        assert(events.drop_last().take(i + 1) =~= events.take(i + 1));
    } else {
        let before = events.drop_last();
        assert(before.last() == events[i]);
        assert(before.drop_last() =~= events.take(i));
        assert(before =~= events.take(i + 1));
        assert(possible(start, before));
    }
}

/// What effects publish is the state of each publishing one among them, once and in order.
pub proof fn law_effects_publish_in_order(effects: Seq<LoopEffect>, last: LoopEffect)
    ensures
        published(Seq::<LoopEffect>::empty()).len() == 0,
        last matches LoopEffect::Publish(state) ==> published(effects.push(last)) == published(
            effects,
        ).push(state),
        !(last is Publish) ==> published(effects.push(last)) == published(effects),
{
    assert(effects.push(last).drop_last() =~= effects);
}

// ---- The handler of an open connection ----

/// An event is seen as what it is, with the text that it brings in full.
pub proof fn law_events_are_seen_as_they_are<E>(text: String, error: E, ok: bool)
    ensures
        HandlerEvent::<E>::Received(Message::Text(text))@ == EventView::<E>::Text(text@),
        HandlerEvent::<E>::Received(Message::Close)@ is Close,
        HandlerEvent::<E>::Received(Message::Other)@ is Other,
        HandlerEvent::ReadFailed(error)@ == EventView::ReadFailed(error),
        HandlerEvent::<E>::Outgoing(Some(text))@ == EventView::<E>::Outgoing(Some(text@)),
        HandlerEvent::<E>::Outgoing(None)@ == EventView::<E>::Outgoing(None),
        HandlerEvent::<E>::PingRequested@ is PingRequested,
        HandlerEvent::<E>::Exhausted@ is Exhausted,
        (HandlerEvent::<E>::Written { ok })@ == (EventView::<E>::Written { ok }),
{
}

/// An action is seen as what it is, with the text that it writes in full.
pub proof fn law_actions_are_seen_as_they_are<E>(text: String, result: Result<(), Error<E>>)
    ensures
        HandlerAction::<E>::Wait@ is Wait,
        HandlerAction::<E>::NotifyPong@ is NotifyPong,
        HandlerAction::<E>::Write(text)@ == ActionView::<E>::Write(text@),
        HandlerAction::Finish(result)@ == ActionView::Finish(result),
{
}

/// While the handler waits for something to happen it takes anything but the end of a write,
/// while it writes only the end of the write, and after the end nothing.
pub proof fn law_what_the_handler_waits_for<E>(phase: HandlerPhase, event: EventView<E>)
    ensures
        expected(phase, event) <==> {
            ||| phase is Waiting && !(event is Written)
            ||| phase is Writing && event is Written
        },
{
}

/// Every text but `PONG` is one for the parser, and nothing else is.
pub proof fn law_every_text_but_pong_is_for_the_parser<E>(event: EventView<E>, text: Seq<char>)
    ensures
        EventView::<E>::Text(text).brings_text() <==> text != "PONG"@,
        !(event is Text) ==> !event.brings_text(),
{
}

/// What a parser may find in a text is what some parse of the whole text, in UTF-8, gave: all
/// the messages of that parse, in order, or nothing if it failed.
pub proof fn law_what_is_found_is_what_was_parsed<M, P: MessageParser<M>, E>(
    parser: &P,
    event: EventView<E>,
    found: Option<Seq<M>>,
)
    requires
        may_bring(parser, event, found),
    ensures
        event.brings_text() ==> exists|bytes: &[u8], result: Result<Vec<M>, P::Error>|
            {
                &&& bytes@ == vstd::utf8::encode_utf8(event->Text_0)
                &&& #[trigger] call_ensures(P::parse, (parser, bytes), result)
                &&& result is Ok ==> found == Some(result->Ok_0@)
                &&& result is Err ==> found is None
            },
        !event.brings_text() ==> found is None,
{
    if event.brings_text() {
        let (bytes, result) = choose|bytes: &[u8], result: Result<Vec<M>, P::Error>|
            {
                &&& bytes@ == vstd::utf8::encode_utf8(event->Text_0)
                &&& #[trigger] call_ensures(P::parse, (parser, bytes), result)
                &&& messages(result) == found
            };
        assert(call_ensures(P::parse, (parser, bytes), result));
    }
}

/// A text in which the parser finds messages has them handed out, all of them and in order,
/// and the handler waits on.
pub proof fn law_what_is_found_is_handed_out<M, E>(text: Seq<char>, found: Seq<M>)
    requires
        text != "PONG"@,
    ensures
        reaction(EventView::<E>::Text(text), Some(found)).0 is Waiting,
        reaction(EventView::<E>::Text(text), Some(found)).1 == found,
        reaction(EventView::<E>::Text(text), Some(found)).2 is Wait,
{
}

/// Messages are handed out on a text for the parser only.
pub proof fn law_nothing_else_is_handed_out<M, E>(event: EventView<E>, found: Option<Seq<M>>)
    ensures
        !event.brings_text() || found is None ==> reaction(event, found).1.len() == 0,
{
}

/// A request is written as it is, and a PING as the text `PING`; nothing else is written. The
/// handler then waits for the write to end, and goes on if it went well.
pub proof fn law_what_is_written<M, E>(
    event: EventView<E>,
    found: Option<Seq<M>>,
    text: Seq<char>,
)
    ensures
        reaction(event, found).2 == ActionView::<E>::Write(text) <==> event == EventView::<
            E,
        >::Outgoing(Some(text)) || event is PingRequested && text == "PING"@,
        reaction(event, found).2 is Write <==> reaction(event, found).0 is Writing,
        reaction((EventView::<E>::Written { ok: true }), found).0 is Waiting,
        reaction((EventView::<E>::Written { ok: true }), found).2 is Wait,
{
}

/// A task adds to what it has handed out what the handler says, and otherwise does what the
/// handler says.
pub proof fn law_a_task_does_what_the_handler_says<M, E>(
    before: Seq<M>,
    event: EventView<E>,
    found: Option<Seq<M>>,
)
    ensures
        handled_by_task(before, (event, found)).0 == reaction(event, found).0,
        handled_by_task(before, (event, found)).1 == before + reaction(event, found).1,
        handled_by_task(before, (event, found)).2 == reaction(event, found).2,
{
}

/// The handler after `happenings`.
pub open spec fn handled<M, E>(happenings: Seq<Happening<M, E>>) -> HandlerPhase {
    if happenings.len() == 0 {
        HandlerPhase::Waiting
    } else {
        reaction(happenings.last().0, happenings.last().1).0
    }
}

/// Each of `happenings` is one that the handler waits for when it comes.
pub open spec fn can_happen<M, E>(happenings: Seq<Happening<M, E>>) -> bool
    decreases happenings.len(),
{
    happenings.len() == 0 || {
        &&& can_happen(happenings.drop_last())
        &&& expected(handled(happenings.drop_last()), happenings.last().0)
    }
}

/// All that the subscribers are handed, in order.
pub open spec fn handed_out<M, E>(happenings: Seq<Happening<M, E>>) -> Seq<M>
    decreases happenings.len(),
{
    if happenings.len() == 0 {
        seq![]
    } else {
        handed_out(happenings.drop_last()) + reaction(happenings.last().0, happenings.last().1).1
    }
}

/// All the messages that the parser finds in texts that arrive, in order.
pub open spec fn found_in_texts<M, E>(happenings: Seq<Happening<M, E>>) -> Seq<M>
    decreases happenings.len(),
{
    if happenings.len() == 0 {
        seq![]
    } else {
        let before = found_in_texts(happenings.drop_last());
        let (event, found) = happenings.last();
        if event.brings_text() && found is Some {
            before + found->0
        } else {
            before
        }
    }
}

/// All the texts that are written, in order.
pub open spec fn written<M, E>(happenings: Seq<Happening<M, E>>) -> Seq<Seq<char>>
    decreases happenings.len(),
{
    if happenings.len() == 0 {
        seq![]
    } else {
        let before = written(happenings.drop_last());
        match reaction(happenings.last().0, happenings.last().1).2 {
            ActionView::Write(text) => before.push(text),
            _ => before,
        }
    }
}

/// All the requests that are to go out, and a PING for each time that one is asked for, in
/// order.
pub open spec fn asked_for<M, E>(happenings: Seq<Happening<M, E>>) -> Seq<Seq<char>>
    decreases happenings.len(),
{
    if happenings.len() == 0 {
        seq![]
    } else {
        let before = asked_for(happenings.drop_last());
        match happenings.last().0 {
            EventView::Outgoing(Some(text)) => before.push(text),
            EventView::PingRequested => before.push("PING"@),
            _ => before,
        }
    }
}

/// The subscribers are handed what the parser finds, all of it, in order, and nothing else.
pub proof fn law_every_message_is_handed_out<M, E>(happenings: Seq<Happening<M, E>>)
    ensures
        handed_out(happenings) == found_in_texts(happenings),
    decreases happenings.len(),
{
    if happenings.len() > 0 {
        law_every_message_is_handed_out(happenings.drop_last());
    }
}

/// `handed_out[i]` is what a task has handed out when the first `i` of `happenings` are
/// handled.
pub open spec fn task_hands_out<M, E>(
    handed_out: Seq<Seq<M>>,
    happenings: Seq<Happening<M, E>>,
) -> bool {
    &&& handed_out.len() == happenings.len() + 1
    &&& forall|i: int|
        0 <= i < happenings.len() ==> handed_out[i + 1] == handled_by_task(
            handed_out[i],
            #[trigger] happenings[i],
        ).1
}

/// Over a whole connection, what a task sends to the channel of the subscribers is what the
/// parser finds in the texts that arrive: all of it, each message once, in order, and
/// nothing else.
pub proof fn law_the_channel_gets_what_the_parser_finds<M, E>(
    handed_out: Seq<Seq<M>>,
    happenings: Seq<Happening<M, E>>,
)
    requires
        task_hands_out(handed_out, happenings),
    ensures
        handed_out.last() == handed_out[0] + found_in_texts(happenings),
    decreases happenings.len(),
{
    if happenings.len() == 0 {
        assert(handed_out[0] + found_in_texts(happenings) =~= handed_out[0]);
    } else {
        let n = happenings.len() - 1;
        let before = happenings.drop_last();
        assert forall|i: int| 0 <= i < before.len() implies handed_out.drop_last()[i + 1]
            == handled_by_task(handed_out.drop_last()[i], #[trigger] before[i]).1 by {
            assert(before[i] == happenings[i]);
        }
        law_the_channel_gets_what_the_parser_finds(handed_out.drop_last(), before);
        assert(handed_out[n + 1] == handled_by_task(handed_out[n], happenings[n]).1);
        law_every_message_is_handed_out(happenings);
        law_every_message_is_handed_out(before);
        assert(handed_out[0] + found_in_texts(happenings) =~= handed_out[n] + reaction(
            happenings[n].0,
            happenings[n].1,
        ).1);
    }
}

/// What is written is what was asked for: each request as it is and each PING, in order,
/// and nothing else.
pub proof fn law_every_request_is_written<M, E>(happenings: Seq<Happening<M, E>>)
    ensures
        written(happenings) == asked_for(happenings),
    decreases happenings.len(),
{
    if happenings.len() > 0 {
        law_every_request_is_written(happenings.drop_last());
    }
}

/// The handling of a connection ends with an error exactly when the other side closes it
/// or when reading fails, and the error tells which. Of its own it ends, without error,
/// when nobody can make requests any more, when writing fails, or when nothing can happen
/// any more.
pub proof fn law_how_a_connection_ends<M, E>(event: EventView<E>, found: Option<Seq<M>>)
    ensures
        ({
            let (phase, messages, action) = reaction(event, found);
            &&& phase is Finished ==> messages.len() == 0
            &&& phase is Finished <==> action is Finish
            &&& action is Finish <==> {
                ||| event is Close
                ||| event is ReadFailed
                ||| event is Exhausted
                ||| event == EventView::<E>::Outgoing(None)
                ||| event == (EventView::<E>::Written { ok: false })
            }
            &&& action is Finish && action->Finish_0 is Err <==> event is Close
                || event is ReadFailed
            &&& event is Close ==> action->Finish_0 == Err::<(), Error<E>>(
                Error { kind: Kind::WebSocket, source: WsError::ConnectionClosed },
            )
            &&& event is ReadFailed ==> action->Finish_0 == Err::<(), Error<E>>(
                Error {
                    kind: Kind::WebSocket,
                    source: WsError::Connection(event->ReadFailed_0),
                },
            )
        }),
{
}

/// Once the handling of a connection is over nothing more is done.
pub proof fn law_nothing_follows_the_end<M, E>(
    happenings: Seq<Happening<M, E>>,
    more: Happening<M, E>,
)
    requires
        can_happen(happenings),
        handled(happenings) is Finished,
    ensures
        !can_happen(happenings.push(more)),
{
    assert(happenings.push(more).drop_last() =~= happenings);
}

/// A text that the parser refuses and a frame that is no text change nothing: the handler
/// goes on waiting, and neither hands anything out nor writes.
pub proof fn law_unknown_input_is_ignored<M, E>(event: EventView<E>)
    requires
        event.brings_text() || event is Other,
    ensures
        reaction(event, None::<Seq<M>>) == waiting::<M, E>(ActionView::Wait),
{
}

/// The answer to a PING goes to the heartbeat and to nobody else, and nothing else does.
pub proof fn law_pongs_go_to_the_heartbeat<M, E>(event: EventView<E>, found: Option<Seq<M>>)
    ensures
        reaction(event, found).2 is NotifyPong <==> event == EventView::<E>::Text("PONG"@),
        reaction(event, found).2 is NotifyPong ==> reaction(event, found).1.len() == 0,
{
}

// ---- The heartbeat ----

/// The heartbeat after `events`.
pub open spec fn beaten(start: HeartbeatWork, events: Seq<HeartbeatEvent>) -> HeartbeatWork
    decreases events.len(),
{
    if events.len() == 0 {
        start
    } else {
        beat(beaten(start, events.drop_last()), events.last())
    }
}

/// Each of `events` is an outcome of the work that is under way when it comes.
pub open spec fn can_beat(start: HeartbeatWork, events: Seq<HeartbeatEvent>) -> bool
    decreases events.len(),
{
    events.len() == 0 || {
        &&& can_beat(start, events.drop_last())
        &&& outcome_of(beaten(start, events.drop_last()), events.last())
    }
}

/// A PING is sent only right after a tick, on a connection that is up, with the last PONG
/// marked as seen, and then the clock read, before it is sent.
pub proof fn law_what_precedes_a_ping(events: Seq<HeartbeatEvent>)
    requires
        can_beat(HeartbeatWork::AwaitTick, events),
        beaten(HeartbeatWork::AwaitTick, events) is SendPing,
    ensures
        ({
            let n = events.len() as int;
            &&& n >= 4
            &&& events[n - 4] is Ticked
            &&& events[n - 3] is State
            &&& events[n - 3]->State_0 is Connected
            &&& events[n - 2] is PongSeen
            &&& events[n - 1] == HeartbeatEvent::Clock(
                beaten(HeartbeatWork::AwaitTick, events)->SendPing_ping_sent,
            )
        }),
{
    let start = HeartbeatWork::AwaitTick;
    let one = events.drop_last();
    let two = one.drop_last();
    let three = two.drop_last();
    assert(beaten(start, one) is ReadClock);
    assert(beaten(start, two) is MarkPongSeen);
    assert(beaten(start, three) is ReadState);
    assert(three.len() > 0);
    assert(three.last() is Ticked);
}

/// After a PING the heartbeat goes on exactly when a PONG arrives in time, and is no older
/// than the PING. In every other case it ends.
pub proof fn law_what_follows_a_ping(ping_sent: u128, last_pong: u128, event: HeartbeatEvent)
    ensures
        beat(
            HeartbeatWork::SendPing { ping_sent },
            HeartbeatEvent::Requested { taken: true },
        ) == (HeartbeatWork::AwaitPong { ping_sent }),
        beat(
            HeartbeatWork::SendPing { ping_sent },
            HeartbeatEvent::Requested { taken: false },
        ) is Stop,
        outcome_of(HeartbeatWork::AwaitPong { ping_sent }, event) ==> beat(
            HeartbeatWork::AwaitPong { ping_sent },
            event,
        ) == (if event is PongArrived {
            HeartbeatWork::ReadPong { ping_sent }
        } else {
            HeartbeatWork::Stop
        }),
        beat(HeartbeatWork::ReadPong { ping_sent }, HeartbeatEvent::LastPong(last_pong)) == (
        if last_pong >= ping_sent {
            HeartbeatWork::AwaitTick
        } else {
            HeartbeatWork::Stop
        }),
{
}

/// A heartbeat that has ended does nothing more.
pub proof fn law_ended_heartbeat_stays_ended(event: HeartbeatEvent)
    ensures
        !outcome_of(HeartbeatWork::Stop, event),
        beat(HeartbeatWork::Stop, event) is Stop,
{
}

/// Each work of the heartbeat has its own outcomes, and no others.
pub proof fn law_outcomes_of_the_heartbeat(work: HeartbeatWork, event: HeartbeatEvent)
    ensures
        outcome_of(work, event) <==> {
            ||| work is AwaitTick && event is Ticked
            ||| work is ReadState && event is State
            ||| work is MarkPongSeen && event is PongSeen
            ||| work is ReadClock && event is Clock
            ||| work is SendPing && event is Requested
            ||| work is AwaitPong && (event is PongArrived || event is PongsClosed
                || event is TimedOut)
            ||| work is ReadPong && event is LastPong
        },
{
}

/// What a tick leads to on a connection that is up, where the clock then shows `now`.
pub open spec fn tick(since: Instant, now: u128) -> Seq<HeartbeatEvent> {
    seq![
        HeartbeatEvent::Ticked,
        HeartbeatEvent::State(ConnectionState::Connected { since }),
        HeartbeatEvent::PongSeen,
        HeartbeatEvent::Clock(now),
    ]
}

/// However long the heartbeat has run, each tick on a connection that is up leads to a PING,
/// which counts as sent at the moment that the clock shows, whatever that moment is.
pub proof fn law_every_tick_sends_a_ping(events: Seq<HeartbeatEvent>, since: Instant, now: u128)
    requires
        can_beat(HeartbeatWork::AwaitTick, events),
        beaten(HeartbeatWork::AwaitTick, events) is AwaitTick,
    ensures
        can_beat(HeartbeatWork::AwaitTick, events + tick(since, now)),
        beaten(HeartbeatWork::AwaitTick, events + tick(since, now)) == (HeartbeatWork::SendPing {
            ping_sent: now,
        }),
{
    let start = HeartbeatWork::AwaitTick;
    let connected = ConnectionState::Connected { since };
    let one = events.push(HeartbeatEvent::Ticked);
    let two = one.push(HeartbeatEvent::State(connected));
    let three = two.push(HeartbeatEvent::PongSeen);
    let four = three.push(HeartbeatEvent::Clock(now));
    assert(events + tick(since, now) =~= four);
    assert(four.drop_last() =~= three);
    assert(three.drop_last() =~= two);
    assert(two.drop_last() =~= one);
    assert(one.drop_last() =~= events);
    assert(beaten(start, one) is ReadState && can_beat(start, one));
    assert(beaten(start, two) is MarkPongSeen && can_beat(start, two));
    assert(beaten(start, three) is ReadClock && can_beat(start, three));
}

/// A PING that is taken, and answered by a PONG no older than it, leads to the wait for the
/// next tick. So on a connection that stays up, and answers in time, the heartbeat goes on.
pub proof fn law_an_answered_ping_keeps_the_heartbeat(
    events: Seq<HeartbeatEvent>,
    ping_sent: u128,
    last_pong: u128,
)
    requires
        can_beat(HeartbeatWork::AwaitTick, events),
        beaten(HeartbeatWork::AwaitTick, events) == (HeartbeatWork::SendPing { ping_sent }),
        last_pong >= ping_sent,
    ensures
        ({
            let answer = seq![
                HeartbeatEvent::Requested { taken: true },
                HeartbeatEvent::PongArrived,
                HeartbeatEvent::LastPong(last_pong),
            ];
            &&& can_beat(HeartbeatWork::AwaitTick, events + answer)
            &&& beaten(HeartbeatWork::AwaitTick, events + answer) is AwaitTick
        }),
{
    let start = HeartbeatWork::AwaitTick;
    let answer = seq![
        HeartbeatEvent::Requested { taken: true },
        HeartbeatEvent::PongArrived,
        HeartbeatEvent::LastPong(last_pong),
    ];
    let one = events.push(HeartbeatEvent::Requested { taken: true });
    let two = one.push(HeartbeatEvent::PongArrived);
    let three = two.push(HeartbeatEvent::LastPong(last_pong));
    assert(events + answer =~= three);
    assert(three.drop_last() =~= two);
    assert(two.drop_last() =~= one);
    assert(one.drop_last() =~= events);
    assert(beaten(start, one) == (HeartbeatWork::AwaitPong { ping_sent }) && can_beat(start, one));
    assert(beaten(start, two) == (HeartbeatWork::ReadPong { ping_sent }) && can_beat(start, two));
}

/// The heartbeat ends for four reasons only: the connection is no longer up, nobody takes the
/// PING, no PONG comes in time or can come at all, or the PONG is older than the PING.
pub proof fn law_why_the_heartbeat_ends(work: HeartbeatWork, event: HeartbeatEvent)
    requires
        outcome_of(work, event),
    ensures
        beat(work, event) is Stop <==> {
            ||| event is State && !(event->State_0 is Connected)
            ||| event == (HeartbeatEvent::Requested { taken: false })
            ||| event is PongsClosed
            ||| event is TimedOut
            ||| event is LastPong && event->LastPong_0 < work->ReadPong_ping_sent
        },
{
}

// ---- The requests of the users ----

/// A request that was written out is handed in once; one that was not is not handed in.
pub proof fn law_what_is_handed_in<S, T>(json: Result<T, S>)
    ensures
        json matches Ok(text) ==> requests_in(json).len() == 1 && requests_in(json)[0] == text,
        json is Err ==> requests_in(json).len() == 0,
{
}

/// The texts of the requests that were written out, in order.
pub open spec fn written_out<S, T>(jsons: Seq<Result<T, S>>) -> Seq<T>
    decreases jsons.len(),
{
    if jsons.len() == 0 {
        seq![]
    } else {
        match jsons.last() {
            Ok(text) => written_out(jsons.drop_last()).push(text),
            Err(_) => written_out(jsons.drop_last()),
        }
    }
}

/// All that a number of sending ends took, one after the other.
pub open spec fn taken_by<T>(ends: Seq<Seq<T>>) -> Seq<T>
    decreases ends.len(),
{
    if ends.len() == 0 {
        seq![]
    } else {
        taken_by(ends.drop_last()) + ends.last()
    }
}

/// Over any number of calls, each of which hands in what was written out for it, the channel
/// of the requests takes every request that was written out, once and in order, and nothing
/// else.
pub proof fn law_every_request_is_handed_in_once<S, T>(
    jsons: Seq<Result<T, S>>,
    ends: Seq<Seq<T>>,
)
    requires
        ends.len() == jsons.len(),
        forall|i: int| 0 <= i < jsons.len() ==> ends[i] == requests_in(#[trigger] jsons[i]),
    ensures
        taken_by(ends) == written_out(jsons),
    decreases jsons.len(),
{
    if jsons.len() > 0 {
        assert forall|i: int| 0 <= i < jsons.drop_last().len() implies ends.drop_last()[i]
            == requests_in(#[trigger] jsons.drop_last()[i]) by {
            assert(jsons.drop_last()[i] == jsons[i]);
        }
        law_every_request_is_handed_in_once(jsons.drop_last(), ends.drop_last());
        assert(ends.last() == requests_in(jsons[jsons.len() - 1]));
    }
}

/// The answer to a request is that of a send of that very request on the channel of the
/// handle, and a request that could not be written out is answered with its own error.
pub proof fn law_a_request_is_answered_by_the_channel<M, P: MessageParser<M>, S, T>(
    manager: ConnectionManager<M, P, T>,
    json: Result<T, S>,
    result: Result<(), RequestError<S>>,
)
    requires
        manager.answers_request(json, result),
    ensures
        json matches Err(error) ==> result == Err::<(), _>(RequestError::Request(error)),
        json matches Ok(text) ==> exists|taken: Result<(), mpsc::error::SendError<T>>|
            {
                &&& #[trigger] call_ensures(
                    mpsc::UnboundedSender::<T>::send,
                    (&manager.requests(), text),
                    taken,
                )
                &&& taken is Ok ==> result is Ok
                &&& taken is Err ==> result == Err::<(), _>(RequestError::<S>::ConnectionClosed)
            },
{
    if json is Ok {
        let taken = choose|taken: Result<(), mpsc::error::SendError<T>>|
            #[trigger] call_ensures(
                mpsc::UnboundedSender::<T>::send,
                (&manager.requests(), json->Ok_0),
                taken,
            ) && result == sending_result::<S, T>(taken);
        assert(call_ensures(
            mpsc::UnboundedSender::<T>::send,
            (&manager.requests(), json->Ok_0),
            taken,
        ));
    }
}

/// What an authenticated request is written out as is what it makes of itself with the
/// credentials that were given.
pub proof fn law_a_request_writes_itself_out<R: WithCredentials<C, T>, C, T>(
    request: &R,
    credentials: &C,
    json: Result<T, R::Error>,
)
    ensures
        request.writes(credentials, json) <==> call_ensures(
            R::as_authenticated,
            (request, credentials),
            json,
        ),
{
}

/// What a handle hands in goes through a sending end of its own channel of requests, which
/// takes those texts, in order, and nothing else.
pub proof fn law_a_handle_hands_in_at_its_own_channel<M, P: MessageParser<M>, T>(
    manager: ConnectionManager<M, P, T>,
    texts: Seq<T>,
)
    requires
        manager.handed_in(texts),
    ensures
        exists|outlet: RequestOutlet<T>| #[trigger]
            outlet.channel() == manager.requests() && outlet@ == texts,
{
}

/// A request is answered with success exactly when the channel took it, and with
/// `ConnectionClosed` when the channel gave it back.
pub proof fn law_the_answer_to_a_request<S, T>(taken: Result<(), mpsc::error::SendError<T>>)
    ensures
        taken is Ok ==> sending_result::<S, T>(taken) is Ok,
        taken is Err ==> sending_result::<S, T>(taken) == Err::<(), _>(
            RequestError::<S>::ConnectionClosed,
        ),
{
}

// ---- The tunnel of a proxy ----

/// A tunnel leads to the host of the endpoint, at the port that its URL gives, and at port 443
/// if it gives none. An endpoint without a host, or that is no URL, has no tunnel.
pub proof fn law_where_a_tunnel_leads(parts: UrlParts)
    ensures
        tunnel_target(None) is None,
        parts.host is None ==> tunnel_target(Some(parts.parts())) is None,
        parts.host matches Some(host) ==> {
            let port = if parts.port is Some {
                parts.port->0
            } else {
                443
            };
            tunnel_target(Some(parts.parts())) == Some((host@, port))
        },
{
}

} // verus!
