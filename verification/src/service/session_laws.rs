//! What holds of every WebSocket session, whatever happens on its
//! connection.
//!
//! A run of a session is the sequence of events that its driver hands in. The
//! driver is orderly: it performs the action it was given and hands in what
//! came of it, so each event is one that the session's phase asks for.

use crate::service::ws::{
    echo_frame, ping_frame, ActionView, Event, FrameView, Liveness, OpCode, Phase, ReactionView,
    SessionData, SessionState, CLOSE_GRACE_MILLIS, NORMAL_CLOSURE,
};
use crate::trusted::lossy_text;
use vstd::prelude::*;
use vstd::utf8::*;

verus! {

/// The state of a session after the given events, taken in order.
pub open spec fn run(state: SessionState, events: Seq<Event>) -> SessionState
    decreases events.len(),
{
    if events.len() == 0 {
        state
    } else {
        run(state, events.drop_last()).step(events.last()).next
    }
}

/// The session's reaction to the last of the given events.
pub open spec fn last_reaction(state: SessionState, events: Seq<Event>) -> ReactionView
    recommends
        events.len() > 0,
{
    run(state, events.drop_last()).step(events.last()).reaction
}

/// True of an event that a session in the given phase asks its driver for.
pub open spec fn expects(phase: Phase, event: Event) -> bool {
    match phase {
        Phase::Established => event is PingTick || event is Frame || event is ReadFailed
            || event is Cancelled,
        Phase::Pinging | Phase::Echoing => event is Written || event is WriteFailed,
        Phase::Closing => event is Transport,
        Phase::Draining => event is CloseAttempted,
        Phase::Closed => false,
    }
}

/// True of a run in which every event is one that the session asked for.
pub open spec fn orderly(state: SessionState, events: Seq<Event>) -> bool
    decreases events.len(),
{
    events.len() == 0 || (orderly(state, events.drop_last()) && expects(
        run(state, events.drop_last()).phase,
        events.last(),
    ))
}

/// True of a frame that carries a pong.
pub open spec fn is_pong(event: Event) -> bool {
    event matches Event::Frame { opcode, .. } && opcode == OpCode::Pong
}

/// True of an event that ends a session whatever its state: the peer closes,
/// reading or writing fails, or the service shuts down.
pub open spec fn is_fatal(event: Event) -> bool {
    event is ReadFailed || event is Cancelled || event is WriteFailed || (event matches Event::Frame {
        opcode,
        ..
    } && opcode == OpCode::Close)
}

/// The data frames that the session wrote during the run, in order.
pub open spec fn echoes(state: SessionState, events: Seq<Event>) -> Seq<FrameView>
    decreases events.len(),
{
    if events.len() == 0 {
        seq![]
    } else {
        let before = echoes(state, events.drop_last());
        match last_reaction(state, events).action {
            ActionView::Write(frame) => if frame.opcode.is_data() {
                before.push(frame)
            } else {
                before
            },
            _ => before,
        }
    }
}

/// The echo of each message among the events, in order.
pub open spec fn owed_echoes(events: Seq<Event>) -> Seq<FrameView>
    decreases events.len(),
{
    if events.len() == 0 {
        seq![]
    } else {
        let before = owed_echoes(events.drop_last());
        match events.last() {
            Event::Frame { opcode, payload } => if opcode.is_data() {
                before.push(echo_frame(opcode, payload@))
            } else {
                before
            },
            _ => before,
        }
    }
}

/// The messages among the events, in order: each as a final frame of its
/// kind with its payload.
pub open spec fn messages(events: Seq<Event>) -> Seq<FrameView>
    decreases events.len(),
{
    if events.len() == 0 {
        seq![]
    } else {
        let before = messages(events.drop_last());
        match events.last() {
            Event::Frame { opcode, payload } => if opcode.is_data() {
                before.push(FrameView { fin: true, opcode, payload: payload@ })
            } else {
                before
            },
            _ => before,
        }
    }
}

/// True if every text frame among the events holds valid UTF-8.
pub open spec fn all_valid_text(events: Seq<Event>) -> bool {
    forall|i: int|
        0 <= i < events.len() ==> (#[trigger] events[i] matches Event::Frame { opcode, payload }
            ==> opcode == OpCode::Text ==> valid_utf8(payload@))
}

/// The number of pings that the session wrote during the run.
pub open spec fn pings(state: SessionState, events: Seq<Event>) -> nat
    decreases events.len(),
{
    if events.len() == 0 {
        0
    } else {
        let before = pings(state, events.drop_last());
        if last_reaction(state, events).action == ActionView::Write(ping_frame()) {
            before + 1
        } else {
            before
        }
    }
}

/// The number of ticks of the keepalive timer among the events.
pub open spec fn ticks(events: Seq<Event>) -> nat
    decreases events.len(),
{
    if events.len() == 0 {
        0
    } else if events.last() is PingTick {
        ticks(events.drop_last()) + 1
    } else {
        ticks(events.drop_last())
    }
}

/// True if the events hold a tick of the keepalive timer with no pong after
/// it.
pub open spec fn unanswered(events: Seq<Event>) -> bool
    decreases events.len(),
{
    if events.len() == 0 {
        false
    } else if events.last() is PingTick {
        true
    } else if is_pong(events.last()) {
        false
    } else {
        unanswered(events.drop_last())
    }
}

/// True of events from a peer that answers every ping: at each tick of the
/// keepalive timer, a pong has come since the tick before.
pub open spec fn answers_pings(events: Seq<Event>) -> bool
    decreases events.len(),
{
    events.len() == 0 || (answers_pings(events.drop_last()) && (events.last() is PingTick
        ==> !unanswered(events.drop_last())))
}

/// Every record that a session makes is made under the span of its logger,
/// and a session whose logger is switched off makes none.
pub proof fn records_are_under_the_session_span(state: SessionState, event: Event)
    ensures
        ({
            let records = state.step(event).reaction.records;
            match state.logger.span() {
                Some(span) => forall|i: int|
                    0 <= i < records.len() ==> (#[trigger] records[i]).span == span,
                None => records.len() == 0,
            }
        }),
        state.step(event).next.logger == state.logger,
{
}

/// A message is echoed as it came: the session answers a binary frame, and
/// a text frame that holds valid UTF-8, with one final frame of the same
/// kind and with the same payload, byte for byte.
pub proof fn echo_is_identity(state: SessionState, event: Event)
    requires
        state.phase == Phase::Established,
        event matches Event::Frame { opcode, payload } && opcode.is_data() && (opcode
            == OpCode::Text ==> valid_utf8(payload@)),
    ensures
        state.step(event).reaction.action == ActionView::Write(
            FrameView { fin: true, opcode: event->opcode, payload: event->payload@ },
        ),
        state.step(event).next.phase == Phase::Echoing,
{
}

/// The echo of a text frame holds text: its payload is valid UTF-8, whatever
/// the payload of the message was.
pub proof fn text_echo_is_text(payload: Seq<u8>)
    ensures
        valid_utf8(echo_frame(OpCode::Text, payload).payload),
{
    encode_utf8_valid_utf8(lossy_text(payload));
}

/// A session that has begun to close never echoes again.
pub proof fn closing_is_final(state: SessionState, events: Seq<Event>)
    requires
        !state.phase.is_open(),
    ensures
        !run(state, events).phase.is_open(),
    decreases events.len(),
{
    if events.len() > 0 {
        closing_is_final(state, events.drop_last());
    }
}

/// A session echoes every message that it receives, each with one frame, in
/// the order in which they come, and it writes no other frame of data.
pub proof fn echoes_in_order(state: SessionState, events: Seq<Event>)
    requires
        orderly(state, events),
    ensures
        echoes(state, events) == owed_echoes(events),
    decreases events.len(),
{
    if events.len() > 0 {
        echoes_in_order(state, events.drop_last());
    }
}

/// Messages come back as they were sent: where every text frame holds valid
/// UTF-8, the frames of data that a session writes are the messages it
/// received, each once, with the same kind and the same payload, in the same
/// order.
pub proof fn valid_messages_come_back(state: SessionState, events: Seq<Event>)
    requires
        orderly(state, events),
        all_valid_text(events),
    ensures
        echoes(state, events) == messages(events),
    decreases events.len(),
{
    if events.len() > 0 {
        let earlier = events.drop_last();
        assert forall|i: int| 0 <= i < earlier.len() implies (#[trigger] earlier[i] matches Event::Frame {
            opcode,
            payload,
        } ==> opcode == OpCode::Text ==> valid_utf8(payload@)) by {
            assert(earlier[i] == events[i]);
        }
        valid_messages_come_back(state, earlier);
        assert(events[events.len() - 1] == events.last());
    }
}

proof fn lemma_answered_pings(data: SessionData, events: Seq<Event>)
    requires
        orderly(SessionState::initial(data), events),
        answers_pings(events),
        forall|i: int| 0 <= i < events.len() ==> !is_fatal(#[trigger] events[i]),
    ensures
        run(SessionState::initial(data), events).phase.is_open(),
        run(SessionState::initial(data), events).liveness == Liveness::AwaitingPong ==> unanswered(
            events,
        ),
        run(SessionState::initial(data), events).phase == Phase::Pinging ==> events.len() > 0
            && events.last() is PingTick,
    decreases events.len(),
{
    if events.len() > 0 {
        let earlier = events.drop_last();
        assert forall|i: int| 0 <= i < earlier.len() implies !is_fatal(#[trigger] earlier[i]) by {
            assert(earlier[i] == events[i]);
        }
        lemma_answered_pings(data, earlier);
        let before = run(SessionState::initial(data), earlier);
        if before.phase == Phase::Pinging || before.liveness == Liveness::AwaitingPong {
            assert(unanswered(earlier));
        }
    }
}

/// A session whose peer answers every ping stays open, as long as nothing
/// else ends it: no tick of the keepalive timer, however many there are,
/// closes a session whose peer has sent a pong since the tick before.
pub proof fn answered_pings_keep_session_open(data: SessionData, events: Seq<Event>)
    requires
        orderly(SessionState::initial(data), events),
        answers_pings(events),
        forall|i: int| 0 <= i < events.len() ==> !is_fatal(#[trigger] events[i]),
    ensures
        run(SessionState::initial(data), events).phase.is_open(),
{
    lemma_answered_pings(data, events);
}

/// What holds of a session with keepalive whose peer never sends a pong.
spec fn silent_peer_invariant(state: SessionState, events: Seq<Event>) -> bool {
    let now = run(state, events);
    &&& now.keepalive
    &&& ticks(events) >= 2 ==> !now.phase.is_open()
    &&& ticks(events) == 0 ==> pings(state, events) == 0 && now.liveness
        == Liveness::AwaitingActivity && now.phase != Phase::Pinging
    &&& ticks(events) >= 1 ==> pings(state, events) == 1
    &&& ticks(events) >= 1 && now.phase.is_open() ==> now.phase == Phase::Pinging || (now.phase
        == Phase::Established && now.liveness == Liveness::AwaitingPong) || (now.phase
        == Phase::Echoing && now.liveness == Liveness::AwaitingPong)
}

proof fn lemma_silent_peer(data: SessionData, events: Seq<Event>)
    requires
        data.ping_interval().is_some(),
        orderly(SessionState::initial(data), events),
        forall|i: int| 0 <= i < events.len() ==> !is_pong(#[trigger] events[i]),
    ensures
        silent_peer_invariant(SessionState::initial(data), events),
    decreases events.len(),
{
    if events.len() > 0 {
        let earlier = events.drop_last();
        assert forall|i: int| 0 <= i < earlier.len() implies !is_pong(#[trigger] earlier[i]) by {
            assert(earlier[i] == events[i]);
        }
        lemma_silent_peer(data, earlier);
    }
}

/// A session with keepalive whose peer never sends a pong writes one ping,
/// at the first tick of the timer, and is over at the second tick.
pub proof fn unanswered_ping_ends_session(data: SessionData, events: Seq<Event>)
    requires
        data.ping_interval().is_some(),
        orderly(SessionState::initial(data), events),
        forall|i: int| 0 <= i < events.len() ==> !is_pong(#[trigger] events[i]),
    ensures
        ticks(events) == 0 ==> pings(SessionState::initial(data), events) == 0,
        ticks(events) >= 1 ==> pings(SessionState::initial(data), events) == 1,
        ticks(events) >= 2 ==> !run(SessionState::initial(data), events).phase.is_open(),
{
    lemma_silent_peer(data, events);
}

/// At the tick after an unanswered ping the session reports that no pong
/// came, writes nothing more, and begins to close.
pub proof fn missing_pong_is_terminal(state: SessionState)
    requires
        state.phase == Phase::Established,
        state.keepalive,
        state.liveness == Liveness::AwaitingPong,
    ensures
        state.step(Event::PingTick) == state.leave(
            state.logger.records("Didn't receive pong from client"@),
        ),
        state.step(Event::PingTick).next.phase == Phase::Closing,
{
}

/// A session that is over leaves with a close frame: when the transport has
/// not sent one yet, the session asks for a normal closure within the grace
/// period, and it finishes whatever comes of that.
pub proof fn close_is_attempted(state: SessionState, attempted: Event)
    requires
        state.phase == Phase::Closing,
        attempted is CloseAttempted,
    ensures
        ({
            let asked = state.step(Event::Transport { closed: false });
            let done = asked.next.step(attempted);
            &&& asked.reaction.action == ActionView::SendClose {
                code: NORMAL_CLOSURE,
                grace_millis: CLOSE_GRACE_MILLIS,
            }
            &&& done.reaction.action == ActionView::Finish
            &&& done.next.phase == Phase::Closed
        }),
        state.step(Event::Transport { closed: true }).reaction.action == ActionView::Finish,
        state.step(Event::Transport { closed: true }).next.phase == Phase::Closed,
{
}

/// The shutdown signal ends an established session at once: nothing more is
/// written but the close frame.
pub proof fn cancellation_closes_session(state: SessionState)
    requires
        state.phase == Phase::Established,
    ensures
        state.step(Event::Cancelled) == state.leave(seq![]),
        state.step(Event::Cancelled).next.phase == Phase::Closing,
{
}

/// The shutdown signal fired twice does what it does fired once: the second
/// changes nothing, and nothing is logged or done for it.
pub proof fn cancellation_is_idempotent(state: SessionState)
    ensures
        ({
            let once = state.step(Event::Cancelled);
            let twice = once.next.step(Event::Cancelled);
            &&& twice.next == once.next
            &&& twice.reaction == (ReactionView { action: ActionView::Ignore, records: seq![] })
        }),
{
}

} // verus!
