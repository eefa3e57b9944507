//! WebSocket: the handshake that turns a request into a session, and the
//! session itself, one state machine per upgraded connection.
//!
//! The machine does no I/O. Its driver waits for the next thing to happen on
//! the connection, hands it in as an `Event`, emits the records of the
//! `Reaction` and performs its action. The driver is the only writer on the
//! connection, and it performs one action at a time.

use crate::log_utils::Elapsed;
use crate::message::{Request, Response, StatusCode, Version};
use crate::record::{LogRecord, RecordView};
use crate::service::http::ReplyBody;
use crate::service::{Reply, Upgrade};
use crate::trusted::{
    empty_extensions, empty_headers, handshake_outcome, header_contents, lossy_text, upgrade,
    utf8_lossy, HeaderEntry, Headers,
};
use crate::ws_logger::{echoed_in, WsLogger};
use std::convert::Infallible;
use std::time::Duration;
use vstd::prelude::*;
use vstd::string::*;
use vstd::utf8::*;

verus! {

/// The close code of a normal closure.
pub const NORMAL_CLOSURE: u16 = 1000;

/// How long a session waits for its close frame to be sent, in milliseconds.
pub const CLOSE_GRACE_MILLIS: u64 = 1000;

/// The largest message that a session takes, in bytes.
pub const MAX_MESSAGE_SIZE: usize = 16_777_216;

/// The kind of a frame.
#[derive(Debug, Clone, Copy, PartialEq, Eq, Structural)]
pub enum OpCode {
    Continuation,
    Text,
    Binary,
    Close,
    Ping,
    Pong,
}

impl OpCode {
    /// True of the two kinds of frame that carry a message.
    pub open spec fn is_data(self) -> bool {
        self == OpCode::Text || self == OpCode::Binary
    }
}

/// A frame to write.
#[derive(Debug, PartialEq, Eq)]
pub struct Frame {
    pub fin: bool,
    pub opcode: OpCode,
    pub payload: Vec<u8>,
}

/// What a `Frame` holds.
pub ghost struct FrameView {
    pub fin: bool,
    pub opcode: OpCode,
    pub payload: Seq<u8>,
}

impl View for Frame {
    type V = FrameView;

    open spec fn view(&self) -> FrameView {
        FrameView { fin: self.fin, opcode: self.opcode, payload: self.payload@ }
    }
}

/// What the session is given from outside: its logger and the interval of its
/// keepalive pings. Without an interval the session sends no pings and never
/// ends for want of a pong.
#[derive(Debug, Clone, Copy)]
pub struct SessionData {
    ws_logger: WsLogger,
    ws_ping_interval: Option<Duration>,
}

impl SessionData {
    /// The logger of the session.
    pub closed spec fn logger(self) -> WsLogger {
        self.ws_logger
    }

    /// The interval of the keepalive pings, if there are any.
    pub closed spec fn ping_interval(self) -> Option<Duration> {
        self.ws_ping_interval
    }

    /// What a session with this logger and this interval is given.
    pub fn new(ws_logger: WsLogger, ws_ping_interval: Option<Duration>) -> (data: SessionData)
        ensures
            data.logger() == ws_logger,
            data.ping_interval() == ws_ping_interval,
    {
        SessionData { ws_logger, ws_ping_interval }
    }

    /// The logger of the session.
    pub fn ws_logger(&self) -> (logger: WsLogger)
        ensures
            logger == self.logger(),
    {
        self.ws_logger
    }

    /// The interval of the keepalive pings, if there are any.
    pub fn ws_ping_interval(&self) -> (interval: Option<Duration>)
        ensures
            interval == self.ping_interval(),
    {
        self.ws_ping_interval
    }
}

/// How the session on an upgraded connection is to be set up.
#[derive(Debug, Clone, Copy)]
pub struct SessionPlan {
    /// What the session is given.
    pub data: SessionData,
    /// Whether the transport answers a close frame with a close frame.
    pub auto_close: bool,
    /// Whether the transport answers a ping with a pong.
    pub auto_pong: bool,
    /// The largest message that the transport takes, in bytes.
    pub max_message_size: usize,
}

impl SessionPlan {
    /// The plan of every session: the transport answers close frames and
    /// pings by itself, and takes messages up to `MAX_MESSAGE_SIZE`.
    pub open spec fn standard(data: SessionData) -> SessionPlan {
        SessionPlan { data, auto_close: true, auto_pong: true, max_message_size: MAX_MESSAGE_SIZE }
    }
}

/// True of the answer to a request whose handshake gave this status and
/// these headers: a response with that status, those headers and no body,
/// and the request with the plan of its session.
pub open spec fn is_handshake_with<B>(
    reply: Reply<B>,
    status: u16,
    headers: Seq<HeaderEntry>,
    request: Request<B>,
    session_data: SessionData,
) -> bool {
    &&& reply.response.status.value() == status
    &&& reply.response.version == Version::Http11
    &&& header_contents(reply.response.headers) == headers
    &&& reply.response.body is Empty
    &&& reply.session == Some(Upgrade { plan: SessionPlan::standard(session_data), request })
}

/// True of the answer to a request whose handshake gave these headers: the
/// response that switches protocols, and the request with the plan of its
/// session.
pub open spec fn is_handshake<B>(
    reply: Reply<B>,
    headers: Seq<HeaderEntry>,
    request: Request<B>,
    session_data: SessionData,
) -> bool {
    is_handshake_with(reply, 101, headers, request, session_data)
}

/// True of the answer to a request whose handshake failed with this
/// diagnostic: a bad request with the diagnostic as its body, and no session.
pub open spec fn is_rejection<B>(reply: Reply<B>, diagnostic: Seq<char>) -> bool {
    &&& reply.response.status.value() == 400
    &&& reply.response.version == Version::Http11
    &&& header_contents(reply.response.headers) == Seq::<HeaderEntry>::empty()
    &&& reply.response.body matches ReplyBody::Full(text) && text@ == diagnostic
    &&& reply.session.is_none()
}

/// True of the answer that the service owes to a request for an upgrade
/// whose handshake had the given outcome.
pub open spec fn answers_upgrade<B>(
    reply: Reply<B>,
    outcome: Result<Seq<HeaderEntry>, Seq<char>>,
    request: Request<B>,
    session_data: SessionData,
) -> bool {
    match outcome {
        Ok(headers) => is_handshake(reply, headers, request, session_data),
        Err(diagnostic) => is_rejection(reply, diagnostic),
    }
}

/// Answers a request for an upgrade: with the handshake response and a
/// session to run, or, where the handshake fails, with a bad request that
/// says why.
pub fn run_session<B>(request: Request<B>, session_data: SessionData) -> (result: Result<
    Reply<B>,
    Infallible,
>)
    ensures
        result matches Ok(reply) && answers_upgrade(
            reply,
            handshake_outcome(header_contents(request.headers)),
            request,
            session_data,
        ),
{
    let outcome = match upgrade(&request.headers) {
        Ok((code, headers)) => match StatusCode::from_u16(code) {
            Some(status) => Ok((status, headers)),
            None => unreached(),
        },
        Err(diagnostic) => Err(diagnostic),
    };
    Ok(session_reply(outcome, request, session_data))
}

/// The answer to a request for an upgrade whose handshake had the given
/// outcome: a response with the handshake's status and headers and no body,
/// and the request with the plan of its session; or a bad request with the
/// diagnostic as its body.
pub fn session_reply<B>(
    outcome: Result<(StatusCode, Headers), String>,
    request: Request<B>,
    session_data: SessionData,
) -> (reply: Reply<B>)
    ensures
        match outcome {
            Ok(handshake) => is_handshake_with(
                reply,
                handshake.0.value(),
                header_contents(handshake.1),
                request,
                session_data,
            ),
            Err(diagnostic) => is_rejection(reply, diagnostic@),
        },
{
    match outcome {
        Ok((status, headers)) => {
            let response = Response {
                status,
                version: Version::Http11,
                headers,
                extensions: empty_extensions(),
                body: ReplyBody::Empty,
            };
            let plan = SessionPlan {
                data: session_data,
                auto_close: true,
                auto_pong: true,
                max_message_size: MAX_MESSAGE_SIZE,
            };
            Reply { response, session: Some(Upgrade { plan, request }) }
        },
        Err(diagnostic) => Reply { response: to_response(diagnostic), session: None },
    }
}

/// The response to a request whose handshake failed: a bad request with the
/// diagnostic as its body.
pub fn to_response<B>(diagnostic: String) -> (response: Response<ReplyBody<B>>)
    ensures
        response.status.value() == 400,
        response.version == Version::Http11,
        header_contents(response.headers) == Seq::<HeaderEntry>::empty(),
        response.body == ReplyBody::<B>::Full(diagnostic),
{
    Response {
        status: StatusCode::bad_request(),
        version: Version::Http11,
        headers: empty_headers(),
        extensions: empty_extensions(),
        body: ReplyBody::Full(diagnostic),
    }
}

/// Where a session is in its life.
#[derive(Debug, Clone, Copy, PartialEq, Eq, Structural)]
pub enum Phase {
    /// Waiting for the next tick, frame or cancellation.
    Established,
    /// A ping is being written.
    Pinging,
    /// An echo is being written.
    Echoing,
    /// The session is over; the transport is being asked whether a close
    /// frame is still owed.
    Closing,
    /// The close frame is being sent.
    Draining,
    /// Nothing is left to do.
    Closed,
}

impl Phase {
    /// True while the session still echoes: before it has begun to close.
    pub open spec fn is_open(self) -> bool {
        self == Phase::Established || self == Phase::Pinging || self == Phase::Echoing
    }
}

/// Whether the peer owes the session a pong.
#[derive(Debug, Clone, Copy, PartialEq, Eq, Structural)]
pub enum Liveness {
    /// No ping is unanswered.
    AwaitingActivity,
    /// A ping was sent and no pong has come since.
    AwaitingPong,
}

/// What a listening driver waits for.
#[derive(Debug, Clone, Copy, PartialEq, Eq, Structural)]
pub enum Source {
    /// The keepalive timer, which ticks.
    Timer,
    /// The connection, from which a frame is read.
    Reader,
    /// The shutdown signal, which fires.
    Shutdown,
}

/// The order of a wait, where `cancelled` says whether the shutdown signal
/// had fired already when the wait began.
pub open spec fn listen_order_of(cancelled: bool) -> Seq<Source> {
    if cancelled {
        seq![Source::Timer, Source::Shutdown, Source::Reader]
    } else {
        seq![Source::Timer, Source::Reader, Source::Shutdown]
    }
}

/// The order in which a listening driver looks at what it waits for, and
/// serves the first that is ready. `cancelled` says whether the shutdown
/// signal had fired already when the wait began.
///
/// The keepalive timer comes first, so that pings stay on time under a flood
/// of messages. A shutdown signal that had fired before the wait began comes
/// before the connection, so that a peer that always has a frame ready cannot
/// hold off the shutdown. A signal that fires during the wait comes after the
/// connection, so that a frame that has been read is not lost.
pub fn listen_order(cancelled: bool) -> (order: [Source; 3])
    ensures
        order@ == listen_order_of(cancelled),
{
    let order = if cancelled {
        [Source::Timer, Source::Shutdown, Source::Reader]
    } else {
        [Source::Timer, Source::Reader, Source::Shutdown]
    };
    assert(order@ =~= listen_order_of(cancelled));
    order
}

/// Something that happened on the connection.
#[derive(Debug)]
pub enum Event {
    /// The keepalive timer ticked.
    PingTick,
    /// A frame was read.
    Frame { opcode: OpCode, payload: Vec<u8> },
    /// Reading a frame failed.
    ReadFailed,
    /// The shutdown signal fired.
    Cancelled,
    /// The frame of the last action was written, `elapsed` after the event
    /// that asked for it.
    Written { elapsed: Elapsed },
    /// Writing the frame of the last action failed, with this error.
    WriteFailed { error: String },
    /// The transport reports whether it has sent a close frame already.
    Transport { closed: bool },
    /// The attempt to send a close frame is over: the frame was sent, or
    /// sending it failed, or the grace period ran out.
    CloseAttempted,
}

/// What the driver is to do next.
#[derive(Debug, PartialEq, Eq)]
pub enum Action {
    /// Wait for a tick of the keepalive timer, a frame or the shutdown
    /// signal, and report the first that is ready in the order that
    /// `listen_order` gives for the wait.
    Listen,
    /// Write this frame, and report `Written` or `WriteFailed`.
    Write(Frame),
    /// Ask the transport whether it is closed, and report `Transport`.
    CheckTransport,
    /// Send a close frame with this code and no reason, give up after the
    /// grace period, and report `CloseAttempted` either way.
    SendClose { code: u16, grace_millis: u64 },
    /// Drop the connection.
    Finish,
    /// Nothing: the event does not concern the session in its phase.
    Ignore,
}

/// What an `Action` holds.
pub ghost enum ActionView {
    Listen,
    Write(FrameView),
    CheckTransport,
    SendClose { code: u16, grace_millis: u64 },
    Finish,
    Ignore,
}

impl View for Action {
    type V = ActionView;

    open spec fn view(&self) -> ActionView {
        match self {
            Action::Listen => ActionView::Listen,
            Action::Write(frame) => ActionView::Write(frame@),
            Action::CheckTransport => ActionView::CheckTransport,
            Action::SendClose { code, grace_millis } => ActionView::SendClose {
                code: *code,
                grace_millis: *grace_millis,
            },
            Action::Finish => ActionView::Finish,
            Action::Ignore => ActionView::Ignore,
        }
    }
}

/// The session's answer to an event: records to emit, then an action to
/// perform.
#[derive(Debug)]
pub struct Reaction {
    pub action: Action,
    pub records: Vec<LogRecord>,
}

/// What a `Reaction` holds.
pub ghost struct ReactionView {
    pub action: ActionView,
    pub records: Seq<RecordView>,
}

impl View for Reaction {
    type V = ReactionView;

    open spec fn view(&self) -> ReactionView {
        ReactionView { action: self.action@, records: self.records.deep_view() }
    }
}

/// The state of a session.
pub struct SessionState {
    pub logger: WsLogger,
    pub keepalive: bool,
    pub phase: Phase,
    pub liveness: Liveness,
}

/// A step of a session: the state it moves to and its reaction.
pub ghost struct Transition {
    pub next: SessionState,
    pub reaction: ReactionView,
}

/// The text that is logged for a message with the given payload: the text
/// that the payload encodes, with each malformed part replaced.
pub open spec fn logged_text(payload: Seq<u8>) -> Seq<char> {
    if valid_utf8(payload) {
        decode_utf8(payload)
    } else {
        lossy_text(payload)
    }
}

/// The payload that echoes a message: the payload of the message, byte for
/// byte. The one exception is a text frame whose payload is not valid UTF-8:
/// a text frame holds text, so its echo holds the text of the payload with
/// each malformed part replaced.
pub open spec fn echo_payload(opcode: OpCode, payload: Seq<u8>) -> Seq<u8> {
    if opcode == OpCode::Text && !valid_utf8(payload) {
        encode_utf8(lossy_text(payload))
    } else {
        payload
    }
}

/// The frame that echoes a message: one final frame of the same kind.
pub open spec fn echo_frame(opcode: OpCode, payload: Seq<u8>) -> FrameView {
    FrameView { fin: true, opcode, payload: echo_payload(opcode, payload) }
}

/// The frame of a keepalive ping.
pub open spec fn ping_frame() -> FrameView {
    FrameView { fin: true, opcode: OpCode::Ping, payload: Seq::empty() }
}

/// The warning for a connection whose upgrade failed.
pub open spec fn upgrade_warning(error: Seq<char>) -> Seq<char> {
    "Failed to establish websocket connection: "@ + error
}

/// What is reported when an echo could not be written.
pub open spec fn send_error(error: Seq<char>) -> Seq<char> {
    "Error sending ws frame: "@ + error
}

impl SessionState {
    /// The state of a session that has just been established.
    pub open spec fn initial(data: SessionData) -> SessionState {
        SessionState {
            logger: data.logger(),
            keepalive: data.ping_interval().is_some(),
            phase: Phase::Established,
            liveness: Liveness::AwaitingActivity,
        }
    }

    /// The state in another phase.
    pub open spec fn in_phase(self, phase: Phase) -> SessionState {
        SessionState { phase, ..self }
    }

    /// The step that moves to `phase` with the given action and records.
    pub open spec fn go(self, phase: Phase, action: ActionView, records: Seq<RecordView>) -> Transition {
        Transition { next: self.in_phase(phase), reaction: ReactionView { action, records } }
    }

    /// The step that ends the session's open phases.
    pub open spec fn leave(self, records: Seq<RecordView>) -> Transition {
        self.go(Phase::Closing, ActionView::CheckTransport, records)
    }

    /// The step that changes nothing.
    pub open spec fn ignore(self) -> Transition {
        self.go(self.phase, ActionView::Ignore, seq![])
    }

    /// The step of an established session on a tick of the keepalive timer.
    pub open spec fn on_tick(self) -> Transition {
        if !self.keepalive {
            self.go(Phase::Established, ActionView::Listen, seq![])
        } else if self.liveness == Liveness::AwaitingPong {
            self.leave(self.logger.records("Didn't receive pong from client"@))
        } else {
            self.go(Phase::Pinging, ActionView::Write(ping_frame()), seq![])
        }
    }

    /// The step of an established session on a frame.
    pub open spec fn on_frame(self, opcode: OpCode, payload: Seq<u8>) -> Transition {
        match opcode {
            OpCode::Text | OpCode::Binary => self.go(
                Phase::Echoing,
                ActionView::Write(echo_frame(opcode, payload)),
                self.logger.records(logged_text(payload)),
            ),
            OpCode::Close => self.leave(seq![]),
            OpCode::Pong => Transition {
                next: SessionState { liveness: Liveness::AwaitingActivity, ..self },
                reaction: ReactionView { action: ActionView::Listen, records: seq![] },
            },
            _ => self.go(Phase::Established, ActionView::Listen, seq![]),
        }
    }

    /// The step of the session on an event.
    pub open spec fn step(self, event: Event) -> Transition {
        match self.phase {
            Phase::Established => match event {
                Event::PingTick => self.on_tick(),
                Event::Frame { opcode, payload } => self.on_frame(opcode, payload@),
                Event::ReadFailed => self.leave(seq![]),
                Event::Cancelled => self.leave(seq![]),
                _ => self.ignore(),
            },
            Phase::Pinging => match event {
                Event::Written { elapsed } => Transition {
                    next: SessionState {
                        phase: Phase::Established,
                        liveness: Liveness::AwaitingPong,
                        ..self
                    },
                    reaction: ReactionView { action: ActionView::Listen, records: seq![] },
                },
                Event::WriteFailed { error } => self.leave(seq![]),
                _ => self.ignore(),
            },
            Phase::Echoing => match event {
                Event::Written { elapsed } => self.go(
                    Phase::Established,
                    ActionView::Listen,
                    self.logger.records(echoed_in(elapsed)),
                ),
                Event::WriteFailed { error } => self.leave(self.logger.records(send_error(error@))),
                _ => self.ignore(),
            },
            Phase::Closing => match event {
                Event::Transport { closed } => if closed {
                    self.go(Phase::Closed, ActionView::Finish, self.logger.records("connection closed"@))
                } else {
                    self.go(
                        Phase::Draining,
                        ActionView::SendClose { code: NORMAL_CLOSURE, grace_millis: CLOSE_GRACE_MILLIS },
                        seq![],
                    )
                },
                _ => self.ignore(),
            },
            Phase::Draining => match event {
                Event::CloseAttempted => self.go(
                    Phase::Closed,
                    ActionView::Finish,
                    self.logger.records("connection closed"@),
                ),
                _ => self.ignore(),
            },
            Phase::Closed => self.ignore(),
        }
    }
}

/// One record or none, as a list.
fn listed(record: Option<LogRecord>) -> (records: Vec<LogRecord>)
    ensures
        records.deep_view() == match record.deep_view() {
            Some(r) => seq![r],
            None => seq![],
        },
{
    let mut records: Vec<LogRecord> = Vec::new();
    match record {
        Some(r) => {
            records.push(r);
            assert(records.deep_view() =~= seq![r@]);
        },
        None => {
            assert(records.deep_view() =~= Seq::<RecordView>::empty());
        },
    }
    records
}

/// One upgraded connection, from the moment it is established until it is
/// dropped.
#[derive(Debug)]
pub struct Session {
    data: SessionData,
    phase: Phase,
    liveness: Liveness,
}

impl View for Session {
    type V = SessionState;

    closed spec fn view(&self) -> SessionState {
        SessionState {
            logger: self.data.logger(),
            keepalive: self.data.ping_interval().is_some(),
            phase: self.phase,
            liveness: self.liveness,
        }
    }
}

impl Session {
    /// What the session was given from outside.
    pub closed spec fn session_data(self) -> SessionData {
        self.data
    }

    /// A session on a connection that has just been upgraded. It reports
    /// that the connection is established, and the driver is to listen.
    pub fn establish(data: SessionData) -> (begun: (Session, Reaction))
        ensures
            begun.0@ == SessionState::initial(data),
            begun.0.session_data() == data,
            begun.1@ == (ReactionView {
                action: ActionView::Listen,
                records: data.logger().records("connection established"@),
            }),
    {
        let records = listed(data.ws_logger.log_connection_established());
        let session = Session {
            data,
            phase: Phase::Established,
            liveness: Liveness::AwaitingActivity,
        };
        (session, Reaction { action: Action::Listen, records })
    }

    /// The phase of the session.
    pub fn phase(&self) -> (phase: Phase)
        ensures
            phase == self@.phase,
    {
        self.phase
    }

    /// Whether the peer owes the session a pong.
    pub fn liveness(&self) -> (liveness: Liveness)
        ensures
            liveness == self@.liveness,
    {
        self.liveness
    }

    /// What the session was given from outside.
    pub fn data(&self) -> (data: SessionData)
        ensures
            data == self.session_data(),
    {
        self.data
    }

    fn react(&mut self, phase: Phase, action: Action, records: Vec<LogRecord>) -> (reaction: Reaction)
        ensures
            final(self)@ == old(self)@.in_phase(phase),
            final(self).session_data() == old(self).session_data(),
            reaction@ == (ReactionView { action: action@, records: records.deep_view() }),
    {
        self.phase = phase;
        Reaction { action, records }
    }

    fn leave(&mut self, records: Vec<LogRecord>) -> (reaction: Reaction)
        ensures
            final(self).session_data() == old(self).session_data(),
            (Transition { next: final(self)@, reaction: reaction@ }) == old(self)@.leave(
                records.deep_view(),
            ),
    {
        self.react(Phase::Closing, Action::CheckTransport, records)
    }

    fn ignore(&mut self) -> (reaction: Reaction)
        ensures
            final(self).session_data() == old(self).session_data(),
            (Transition { next: final(self)@, reaction: reaction@ }) == old(self)@.ignore(),
    {
        let records: Vec<LogRecord> = Vec::new();
        assert(records.deep_view() =~= Seq::<RecordView>::empty());
        let phase = self.phase;
        self.react(phase, Action::Ignore, records)
    }

    fn none() -> (records: Vec<LogRecord>)
        ensures
            records.deep_view() == Seq::<RecordView>::empty(),
    {
        let records: Vec<LogRecord> = Vec::new();
        assert(records.deep_view() =~= Seq::<RecordView>::empty());
        records
    }

    fn on_tick(&mut self) -> (reaction: Reaction)
        requires
            old(self)@.phase == Phase::Established,
        ensures
            final(self).session_data() == old(self).session_data(),
            (Transition { next: final(self)@, reaction: reaction@ }) == old(self)@.on_tick(),
    {
        if self.data.ws_ping_interval.is_none() {
            self.react(Phase::Established, Action::Listen, Session::none())
        } else if self.liveness == Liveness::AwaitingPong {
            let records = listed(self.data.ws_logger.log("Didn't receive pong from client"));
            self.leave(records)
        } else {
            let ping = Frame { fin: true, opcode: OpCode::Ping, payload: Vec::new() };
            self.react(Phase::Pinging, Action::Write(ping), Session::none())
        }
    }

    fn on_frame(&mut self, opcode: OpCode, payload: Vec<u8>) -> (reaction: Reaction)
        requires
            old(self)@.phase == Phase::Established,
        ensures
            final(self).session_data() == old(self).session_data(),
            (Transition { next: final(self)@, reaction: reaction@ }) == old(self)@.on_frame(
                opcode,
                payload@,
            ),
    {
        match opcode {
            OpCode::Text => {
                let text = utf8_lossy(payload.as_slice());
                let records = listed(self.data.ws_logger.log(text.as_str()));
                proof {
                    if valid_utf8(payload@) {
                        decode_utf8_encode_utf8(payload@);
                    }
                }
                let echo = Frame { fin: true, opcode, payload: text.as_str().as_bytes_vec() };
                self.react(Phase::Echoing, Action::Write(echo), records)
            },
            OpCode::Binary => {
                let text = utf8_lossy(payload.as_slice());
                let records = listed(self.data.ws_logger.log(text.as_str()));
                let echo = Frame { fin: true, opcode, payload };
                self.react(Phase::Echoing, Action::Write(echo), records)
            },
            OpCode::Close => self.leave(Session::none()),
            OpCode::Pong => {
                self.liveness = Liveness::AwaitingActivity;
                self.react(Phase::Established, Action::Listen, Session::none())
            },
            _ => self.react(Phase::Established, Action::Listen, Session::none()),
        }
    }

    /// What the task of an upgraded connection begins with. Where the
    /// upgrade succeeded, a session is established on the connection; where
    /// it failed with an error, there is no session, and the answer is the
    /// warning to log.
    pub fn begin(plan: SessionPlan, upgraded: Result<(), String>) -> (begun: Result<
        (Session, Reaction),
        String,
    >)
        ensures
            match upgraded {
                Ok(_) => begun matches Ok(pair) && pair.0@ == SessionState::initial(plan.data)
                    && pair.0.session_data() == plan.data && pair.1@ == (ReactionView {
                    action: ActionView::Listen,
                    records: plan.data.logger().records("connection established"@),
                }),
                Err(error) => begun matches Err(warning) && warning@ == upgrade_warning(error@),
            },
    {
        match upgraded {
            Ok(_) => Ok(Session::establish(plan.data)),
            Err(error) => {
                let mut warning = String::from_str("Failed to establish websocket connection: ");
                warning.append(error.as_str());
                Err(warning)
            },
        }
    }

    /// Takes one event and answers with the records to emit and the action
    /// to perform. An event that does not concern the session in its phase
    /// changes nothing and is answered with `Ignore`.
    pub fn step(&mut self, event: Event) -> (reaction: Reaction)
        ensures
            final(self).session_data() == old(self).session_data(),
            (Transition { next: final(self)@, reaction: reaction@ }) == old(self)@.step(event),
    {
        match self.phase {
            Phase::Established => match event {
                Event::PingTick => self.on_tick(),
                Event::Frame { opcode, payload } => self.on_frame(opcode, payload),
                Event::ReadFailed => self.leave(Session::none()),
                Event::Cancelled => self.leave(Session::none()),
                _ => self.ignore(),
            },
            Phase::Pinging => match event {
                Event::Written { elapsed } => {
                    self.liveness = Liveness::AwaitingPong;
                    self.react(Phase::Established, Action::Listen, Session::none())
                },
                Event::WriteFailed { error } => self.leave(Session::none()),
                _ => self.ignore(),
            },
            Phase::Echoing => match event {
                Event::Written { elapsed } => {
                    let records = listed(self.data.ws_logger.log_duration(elapsed));
                    self.react(Phase::Established, Action::Listen, records)
                },
                Event::WriteFailed { error } => {
                    let mut message = String::from_str("Error sending ws frame: ");
                    message.append(error.as_str());
                    let records = listed(self.data.ws_logger.log(message.as_str()));
                    self.leave(records)
                },
                _ => self.ignore(),
            },
            Phase::Closing => match event {
                Event::Transport { closed } => {
                    if closed {
                        let records = listed(self.data.ws_logger.log_connection_closed());
                        self.react(Phase::Closed, Action::Finish, records)
                    } else {
                        self.react(
                            Phase::Draining,
                            Action::SendClose {
                                code: NORMAL_CLOSURE,
                                grace_millis: CLOSE_GRACE_MILLIS,
                            },
                            Session::none(),
                        )
                    }
                },
                _ => self.ignore(),
            },
            Phase::Draining => match event {
                Event::CloseAttempted => {
                    let records = listed(self.data.ws_logger.log_connection_closed());
                    self.react(Phase::Closed, Action::Finish, records)
                },
                _ => self.ignore(),
            },
            Phase::Closed => self.ignore(),
        }
    }
}

} // verus!
