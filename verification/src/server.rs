//! The server: the turns of its accept loop, and the watch it keeps over each
//! connection.
//!
//! The driver owns the listening socket and the shutdown signal. It waits
//! for a connection or for the signal, whichever comes first, and hands what
//! came to `EchoServer::run`. For every connection that the server takes, the
//! driver serves the connection with the service it was given and reports to
//! the connection's `Connection` how that went. What goes wrong with one
//! connection, be it while it is accepted or while it is served, ends that
//! connection and nothing else.

use crate::custom_logger::LoggerService;
use crate::log_utils::HttpLogLevel;
use crate::record::{ClientIp, Span};
use crate::service::{make_service, EchoService};
use std::time::Duration;
use vstd::prelude::*;
use vstd::string::*;

verus! {

/// Where the server listens.
#[derive(Debug, Clone, Copy)]
pub struct BindAddr {
    /// The four octets of the address, most significant first.
    pub ip: (u8, u8, u8, u8),
    /// The port; 0 for any free port.
    pub port: u16,
}

/// What one wait of the accept loop came to.
#[derive(Debug, PartialEq, Eq)]
pub enum Accept {
    /// A client connected from this address.
    Connection { client_ip: ClientIp },
    /// Accepting a connection failed with this error.
    Failed { error: String },
    /// The shutdown signal fired.
    Cancelled,
}

/// Where the watch over a connection stands.
#[derive(Debug, Clone, Copy, PartialEq, Eq, Structural)]
pub enum ConnectionPhase {
    /// The connection is being served.
    Serving,
    /// The connection was told to shut down and is finishing its work.
    Draining,
    /// Nothing is left to do.
    Done,
}

/// What happened to a connection that is being served.
#[derive(Debug)]
pub enum ConnectionEvent {
    /// Serving the connection ended without an error.
    Finished,
    /// Serving the connection ended with this error.
    Failed { error: String },
    /// The shutdown signal fired.
    Cancelled,
}

/// What the driver is to do with a connection next.
#[derive(Debug, Clone, Copy, PartialEq, Eq, Structural)]
pub enum ConnectionAction {
    /// Tell the connection to shut down gracefully, serve it until it ends,
    /// and report how it ended.
    ShutDown,
    /// Drop the connection.
    Drop,
    /// Nothing: the event does not concern the connection in its phase.
    Ignore,
}

/// The warning for a connection that ended with an error.
pub open spec fn connection_warning(error: Seq<char>) -> Seq<char> {
    "Error processing connection: "@ + error
}

/// A step of the watch over a connection: the phase it moves to, what the
/// driver is to do, and the warning to log, if any.
pub open spec fn connection_step(phase: ConnectionPhase, event: ConnectionEvent) -> (
    ConnectionPhase,
    ConnectionAction,
    Option<Seq<char>>,
) {
    match phase {
        ConnectionPhase::Serving => match event {
            ConnectionEvent::Finished => (ConnectionPhase::Done, ConnectionAction::Drop, None),
            ConnectionEvent::Failed { error } => (
                ConnectionPhase::Done,
                ConnectionAction::Drop,
                Some(connection_warning(error@)),
            ),
            ConnectionEvent::Cancelled => (
                ConnectionPhase::Draining,
                ConnectionAction::ShutDown,
                None,
            ),
        },
        ConnectionPhase::Draining => match event {
            ConnectionEvent::Cancelled => (ConnectionPhase::Draining, ConnectionAction::Ignore, None),
            _ => (ConnectionPhase::Done, ConnectionAction::Drop, None),
        },
        ConnectionPhase::Done => (ConnectionPhase::Done, ConnectionAction::Ignore, None),
    }
}

/// The watch over one connection that is being served.
#[derive(Debug)]
pub struct Connection {
    phase: ConnectionPhase,
}

impl View for Connection {
    type V = ConnectionPhase;

    closed spec fn view(&self) -> ConnectionPhase {
        self.phase
    }
}

impl Connection {
    /// The watch over a connection that has just been taken.
    pub fn new() -> (connection: Connection)
        ensures
            connection@ == ConnectionPhase::Serving,
    {
        Connection { phase: ConnectionPhase::Serving }
    }

    /// The phase of the connection.
    pub fn phase(&self) -> (phase: ConnectionPhase)
        ensures
            phase == self@,
    {
        self.phase
    }

    /// Takes what happened to the connection and says what to do next.
    ///
    /// A connection that ends while it is served is dropped, with a warning
    /// if it ended with an error. A connection that is cancelled is told to
    /// shut down and is served until it ends; how it ends then is of no
    /// account.
    pub fn step(&mut self, event: ConnectionEvent) -> (reaction: (ConnectionAction, Option<String>))
        ensures
            (final(self)@, reaction.0, reaction.1.deep_view()) == connection_step(
                old(self)@,
                event,
            ),
    {
        match self.phase {
            ConnectionPhase::Serving => match event {
                ConnectionEvent::Finished => {
                    self.phase = ConnectionPhase::Done;
                    (ConnectionAction::Drop, None)
                },
                ConnectionEvent::Failed { error } => {
                    self.phase = ConnectionPhase::Done;
                    let mut warning = String::from_str("Error processing connection: ");
                    warning.append(error.as_str());
                    (ConnectionAction::Drop, Some(warning))
                },
                ConnectionEvent::Cancelled => {
                    self.phase = ConnectionPhase::Draining;
                    (ConnectionAction::ShutDown, None)
                },
            },
            ConnectionPhase::Draining => match event {
                ConnectionEvent::Cancelled => (ConnectionAction::Ignore, None),
                _ => {
                    self.phase = ConnectionPhase::Done;
                    (ConnectionAction::Drop, None)
                },
            },
            ConnectionPhase::Done => (ConnectionAction::Ignore, None),
        }
    }
}

/// What the server does after one wait of the accept loop.
#[derive(Debug)]
pub enum Turn {
    /// Serve the new connection with this service, under this watch, and
    /// wait for the next connection.
    Serve { service: LoggerService<EchoService>, connection: Connection },
    /// Accepting a connection failed: log this warning, and wait for the
    /// next connection.
    Report { warning: String },
    /// Stop: the server was shut down.
    Stop,
    /// Nothing: the server has stopped.
    Ignore,
}

/// The warning for a connection that could not be accepted.
pub open spec fn accept_warning(error: Seq<char>) -> Seq<char> {
    "Error accepting connection: "@ + error
}

/// The state of the accept loop.
pub ghost struct Acceptor {
    /// The number of connections taken so far, which is the id of the next.
    pub taken: nat,
    /// True once the loop has ended.
    pub stopped: bool,
}

/// What a turn of the accept loop comes to.
pub ghost enum TurnKind {
    /// A connection is taken and gets this id.
    Serve { client_ip: ClientIp, id: nat },
    /// A connection could not be accepted, which is reported with this
    /// warning.
    Report { warning: Seq<char> },
    Stop,
    Ignore,
}

impl Acceptor {
    /// The turn of the accept loop on what a wait came to. Only the shutdown
    /// signal ends the loop: a failure to accept a connection is reported,
    /// and the loop goes on with the same count.
    pub open spec fn turn(self, accept: Accept) -> (Acceptor, TurnKind) {
        if self.stopped {
            (self, TurnKind::Ignore)
        } else {
            match accept {
                Accept::Connection { client_ip } => (
                    Acceptor { taken: self.taken + 1, stopped: false },
                    TurnKind::Serve { client_ip, id: self.taken },
                ),
                Accept::Failed { error } => (
                    self,
                    TurnKind::Report { warning: accept_warning(error@) },
                ),
                Accept::Cancelled => (Acceptor { stopped: true, ..self }, TurnKind::Stop),
            }
        }
    }
}

/// An echo server: what every connection is set up with, and where the
/// accept loop stands.
#[derive(Debug)]
pub struct EchoServer {
    port: Option<u16>,
    http_log_level: HttpLogLevel,
    ws_logging_enabled: bool,
    ws_ping_interval: Option<Duration>,
    connection_id: u64,
    stopped: bool,
}

impl View for EchoServer {
    type V = Acceptor;

    closed spec fn view(&self) -> Acceptor {
        Acceptor { taken: self.connection_id as nat, stopped: self.stopped }
    }
}

impl EchoServer {
    /// The port that the server was asked to listen on, if any.
    pub closed spec fn port(self) -> Option<u16> {
        self.port
    }

    /// The level at which the server logs HTTP traffic.
    pub closed spec fn log_level(self) -> HttpLogLevel {
        self.http_log_level
    }

    /// Whether the server logs its WebSocket sessions.
    pub closed spec fn ws_logging(self) -> bool {
        self.ws_logging_enabled
    }

    /// The interval of the keepalive pings of the server's sessions.
    pub closed spec fn ping_interval(self) -> Option<Duration> {
        self.ws_ping_interval
    }

    /// True of the service that the server sets up for connection `id` from
    /// `client_ip`.
    pub open spec fn sets_up(
        self,
        service: LoggerService<EchoService>,
        client_ip: ClientIp,
        id: u64,
    ) -> bool {
        &&& service.logger().level() == self.log_level()
        &&& service.logger().span() == Span::client(client_ip, id)
        &&& service.inner().session_data().logger().span() == if self.ws_logging() {
            Some(Span::ws_client(client_ip, id))
        } else {
            None
        }
        &&& service.inner().session_data().ping_interval() == self.ping_interval()
    }

    /// A server that has taken no connection yet and sends no pings.
    pub fn new(port: Option<u16>, http_log_level: HttpLogLevel, ws_logging_enabled: bool) -> (server:
        EchoServer)
        ensures
            server@ == (Acceptor { taken: 0, stopped: false }),
            server.port() == port,
            server.log_level() == http_log_level,
            server.ws_logging() == ws_logging_enabled,
            server.ping_interval().is_none(),
    {
        EchoServer {
            port,
            http_log_level,
            ws_logging_enabled,
            ws_ping_interval: None,
            connection_id: 0,
            stopped: false,
        }
    }

    /// Where the server is to listen: on the loopback address, on the port
    /// it was given or, without one, on any free port.
    pub fn bind_addr(&self) -> (addr: BindAddr)
        ensures
            addr.ip == (127u8, 0u8, 0u8, 1u8),
            addr.port == match self.port() {
                Some(port) => port,
                None => 0,
            },
    {
        let port = match self.port {
            Some(port) => port,
            None => 0,
        };
        BindAddr { ip: (127, 0, 0, 1), port }
    }

    /// Sets the interval of the keepalive pings of the sessions of
    /// connections taken from now on; `None` for no pings.
    pub fn set_ws_ping_interval(&mut self, ping_interval: Option<Duration>)
        ensures
            final(self).ping_interval() == ping_interval,
            final(self)@ == old(self)@,
            final(self).port() == old(self).port(),
            final(self).log_level() == old(self).log_level(),
            final(self).ws_logging() == old(self).ws_logging(),
    {
        self.ws_ping_interval = ping_interval;
    }

    /// True while the server has an id left for its next connection.
    pub fn has_ids_left(&self) -> (yes: bool)
        ensures
            yes == (self@.taken < u64::MAX),
    {
        self.connection_id < u64::MAX
    }

    /// True once the accept loop has ended.
    pub fn is_stopped(&self) -> (yes: bool)
        ensures
            yes == self@.stopped,
    {
        self.stopped
    }

    /// One turn of the accept loop.
    ///
    /// A connection gets the next id, counted from 0, and a service and a
    /// watch of its own. A failure to accept a connection is answered with a
    /// warning to log; the loop goes on, and the next connection gets the id
    /// that the failed one would have got. The shutdown signal ends the loop,
    /// and once it has ended no connection is taken any more. A server that
    /// still runs can take a connection as long as it has an id left for it.
    pub fn run(&mut self, accept: Accept) -> (turn: Turn)
        requires
            accept is Connection && !old(self)@.stopped ==> old(self)@.taken < u64::MAX,
        ensures
            final(self)@ == old(self)@.turn(accept).0,
            final(self).port() == old(self).port(),
            final(self).log_level() == old(self).log_level(),
            final(self).ws_logging() == old(self).ws_logging(),
            final(self).ping_interval() == old(self).ping_interval(),
            match old(self)@.turn(accept).1 {
                TurnKind::Serve { client_ip, id } => turn matches Turn::Serve { service, connection }
                    && id <= u64::MAX && old(self).sets_up(service, client_ip, id as u64)
                    && connection@ == ConnectionPhase::Serving,
                TurnKind::Report { warning } => turn matches Turn::Report { warning: text }
                    && text@ == warning,
                TurnKind::Stop => turn is Stop,
                TurnKind::Ignore => turn is Ignore,
            },
    {
        if self.stopped {
            return Turn::Ignore;
        }
        match accept {
            Accept::Connection { client_ip } => {
                let (service, connection) = self.process_connection(client_ip, self.connection_id);
                self.connection_id = self.connection_id + 1;
                Turn::Serve { service, connection }
            },
            Accept::Failed { error } => {
                let mut warning = String::from_str("Error accepting connection: ");
                warning.append(error.as_str());
                Turn::Report { warning }
            },
            Accept::Cancelled => {
                self.stopped = true;
                Turn::Stop
            },
        }
    }

    /// The service and the watch of connection `id` from `client_ip`.
    pub fn process_connection(&self, client_ip: ClientIp, id: u64) -> (set_up: (
        LoggerService<EchoService>,
        Connection,
    ))
        ensures
            self.sets_up(set_up.0, client_ip, id),
            set_up.1@ == ConnectionPhase::Serving,
    {
        let service = make_service(
            self.http_log_level,
            self.ws_logging_enabled,
            self.ws_ping_interval,
            client_ip,
            id,
        );
        (service, Connection::new())
    }
}

} // verus!
