//! What transport diagnostics report, one record for each event.
use vstd::prelude::*;

verus! {

/// The logging target under which the records appear.
pub const TARGET: &'static str = "codex_websocket_client::transport";

/// How much a record matters.
#[derive(Debug, Clone, Copy, PartialEq, Eq, Structural)]
pub enum Level {
    Debug,
    Info,
    Warn,
}

/// A socket's addresses and the state it was found in.
#[derive(Debug, PartialEq, Eq)]
pub struct SocketInfo {
    pub local_addr: String,
    pub peer_addr: String,
    pub snapshot: String,
}

/// An operating system error of a socket operation.
#[derive(Debug, PartialEq, Eq)]
pub struct IoFailure {
    pub text: String,
    pub kind: String,
    pub raw_os_error: Option<i32>,
}

/// An error of a WebSocket operation.
#[derive(Debug, PartialEq, Eq)]
pub struct WebSocketFailure {
    pub text: String,
    /// The error of the socket below, where that is what failed.
    pub io: Option<IoFailure>,
}

/// One record, with the identifier of the connection that it is about. A `state` is the account
/// of the connection in one line.
#[derive(Debug, PartialEq, Eq)]
pub enum TransportEvent {
    ConnectionCreated { connection_id: u64, created_at_unix_ms: u128, url: String, route: String },
    TcpResolved { connection_id: u64, authority: String, addresses: String },
    TcpConnected { connection_id: u64, fd: i32, socket: SocketInfo },
    HandshakeSucceeded { connection_id: u64, websocket_status: u16, lifetime_ms: u64 },
    ControlFrame {
        connection_id: u64,
        direction: &'static str,
        kind: &'static str,
        payload_bytes: u64,
        close: Option<(String, String)>,
        lifetime_ms: u64,
    },
    DataMessage {
        connection_id: u64,
        direction: &'static str,
        kind: &'static str,
        payload_bytes: u64,
        lifetime_ms: u64,
    },
    WebSocketError {
        connection_id: u64,
        operation: &'static str,
        error: String,
        io_kind: Option<String>,
        raw_os_error: Option<i32>,
        fd: i32,
        state: String,
    },
    StreamEnded { connection_id: u64, state: String },
    CloseStarted { connection_id: u64, lifetime_ms: u64 },
    ConnectionDropped { connection_id: u64, fd: i32, state: String },
    ReadZero { connection_id: u64, fd: i32, socket: SocketInfo, state: String },
    IoError {
        connection_id: u64,
        operation: &'static str,
        failure: IoFailure,
        fd: i32,
        socket: SocketInfo,
        state: String,
    },
    WriteShutdown {
        connection_id: u64,
        fd: i32,
        local_addr: String,
        peer_addr: String,
        state: String,
    },
    TransportDropped { connection_id: u64, fd: i32, socket: SocketInfo, state: String },
}

impl TransportEvent {
    /// The name of the event.
    pub open spec fn event_name(&self) -> Seq<char> {
        match *self {
            TransportEvent::ConnectionCreated { .. } => "connection_created"@,
            TransportEvent::TcpResolved { .. } => "tcp_resolved"@,
            TransportEvent::TcpConnected { .. } => "tcp_connected"@,
            TransportEvent::HandshakeSucceeded { .. } => "handshake_succeeded"@,
            TransportEvent::ControlFrame { .. } => "websocket_control_frame"@,
            TransportEvent::DataMessage { .. } => "websocket_message"@,
            TransportEvent::WebSocketError { .. } => "websocket_error"@,
            TransportEvent::StreamEnded { .. } => "websocket_stream_ended"@,
            TransportEvent::CloseStarted { .. } => "local_websocket_close_started"@,
            TransportEvent::ConnectionDropped { .. } => "websocket_object_dropped"@,
            TransportEvent::ReadZero { .. } => "raw_tcp_read_zero"@,
            TransportEvent::IoError { .. } => "raw_tcp_io_error"@,
            TransportEvent::WriteShutdown { .. } => "local_tcp_write_shutdown_polled"@,
            TransportEvent::TransportDropped { .. } => "raw_tcp_transport_dropped"@,
        }
    }

    /// How much the event matters: data messages are routine, what ends or breaks a connection
    /// is a warning, and the rest is information.
    pub open spec fn event_level(&self) -> Level {
        match *self {
            TransportEvent::DataMessage { .. } => Level::Debug,
            TransportEvent::ConnectionCreated { .. } => Level::Info,
            TransportEvent::TcpResolved { .. } => Level::Info,
            TransportEvent::TcpConnected { .. } => Level::Info,
            TransportEvent::HandshakeSucceeded { .. } => Level::Info,
            TransportEvent::ControlFrame { .. } => Level::Info,
            TransportEvent::CloseStarted { .. } => Level::Info,
            _ => Level::Warn,
        }
    }

    /// The connection that the event is about.
    pub open spec fn connection(&self) -> u64 {
        match *self {
            TransportEvent::ConnectionCreated { connection_id, .. } => connection_id,
            TransportEvent::TcpResolved { connection_id, .. } => connection_id,
            TransportEvent::TcpConnected { connection_id, .. } => connection_id,
            TransportEvent::HandshakeSucceeded { connection_id, .. } => connection_id,
            TransportEvent::ControlFrame { connection_id, .. } => connection_id,
            TransportEvent::DataMessage { connection_id, .. } => connection_id,
            TransportEvent::WebSocketError { connection_id, .. } => connection_id,
            TransportEvent::StreamEnded { connection_id, .. } => connection_id,
            TransportEvent::CloseStarted { connection_id, .. } => connection_id,
            TransportEvent::ConnectionDropped { connection_id, .. } => connection_id,
            TransportEvent::ReadZero { connection_id, .. } => connection_id,
            TransportEvent::IoError { connection_id, .. } => connection_id,
            TransportEvent::WriteShutdown { connection_id, .. } => connection_id,
            TransportEvent::TransportDropped { connection_id, .. } => connection_id,
        }
    }

    /// Names the event.
    pub fn name(&self) -> (name: &'static str)
        ensures
            name@ == self.event_name(),
    {
        match self {
            TransportEvent::ConnectionCreated { .. } => "connection_created",
            TransportEvent::TcpResolved { .. } => "tcp_resolved",
            TransportEvent::TcpConnected { .. } => "tcp_connected",
            TransportEvent::HandshakeSucceeded { .. } => "handshake_succeeded",
            TransportEvent::ControlFrame { .. } => "websocket_control_frame",
            TransportEvent::DataMessage { .. } => "websocket_message",
            TransportEvent::WebSocketError { .. } => "websocket_error",
            TransportEvent::StreamEnded { .. } => "websocket_stream_ended",
            TransportEvent::CloseStarted { .. } => "local_websocket_close_started",
            TransportEvent::ConnectionDropped { .. } => "websocket_object_dropped",
            TransportEvent::ReadZero { .. } => "raw_tcp_read_zero",
            TransportEvent::IoError { .. } => "raw_tcp_io_error",
            TransportEvent::WriteShutdown { .. } => "local_tcp_write_shutdown_polled",
            TransportEvent::TransportDropped { .. } => "raw_tcp_transport_dropped",
        }
    }

    /// Tells how much the event matters.
    pub fn level(&self) -> (level: Level)
        ensures
            level == self.event_level(),
    {
        match self {
            TransportEvent::DataMessage { .. } => Level::Debug,
            TransportEvent::ConnectionCreated { .. } => Level::Info,
            TransportEvent::TcpResolved { .. } => Level::Info,
            TransportEvent::TcpConnected { .. } => Level::Info,
            TransportEvent::HandshakeSucceeded { .. } => Level::Info,
            TransportEvent::ControlFrame { .. } => Level::Info,
            TransportEvent::CloseStarted { .. } => Level::Info,
            _ => Level::Warn,
        }
    }
}

/// Every kind of event has its own name.
pub proof fn events_are_named_by_kind(event: TransportEvent)
    ensures
        event is ConnectionCreated ==> event.event_name() == "connection_created"@,
        event is TcpResolved ==> event.event_name() == "tcp_resolved"@,
        event is TcpConnected ==> event.event_name() == "tcp_connected"@,
        event is HandshakeSucceeded ==> event.event_name() == "handshake_succeeded"@,
        event is ControlFrame ==> event.event_name() == "websocket_control_frame"@,
        event is DataMessage ==> event.event_name() == "websocket_message"@,
        event is WebSocketError ==> event.event_name() == "websocket_error"@,
        event is StreamEnded ==> event.event_name() == "websocket_stream_ended"@,
        event is CloseStarted ==> event.event_name() == "local_websocket_close_started"@,
        event is ConnectionDropped ==> event.event_name() == "websocket_object_dropped"@,
        event is ReadZero ==> event.event_name() == "raw_tcp_read_zero"@,
        event is IoError ==> event.event_name() == "raw_tcp_io_error"@,
        event is WriteShutdown ==> event.event_name() == "local_tcp_write_shutdown_polled"@,
        event is TransportDropped ==> event.event_name() == "raw_tcp_transport_dropped"@,
{
}

/// Only data messages are routine; opening, connecting, control frames and the beginning of closing
/// are information; all else that ends or breaks a connection is a warning.
pub proof fn endings_and_failures_warn(event: TransportEvent)
    ensures
        event.event_level() == Level::Debug <==> event is DataMessage,
        event.event_level() == Level::Warn <==> (event is WebSocketError || event is StreamEnded
            || event is ConnectionDropped || event is ReadZero || event is IoError
            || event is WriteShutdown || event is TransportDropped),
        event.event_level() == Level::Info <==> (event is ConnectionCreated || event is TcpResolved
            || event is TcpConnected || event is HandshakeSucceeded || event is ControlFrame
            || event is CloseStarted),
{
}

} // verus!
