//! The running account of one connection's transport, and the records it gives rise to.
use vstd::prelude::*;
use vstd::string::*;
use crate::diagnostics_switch::diagnostics_enabled;
use crate::diagnostics_switch::switches_on;
use crate::format_text::decimal;
use crate::format_text::flag;
use crate::format_text::optional_decimal;
use crate::format_text::push_decimal;
use crate::format_text::push_flag;
use crate::format_text::push_optional_decimal;
use crate::message::close_details;
use crate::message::details_texts;
use crate::message::message_kind;
use crate::message::Message;
use crate::redacted_uri::redacted_parts;
use crate::redacted_uri::redacted_text;
use crate::redacted_uri::redacted_uri;
use crate::redacted_uri::unmarked;
use crate::redacted_uri::UriParts;
use crate::transport_event::IoFailure;
use crate::transport_event::SocketInfo;
use crate::transport_event::TransportEvent;
use crate::transport_event::WebSocketFailure;
use crate::utf8_text::text_eq;

verus! {

/// The time of something that has not happened.
pub const NEVER: u64 = u64::MAX;

/// The descriptor of a socket that is not there.
pub const NO_FD: i32 = -1;

/// Hands out connection identifiers, one behind the other.
#[derive(Debug, Clone, Copy, PartialEq, Eq, Structural)]
pub struct ConnectionIds {
    pub next: u64,
}

/// The account of one connection's transport. Byte counts wrap around at the end of their range.
#[derive(Debug, Clone, Copy, PartialEq, Eq, Structural)]
pub struct TransportDiagnostics {
    pub connection_id: u64,
    pub raw_bytes_read: u64,
    pub raw_bytes_written: u64,
    pub websocket_bytes_read: u64,
    pub websocket_bytes_written: u64,
    /// When something was last read, or [`NEVER`].
    pub last_read_ms: u64,
    /// When something was last written, or [`NEVER`].
    pub last_write_ms: u64,
    pub read_zero: bool,
    pub local_write_shutdown: bool,
    pub websocket_close_started: bool,
    pub transport_dropped: bool,
    /// The descriptor of the socket, or [`NO_FD`] while there is none.
    pub fd: i32,
}

/// Something that happens to a connection and that its account keeps.
pub enum Activity {
    /// The socket was connected; the platform may give it a descriptor.
    Connected { fd: Option<i32> },
    /// A message passed in the named direction.
    Message { direction: Seq<char>, bytes: u64 },
    /// Bytes came from the socket.
    Read { bytes: u64, at: u64 },
    /// Bytes went to the socket.
    Write { bytes: u64, at: u64 },
    /// The socket came to its end.
    ReadZero,
    /// This side began to close the WebSocket.
    CloseStarted,
    /// This side began to shut the socket down for writing.
    WriteShutdown,
    /// The socket was let go.
    TransportDropped,
}

/// The identifier that is handed out after `id`.
pub open spec fn following_id(id: u64) -> u64 {
    id.wrapping_add(1)
}

/// The identifier that is handed out `n` identifiers after `id`.
pub open spec fn later_id(id: u64, n: nat) -> u64
    decreases n,
{
    if n == 0 {
        id
    } else {
        following_id(later_id(id, (n - 1) as nat))
    }
}

impl ConnectionIds {
    /// Starts with identifier 1.
    pub fn new() -> (ids: Self)
        ensures
            ids.next == 1,
    {
        ConnectionIds { next: 1 }
    }

    /// Hands out the next identifier.
    pub fn take(&mut self) -> (id: u64)
        ensures
            id == old(self).next,
            final(self).next == following_id(old(self).next),
            old(self).next < u64::MAX ==> final(self).next == old(self).next + 1,
            old(self).next == u64::MAX ==> final(self).next == 0,
    {
        let id: u64 = self.next;
        self.next = id.wrapping_add(1);
        id
    }
}

/// A time, unless it is [`NEVER`].
pub open spec fn time_of(value: u64) -> Option<u64> {
    if value == NEVER {
        None
    } else {
        Some(value)
    }
}

/// A time, unless it is [`NEVER`].
pub fn timestamp(value: u64) -> (time: Option<u64>)
    ensures
        time == time_of(value),
        time is None <==> value == u64::MAX,
        time matches Some(at) ==> at == value,
{
    if value != NEVER {
        Some(value)
    } else {
        None
    }
}

impl TransportDiagnostics {
    /// The account of a connection on which nothing has happened.
    pub open spec fn fresh(connection_id: u64) -> Self {
        TransportDiagnostics {
            connection_id,
            raw_bytes_read: 0,
            raw_bytes_written: 0,
            websocket_bytes_read: 0,
            websocket_bytes_written: 0,
            last_read_ms: NEVER,
            last_write_ms: NEVER,
            read_zero: false,
            local_write_shutdown: false,
            websocket_close_started: false,
            transport_dropped: false,
            fd: NO_FD,
        }
    }

    /// The account as one line, `lifetime_ms` into the connection's lifetime.
    pub open spec fn summary_text(&self, lifetime_ms: u64) -> Seq<char> {
        "lifetime_ms="@ + decimal(lifetime_ms as nat) + " raw_read="@ + decimal(
            self.raw_bytes_read as nat,
        ) + " raw_written="@ + decimal(self.raw_bytes_written as nat) + " ws_read="@ + decimal(
            self.websocket_bytes_read as nat,
        ) + " ws_written="@ + decimal(self.websocket_bytes_written as nat) + " last_read_ms="@
            + optional_decimal(time_of(self.last_read_ms)) + " last_write_ms="@ + optional_decimal(
            time_of(self.last_write_ms),
        ) + " read_zero="@ + flag(self.read_zero) + " local_write_shutdown="@ + flag(
            self.local_write_shutdown,
        ) + " websocket_close_started="@ + flag(self.websocket_close_started)
            + " transport_dropped="@ + flag(self.transport_dropped)
    }

    /// The account after something happened to the connection.
    pub open spec fn after(self, activity: Activity) -> Self {
        match activity {
            Activity::Connected { fd: Some(fd) } => TransportDiagnostics { fd, ..self },
            Activity::Connected { fd: None } => self,
            Activity::Message { direction, bytes } => if direction == "read"@ {
                TransportDiagnostics {
                    websocket_bytes_read: self.websocket_bytes_read.wrapping_add(bytes),
                    ..self
                }
            } else if direction == "write"@ {
                TransportDiagnostics {
                    websocket_bytes_written: self.websocket_bytes_written.wrapping_add(bytes),
                    ..self
                }
            } else {
                self
            },
            Activity::Read { bytes, at } => TransportDiagnostics {
                raw_bytes_read: self.raw_bytes_read.wrapping_add(bytes),
                last_read_ms: at,
                ..self
            },
            Activity::Write { bytes, at } => TransportDiagnostics {
                raw_bytes_written: self.raw_bytes_written.wrapping_add(bytes),
                last_write_ms: at,
                ..self
            },
            Activity::ReadZero => TransportDiagnostics { read_zero: true, ..self },
            Activity::CloseStarted => TransportDiagnostics {
                websocket_close_started: true,
                ..self
            },
            Activity::WriteShutdown => TransportDiagnostics { local_write_shutdown: true, ..self },
            Activity::TransportDropped => TransportDiagnostics { transport_dropped: true, ..self },
        }
    }

    /// Whether `event` reports a message of this connection.
    pub open spec fn reports_message(
        &self,
        direction: Seq<char>,
        message: &Message,
        lifetime_ms: u64,
        event: TransportEvent,
    ) -> bool {
        if message.control() {
            event matches TransportEvent::ControlFrame {
                connection_id,
                direction: to,
                kind,
                payload_bytes,
                close,
                lifetime_ms: at,
            } && connection_id == self.connection_id && to@ == direction && kind@ == message.kind()
                && payload_bytes as nat == message.size() && details_texts(close)
                == message.close_texts() && at == lifetime_ms
        } else {
            event matches TransportEvent::DataMessage {
                connection_id,
                direction: to,
                kind,
                payload_bytes,
                lifetime_ms: at,
            } && connection_id == self.connection_id && to@ == direction && kind@ == message.kind()
                && payload_bytes as nat == message.size() && at == lifetime_ms
        }
    }

    /// Whether `event` reports a failed operation on this connection's WebSocket.
    pub open spec fn reports_failure(
        &self,
        operation: Seq<char>,
        failure: WebSocketFailure,
        lifetime_ms: u64,
        event: TransportEvent,
    ) -> bool {
        event matches TransportEvent::WebSocketError {
            connection_id,
            operation: during,
            error,
            io_kind,
            raw_os_error,
            fd,
            state,
        } && connection_id == self.connection_id && during@ == operation && fd == self.fd && state@
            == self.summary_text(lifetime_ms) && error == failure.text && match failure.io {
            Some(io) => io_kind == Some(io.kind) && raw_os_error == io.raw_os_error,
            None => io_kind is None && raw_os_error is None,
        }
    }

    /// Whether `event` reports the end of this connection's stream of messages.
    pub open spec fn reports_stream_end(&self, lifetime_ms: u64, event: TransportEvent) -> bool {
        event matches TransportEvent::StreamEnded { connection_id, state } && connection_id
            == self.connection_id && state@ == self.summary_text(lifetime_ms)
    }

    /// Whether `event` reports that this connection's WebSocket was let go.
    pub open spec fn reports_drop(&self, lifetime_ms: u64, event: TransportEvent) -> bool {
        event matches TransportEvent::ConnectionDropped { connection_id, fd, state }
            && connection_id == self.connection_id && fd == self.fd && state@ == self.summary_text(
            lifetime_ms,
        )
    }

    /// Whether `event` reports that this connection's socket came to its end.
    pub open spec fn reports_read_zero(
        &self,
        socket: SocketInfo,
        lifetime_ms: u64,
        event: TransportEvent,
    ) -> bool {
        event matches TransportEvent::ReadZero { connection_id, fd, socket: found, state }
            && connection_id == self.connection_id && fd == self.fd && found == socket && state@
            == self.summary_text(lifetime_ms)
    }

    /// Whether `event` reports a failed operation on this connection's socket.
    pub open spec fn reports_io_error(
        &self,
        operation: Seq<char>,
        error: IoFailure,
        socket: SocketInfo,
        lifetime_ms: u64,
        event: TransportEvent,
    ) -> bool {
        event matches TransportEvent::IoError {
            connection_id,
            operation: during,
            failure,
            fd,
            socket: found,
            state,
        } && connection_id == self.connection_id && during@ == operation && failure == error && fd
            == self.fd && found == socket && state@ == self.summary_text(lifetime_ms)
    }

    /// Whether `event` reports that connection `connection_id` was opened to the target that a log
    /// shows as `shown`.
    pub open spec fn reports_creation(
        connection_id: u64,
        shown: Seq<char>,
        route: String,
        created_at_unix_ms: u128,
        event: TransportEvent,
    ) -> bool {
        event matches TransportEvent::ConnectionCreated {
            connection_id: id,
            created_at_unix_ms: at,
            url,
            route: via,
        } && id == connection_id && at == created_at_unix_ms && via == route && url@ == shown
    }

    /// Opens the account of a connection to `uri`, and reports it, if the environment's setting
    /// asks for diagnostics.
    pub fn from_env(
        setting: Option<&str>,
        ids: &mut ConnectionIds,
        uri: &UriParts,
        route: String,
        created_at_unix_ms: u128,
    ) -> (opened: Option<(Self, TransportEvent)>)
        ensures
            opened is Some <==> (setting matches Some(text) && switches_on(text@)),
            opened matches Some((diagnostics, event)) ==> {
                &&& diagnostics == Self::fresh(old(ids).next)
                &&& Self::reports_creation(
                    old(ids).next,
                    uri.shown(),
                    route,
                    created_at_unix_ms,
                    event,
                )
                &&& final(ids).next == following_id(old(ids).next)
            },
            opened is None ==> *final(ids) == *old(ids),
    {
        if diagnostics_enabled(setting) {
            Some(Self::new(ids, uri, route, created_at_unix_ms))
        } else {
            None
        }
    }

    /// Opens the account of a connection to `uri`, and reports it.
    pub fn new(
        ids: &mut ConnectionIds,
        uri: &UriParts,
        route: String,
        created_at_unix_ms: u128,
    ) -> (opened: (Self, TransportEvent))
        ensures
            opened.0 == Self::fresh(old(ids).next),
            Self::reports_creation(
                old(ids).next,
                uri.shown(),
                route,
                created_at_unix_ms,
                opened.1,
            ),
            final(ids).next == following_id(old(ids).next),
    {
        Self::open(ids, redacted_parts(uri), route, created_at_unix_ms)
    }

    /// Opens the account of a connection to the target that `text` names, and reports it without
    /// the target's query and fragment; nothing when `text` is no URI.
    pub fn new_from_text(
        ids: &mut ConnectionIds,
        text: &str,
        route: String,
        created_at_unix_ms: u128,
    ) -> (opened: Option<(Self, TransportEvent)>)
        ensures
            opened is Some <==> redacted_text(text@) is Some,
            opened matches Some((diagnostics, event)) ==> {
                &&& diagnostics == Self::fresh(old(ids).next)
                &&& Self::reports_creation(
                    old(ids).next,
                    redacted_text(text@)->Some_0,
                    route,
                    created_at_unix_ms,
                    event,
                )
                &&& unmarked(redacted_text(text@)->Some_0)
                &&& final(ids).next == following_id(old(ids).next)
            },
            opened is None ==> *final(ids) == *old(ids),
    {
        match redacted_uri(text) {
            Some(url) => Some(Self::open(ids, url, route, created_at_unix_ms)),
            None => None,
        }
    }

    /// Opens the account of a connection, and reports it under the redacted `url`.
    pub fn open(ids: &mut ConnectionIds, url: String, route: String, created_at_unix_ms: u128) -> (
    opened: (Self, TransportEvent))
        ensures
            opened.0 == Self::fresh(old(ids).next),
            final(ids).next == following_id(old(ids).next),
            opened.1 == (TransportEvent::ConnectionCreated {
                connection_id: old(ids).next,
                created_at_unix_ms,
                url,
                route,
            }),
    {
        let connection_id: u64 = ids.take();
        let diagnostics = TransportDiagnostics {
            connection_id,
            raw_bytes_read: 0,
            raw_bytes_written: 0,
            websocket_bytes_read: 0,
            websocket_bytes_written: 0,
            last_read_ms: NEVER,
            last_write_ms: NEVER,
            read_zero: false,
            local_write_shutdown: false,
            websocket_close_started: false,
            transport_dropped: false,
            fd: NO_FD,
        };
        (
            diagnostics,
            TransportEvent::ConnectionCreated { connection_id, created_at_unix_ms, url, route },
        )
    }

    /// The connection's identifier.
    pub fn connection_id(&self) -> (id: u64)
        ensures
            id == self.connection_id,
    {
        self.connection_id
    }

    /// Reports the addresses that an authority resolved to.
    pub fn resolved(&self, authority: String, addresses: String) -> (event: TransportEvent)
        ensures
            event == (TransportEvent::TcpResolved {
                connection_id: self.connection_id,
                authority,
                addresses,
            }),
    {
        TransportEvent::TcpResolved { connection_id: self.connection_id, authority, addresses }
    }

    /// Notes the descriptor of the connected socket, where the platform has one, and reports the
    /// connection.
    pub fn tcp_connected(&mut self, fd: Option<i32>, socket: SocketInfo) -> (event: TransportEvent)
        ensures
            *final(self) == old(self).after(Activity::Connected { fd }),
            event == (TransportEvent::TcpConnected {
                connection_id: old(self).connection_id,
                fd: final(self).fd,
                socket,
            }),
    {
        match fd {
            Some(fd) => {
                self.fd = fd;
            },
            None => {},
        }
        TransportEvent::TcpConnected { connection_id: self.connection_id, fd: self.fd, socket }
    }

    /// Reports a completed handshake.
    pub fn handshake_succeeded(&self, status: u16, lifetime_ms: u64) -> (event: TransportEvent)
        ensures
            event == (TransportEvent::HandshakeSucceeded {
                connection_id: self.connection_id,
                websocket_status: status,
                lifetime_ms,
            }),
    {
        TransportEvent::HandshakeSucceeded {
            connection_id: self.connection_id,
            websocket_status: status,
            lifetime_ms,
        }
    }

    /// Counts a message and reports it.
    pub fn websocket_message(
        &mut self,
        direction: &'static str,
        message: &Message,
        lifetime_ms: u64,
    ) -> (event: TransportEvent)
        ensures
            *final(self) == old(self).after(
                Activity::Message { direction: direction@, bytes: message.size() as u64 },
            ),
            old(self).reports_message(direction@, message, lifetime_ms, event),
    {
        let bytes: u64 = message.len() as u64;
        if text_eq(direction, "read") {
            self.websocket_bytes_read = self.websocket_bytes_read.wrapping_add(bytes);
        } else if text_eq(direction, "write") {
            self.websocket_bytes_written = self.websocket_bytes_written.wrapping_add(bytes);
        }
        let kind = message_kind(message);
        if message.is_control() {
            TransportEvent::ControlFrame {
                connection_id: self.connection_id,
                direction,
                kind,
                payload_bytes: bytes,
                close: close_details(message),
                lifetime_ms,
            }
        } else {
            TransportEvent::DataMessage {
                connection_id: self.connection_id,
                direction,
                kind,
                payload_bytes: bytes,
                lifetime_ms,
            }
        }
    }

    /// Reports a failed operation on the WebSocket.
    pub fn websocket_error(
        &self,
        operation: &'static str,
        failure: WebSocketFailure,
        lifetime_ms: u64,
    ) -> (event: TransportEvent)
        ensures
            self.reports_failure(operation@, failure, lifetime_ms, event),
    {
        let (io_kind, raw_os_error) = match failure.io {
            Some(io) => (Some(io.kind), io.raw_os_error),
            None => (None, None),
        };
        TransportEvent::WebSocketError {
            connection_id: self.connection_id,
            operation,
            error: failure.text,
            io_kind,
            raw_os_error,
            fd: self.fd,
            state: self.summary(lifetime_ms),
        }
    }

    /// Reports that no more messages will come.
    pub fn stream_ended(&self, lifetime_ms: u64) -> (event: TransportEvent)
        ensures
            self.reports_stream_end(lifetime_ms, event),
    {
        TransportEvent::StreamEnded {
            connection_id: self.connection_id,
            state: self.summary(lifetime_ms),
        }
    }

    /// Notes that this side began to close the WebSocket, and reports it the first time.
    pub fn websocket_close_started(&mut self, lifetime_ms: u64) -> (event: Option<TransportEvent>)
        ensures
            *final(self) == old(self).after(Activity::CloseStarted),
            event == (if old(self).websocket_close_started {
                None
            } else {
                Some(
                    TransportEvent::CloseStarted {
                        connection_id: old(self).connection_id,
                        lifetime_ms,
                    },
                )
            }),
    {
        let repeated: bool = self.websocket_close_started;
        self.websocket_close_started = true;
        if repeated {
            None
        } else {
            Some(TransportEvent::CloseStarted { connection_id: self.connection_id, lifetime_ms })
        }
    }

    /// Reports that the WebSocket was let go.
    pub fn connection_dropped(&self, lifetime_ms: u64) -> (event: TransportEvent)
        ensures
            self.reports_drop(lifetime_ms, event),
    {
        TransportEvent::ConnectionDropped {
            connection_id: self.connection_id,
            fd: self.fd,
            state: self.summary(lifetime_ms),
        }
    }

    /// Counts bytes that came from the socket.
    pub fn raw_read(&mut self, bytes: usize, lifetime_ms: u64)
        ensures
            *final(self) == old(self).after(
                Activity::Read { bytes: bytes as u64, at: lifetime_ms },
            ),
    {
        self.raw_bytes_read = self.raw_bytes_read.wrapping_add(bytes as u64);
        self.last_read_ms = lifetime_ms;
    }

    /// Counts bytes that went to the socket.
    pub fn raw_write(&mut self, bytes: usize, lifetime_ms: u64)
        ensures
            *final(self) == old(self).after(
                Activity::Write { bytes: bytes as u64, at: lifetime_ms },
            ),
    {
        self.raw_bytes_written = self.raw_bytes_written.wrapping_add(bytes as u64);
        self.last_write_ms = lifetime_ms;
    }

    /// Notes and reports that the socket came to its end.
    pub fn raw_read_zero(&mut self, socket: SocketInfo, lifetime_ms: u64) -> (event: TransportEvent)
        ensures
            *final(self) == old(self).after(Activity::ReadZero),
            final(self).reports_read_zero(socket, lifetime_ms, event),
    {
        self.read_zero = true;
        TransportEvent::ReadZero {
            connection_id: self.connection_id,
            fd: self.fd,
            socket,
            state: self.summary(lifetime_ms),
        }
    }

    /// Reports a failed operation on the socket.
    pub fn raw_io_error(
        &self,
        operation: &'static str,
        error: IoFailure,
        socket: SocketInfo,
        lifetime_ms: u64,
    ) -> (event: TransportEvent)
        ensures
            self.reports_io_error(operation@, error, socket, lifetime_ms, event),
    {
        TransportEvent::IoError {
            connection_id: self.connection_id,
            operation,
            failure: error,
            fd: self.fd,
            socket,
            state: self.summary(lifetime_ms),
        }
    }

    /// Notes that this side shuts the socket down for writing, and reports it the first time.
    pub fn raw_shutdown(&mut self, local_addr: String, peer_addr: String, lifetime_ms: u64) -> (event:
        Option<TransportEvent>)
        ensures
            *final(self) == old(self).after(Activity::WriteShutdown),
            event is None <==> old(self).local_write_shutdown,
            event matches Some(event) ==> {
                event matches TransportEvent::WriteShutdown {
                    connection_id,
                    fd,
                    local_addr: local,
                    peer_addr: peer,
                    state,
                } && connection_id == old(self).connection_id && fd == old(self).fd && local
                    == local_addr && peer == peer_addr && state@ == final(self).summary_text(
                    lifetime_ms,
                )
            },
    {
        let repeated: bool = self.local_write_shutdown;
        self.local_write_shutdown = true;
        if !repeated {
            Some(
                TransportEvent::WriteShutdown {
                    connection_id: self.connection_id,
                    fd: self.fd,
                    local_addr,
                    peer_addr,
                    state: self.summary(lifetime_ms),
                },
            )
        } else {
            None
        }
    }

    /// Notes and reports that the socket was let go.
    pub fn raw_transport_dropped(&mut self, socket: SocketInfo, lifetime_ms: u64) -> (event:
        TransportEvent)
        ensures
            *final(self) == old(self).after(Activity::TransportDropped),
            event matches TransportEvent::TransportDropped {
                connection_id,
                fd,
                socket: found,
                state,
            } && connection_id == old(self).connection_id && fd == old(self).fd && found == socket
                && state@ == final(self).summary_text(lifetime_ms),
    {
        self.transport_dropped = true;
        TransportEvent::TransportDropped {
            connection_id: self.connection_id,
            fd: self.fd,
            socket,
            state: self.summary(lifetime_ms),
        }
    }

    /// A span of milliseconds as it is recorded: the largest number stands for all longer spans.
    pub fn elapsed_ms(millis: u128) -> (ms: u64)
        ensures
            millis <= u64::MAX ==> ms == millis,
            millis > u64::MAX ==> ms == u64::MAX,
    {
        if millis <= u64::MAX as u128 {
            millis as u64
        } else {
            u64::MAX
        }
    }

    /// Puts the account in one line.
    pub fn summary(&self, lifetime_ms: u64) -> (text: String)
        ensures
            text@ == self.summary_text(lifetime_ms),
    {
        let mut text = "lifetime_ms=".to_owned();
        push_decimal(&mut text, lifetime_ms as u128);
        text.append(" raw_read=");
        push_decimal(&mut text, self.raw_bytes_read as u128);
        text.append(" raw_written=");
        push_decimal(&mut text, self.raw_bytes_written as u128);
        text.append(" ws_read=");
        push_decimal(&mut text, self.websocket_bytes_read as u128);
        text.append(" ws_written=");
        push_decimal(&mut text, self.websocket_bytes_written as u128);
        text.append(" last_read_ms=");
        push_optional_decimal(&mut text, timestamp(self.last_read_ms));
        text.append(" last_write_ms=");
        push_optional_decimal(&mut text, timestamp(self.last_write_ms));
        text.append(" read_zero=");
        push_flag(&mut text, self.read_zero);
        text.append(" local_write_shutdown=");
        push_flag(&mut text, self.local_write_shutdown);
        text.append(" websocket_close_started=");
        push_flag(&mut text, self.websocket_close_started);
        text.append(" transport_dropped=");
        push_flag(&mut text, self.transport_dropped);
        text
    }
}

} // verus!
