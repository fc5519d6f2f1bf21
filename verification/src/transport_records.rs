//! What the records of a connection tell, and what each activity changes on its account.
use vstd::prelude::*;
use crate::message::Message;
use crate::transport_diagnostics::following_id;
use crate::transport_diagnostics::time_of;
use crate::transport_diagnostics::Activity;
use crate::transport_diagnostics::TransportDiagnostics;
use crate::transport_event::IoFailure;
use crate::transport_event::SocketInfo;
use crate::transport_event::TransportEvent;
use crate::transport_event::WebSocketFailure;

verus! {

/// Whether two accounts agree in everything but the bytes and the time of reading.
pub open spec fn same_but_reading(a: TransportDiagnostics, b: TransportDiagnostics) -> bool {
    &&& a.connection_id == b.connection_id && a.fd == b.fd
    &&& a.raw_bytes_written == b.raw_bytes_written && a.last_write_ms == b.last_write_ms
    &&& a.websocket_bytes_read == b.websocket_bytes_read
    &&& a.websocket_bytes_written == b.websocket_bytes_written
    &&& same_flags(a, b)
}

/// Whether two accounts agree in everything but the bytes and the time of writing.
pub open spec fn same_but_writing(a: TransportDiagnostics, b: TransportDiagnostics) -> bool {
    &&& a.connection_id == b.connection_id && a.fd == b.fd
    &&& a.raw_bytes_read == b.raw_bytes_read && a.last_read_ms == b.last_read_ms
    &&& a.websocket_bytes_read == b.websocket_bytes_read
    &&& a.websocket_bytes_written == b.websocket_bytes_written
    &&& same_flags(a, b)
}

/// Whether two accounts agree in all flags.
pub open spec fn same_flags(a: TransportDiagnostics, b: TransportDiagnostics) -> bool {
    &&& a.read_zero == b.read_zero && a.local_write_shutdown == b.local_write_shutdown
    &&& a.websocket_close_started == b.websocket_close_started
    &&& a.transport_dropped == b.transport_dropped
}

/// Whether two accounts agree in all bytes and times.
pub open spec fn same_counts(a: TransportDiagnostics, b: TransportDiagnostics) -> bool {
    &&& a.raw_bytes_read == b.raw_bytes_read && a.raw_bytes_written == b.raw_bytes_written
    &&& a.websocket_bytes_read == b.websocket_bytes_read
    &&& a.websocket_bytes_written == b.websocket_bytes_written
    &&& a.last_read_ms == b.last_read_ms && a.last_write_ms == b.last_write_ms
}

/// A connection on which nothing has happened has no bytes, no times, no flags and no descriptor.
pub proof fn fresh_accounts_are_empty(connection_id: u64)
    ensures
        ({
            let fresh = TransportDiagnostics::fresh(connection_id);
            &&& fresh.connection_id == connection_id
            &&& fresh.raw_bytes_read == 0 && fresh.raw_bytes_written == 0
            &&& fresh.websocket_bytes_read == 0 && fresh.websocket_bytes_written == 0
            &&& fresh.last_read_ms == u64::MAX && fresh.last_write_ms == u64::MAX
            &&& !fresh.read_zero && !fresh.local_write_shutdown
            &&& !fresh.websocket_close_started && !fresh.transport_dropped
            &&& fresh.fd == -1
        }),
{
}

/// Identifiers follow one another, the first behind the last; the largest time stands for none.
pub proof fn identifiers_follow_one_another(id: u64)
    ensures
        id < u64::MAX ==> following_id(id) == id + 1,
        id == u64::MAX ==> following_id(id) == 0,
        time_of(id) is None <==> id == u64::MAX,
        id < u64::MAX ==> time_of(id) == Some(id),
{
}

/// Bytes that pass the socket are added to their own count, modulo the range of a count, with the
/// time at which they passed, and change nothing else.
pub proof fn socket_bytes_are_added(before: TransportDiagnostics, bytes: u64, at: u64)
    ensures
        ({
            let after = before.after(Activity::Read { bytes, at });
            &&& after.raw_bytes_read == (before.raw_bytes_read + bytes) % 0x1_0000_0000_0000_0000
            &&& after.last_read_ms == at
            &&& same_but_reading(before, after)
        }),
        ({
            let after = before.after(Activity::Write { bytes, at });
            &&& after.raw_bytes_written == (before.raw_bytes_written + bytes)
                % 0x1_0000_0000_0000_0000
            &&& after.last_write_ms == at
            &&& same_but_writing(before, after)
        }),
{
}

/// The bytes of a message are added to the count of its direction, modulo the range of a count, and
/// change nothing else; those of any other direction are not counted.
pub proof fn message_bytes_are_added(
    before: TransportDiagnostics,
    direction: Seq<char>,
    bytes: u64,
)
    ensures
        ({
            let after = before.after(Activity::Message { direction, bytes });
            &&& after.connection_id == before.connection_id && after.fd == before.fd
            &&& same_flags(before, after)
            &&& after.raw_bytes_read == before.raw_bytes_read
            &&& after.raw_bytes_written == before.raw_bytes_written
            &&& after.last_read_ms == before.last_read_ms
            &&& after.last_write_ms == before.last_write_ms
            &&& after.websocket_bytes_read == if direction == "read"@ {
                (before.websocket_bytes_read + bytes) % 0x1_0000_0000_0000_0000
            } else {
                before.websocket_bytes_read as int
            }
            &&& after.websocket_bytes_written == if direction == "write"@ {
                (before.websocket_bytes_written + bytes) % 0x1_0000_0000_0000_0000
            } else {
                before.websocket_bytes_written as int
            }
        }),
{
    reveal_strlit("read");
    reveal_strlit("write");
    assert("read"@.len() != "write"@.len());
}

/// Connecting sets the descriptor where there is one; each of the other activities sets its own
/// flag. Neither changes anything else.
pub proof fn each_activity_has_its_own_mark(before: TransportDiagnostics, fd: Option<i32>)
    ensures
        ({
            let after = before.after(Activity::Connected { fd });
            &&& fd matches Some(fd) ==> after.fd == fd
            &&& fd is None ==> after.fd == before.fd
            &&& after.connection_id == before.connection_id
            &&& same_flags(before, after) && same_counts(before, after)
        }),
        ({
            let after = before.after(Activity::ReadZero);
            &&& after.read_zero
            &&& after.local_write_shutdown == before.local_write_shutdown
            &&& after.websocket_close_started == before.websocket_close_started
            &&& after.transport_dropped == before.transport_dropped
            &&& after.connection_id == before.connection_id && after.fd == before.fd
            &&& same_counts(before, after)
        }),
        ({
            let after = before.after(Activity::WriteShutdown);
            &&& after.local_write_shutdown
            &&& after.read_zero == before.read_zero
            &&& after.websocket_close_started == before.websocket_close_started
            &&& after.transport_dropped == before.transport_dropped
            &&& after.connection_id == before.connection_id && after.fd == before.fd
            &&& same_counts(before, after)
        }),
        ({
            let after = before.after(Activity::CloseStarted);
            &&& after.websocket_close_started
            &&& after.read_zero == before.read_zero
            &&& after.local_write_shutdown == before.local_write_shutdown
            &&& after.transport_dropped == before.transport_dropped
            &&& after.connection_id == before.connection_id && after.fd == before.fd
            &&& same_counts(before, after)
        }),
        ({
            let after = before.after(Activity::TransportDropped);
            &&& after.transport_dropped
            &&& after.read_zero == before.read_zero
            &&& after.local_write_shutdown == before.local_write_shutdown
            &&& after.websocket_close_started == before.websocket_close_started
            &&& after.connection_id == before.connection_id && after.fd == before.fd
            &&& same_counts(before, after)
        }),
{
}

/// A record of a message is a control frame exactly for a ping, a pong or a close, and tells the
/// connection, the direction, the kind, the bytes, the details of a close and the time.
pub proof fn message_records_tell_the_message(
    diagnostics: TransportDiagnostics,
    direction: Seq<char>,
    message: Message,
    lifetime_ms: u64,
    event: TransportEvent,
)
    requires
        diagnostics.reports_message(direction, &message, lifetime_ms, event),
    ensures
        event is ControlFrame <==> (message is Ping || message is Pong || message is Close),
        match event {
            TransportEvent::ControlFrame {
                connection_id,
                direction: to,
                kind,
                payload_bytes,
                close,
                lifetime_ms: at,
            } => {
                &&& connection_id == diagnostics.connection_id
                &&& to@ == direction && kind@ == message.kind()
                &&& payload_bytes == message.size() && at == lifetime_ms
                &&& close is Some <==> message.close_texts() is Some
                &&& close matches Some(told) ==> message.close_texts() == Some(
                    (told.0@, told.1@),
                )
            },
            TransportEvent::DataMessage {
                connection_id,
                direction: to,
                kind,
                payload_bytes,
                lifetime_ms: at,
            } => {
                &&& connection_id == diagnostics.connection_id
                &&& to@ == direction && kind@ == message.kind()
                &&& payload_bytes == message.size() && at == lifetime_ms
            },
            _ => false,
        },
{
}

/// A record of a failed WebSocket operation tells the connection, the operation, the whole error,
/// the kind and number of the socket's error exactly when the socket failed, the descriptor and the
/// account at that time.
pub proof fn failure_records_tell_the_failure(
    diagnostics: TransportDiagnostics,
    operation: Seq<char>,
    failure: WebSocketFailure,
    lifetime_ms: u64,
    event: TransportEvent,
)
    requires
        diagnostics.reports_failure(operation, failure, lifetime_ms, event),
    ensures
        event matches TransportEvent::WebSocketError {
            connection_id,
            operation: during,
            error,
            io_kind,
            raw_os_error,
            fd,
            state,
        } && {
            &&& connection_id == diagnostics.connection_id && fd == diagnostics.fd
            &&& during@ == operation && error@ == failure.text@
            &&& io_kind is Some <==> failure.io is Some
            &&& failure.io matches Some(io) ==> io_kind->Some_0@ == io.kind@ && raw_os_error
                == io.raw_os_error
            &&& failure.io is None ==> raw_os_error is None
            &&& state@ == diagnostics.summary_text(lifetime_ms)
        },
{
}

/// A record of the end of the messages or of a dropped WebSocket tells the connection and the
/// account at that time; the second tells the descriptor too.
pub proof fn ending_records_tell_the_account(
    diagnostics: TransportDiagnostics,
    lifetime_ms: u64,
    event: TransportEvent,
)
    ensures
        diagnostics.reports_stream_end(lifetime_ms, event) ==> (event
            matches TransportEvent::StreamEnded { connection_id, state } && connection_id
            == diagnostics.connection_id && state@ == diagnostics.summary_text(lifetime_ms)),
        diagnostics.reports_drop(lifetime_ms, event) ==> (event
            matches TransportEvent::ConnectionDropped { connection_id, fd, state } && connection_id
            == diagnostics.connection_id && fd == diagnostics.fd && state@
            == diagnostics.summary_text(lifetime_ms)),
{
}

/// A record of the end or of a failure of the socket tells the connection, the descriptor, what was
/// found in the socket and the account at that time, and the failure with its operation.
pub proof fn socket_records_tell_the_socket(
    diagnostics: TransportDiagnostics,
    operation: Seq<char>,
    error: IoFailure,
    socket: SocketInfo,
    lifetime_ms: u64,
    event: TransportEvent,
)
    ensures
        diagnostics.reports_read_zero(socket, lifetime_ms, event) ==> (event
            matches TransportEvent::ReadZero { connection_id, fd, socket: found, state }
            && connection_id == diagnostics.connection_id && fd == diagnostics.fd && found == socket
            && state@ == diagnostics.summary_text(lifetime_ms)),
        diagnostics.reports_io_error(operation, error, socket, lifetime_ms, event) ==> (event
            matches TransportEvent::IoError {
            connection_id,
            operation: during,
            failure,
            fd,
            socket: found,
            state,
        } && connection_id == diagnostics.connection_id && during@ == operation && failure == error
            && fd == diagnostics.fd && found == socket && state@ == diagnostics.summary_text(
            lifetime_ms,
        )),
{
}

/// A record of a new connection tells its identifier, when and by which route it was opened, and
/// its target as a log shows it.
pub proof fn creation_records_tell_the_target(
    connection_id: u64,
    shown: Seq<char>,
    route: String,
    created_at_unix_ms: u128,
    event: TransportEvent,
)
    requires
        TransportDiagnostics::reports_creation(
            connection_id,
            shown,
            route,
            created_at_unix_ms,
            event,
        ),
    ensures
        event matches TransportEvent::ConnectionCreated {
            connection_id: id,
            created_at_unix_ms: at,
            url,
            route: via,
        } && id == connection_id && at == created_at_unix_ms && url@ == shown && via@ == route@,
{
}

} // verus!
