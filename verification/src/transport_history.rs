//! What holds of a connection's account whatever happens to the connection.
use vstd::prelude::*;
use crate::message::Message;
use crate::transport_diagnostics::following_id;
use crate::transport_diagnostics::later_id;
use crate::transport_diagnostics::Activity;
use crate::transport_diagnostics::TransportDiagnostics;
use crate::transport_diagnostics::NEVER;
use crate::transport_event::Level;
use crate::transport_event::TransportEvent;
use crate::transport_event::WebSocketFailure;

verus! {

/// The size of the range of a byte count.
pub open spec fn count_range() -> nat {
    0x1_0000_0000_0000_0000
}

/// The account of a connection after all that happened to it since it was opened.
pub open spec fn account(connection_id: u64, history: Seq<Activity>) -> TransportDiagnostics
    decreases history.len(),
{
    if history.len() == 0 {
        TransportDiagnostics::fresh(connection_id)
    } else {
        account(connection_id, history.drop_last()).after(history.last())
    }
}

/// All bytes that came from the socket.
pub open spec fn bytes_read(history: Seq<Activity>) -> nat
    decreases history.len(),
{
    if history.len() == 0 {
        0
    } else {
        bytes_read(history.drop_last()) + match history.last() {
            Activity::Read { bytes, .. } => bytes as nat,
            _ => 0,
        }
    }
}

/// All bytes that went to the socket.
pub open spec fn bytes_written(history: Seq<Activity>) -> nat
    decreases history.len(),
{
    if history.len() == 0 {
        0
    } else {
        bytes_written(history.drop_last()) + match history.last() {
            Activity::Write { bytes, .. } => bytes as nat,
            _ => 0,
        }
    }
}

/// All bytes of messages in the named direction.
pub open spec fn message_bytes(history: Seq<Activity>, wanted: Seq<char>) -> nat
    decreases history.len(),
{
    if history.len() == 0 {
        0
    } else {
        message_bytes(history.drop_last(), wanted) + match history.last() {
            Activity::Message { direction, bytes } if direction == wanted => bytes as nat,
            _ => 0,
        }
    }
}

/// When bytes last came from the socket, or [`NEVER`].
pub open spec fn last_read(history: Seq<Activity>) -> u64
    decreases history.len(),
{
    if history.len() == 0 {
        NEVER
    } else {
        match history.last() {
            Activity::Read { at, .. } => at,
            _ => last_read(history.drop_last()),
        }
    }
}

/// When bytes last went to the socket, or [`NEVER`].
pub open spec fn last_write(history: Seq<Activity>) -> u64
    decreases history.len(),
{
    if history.len() == 0 {
        NEVER
    } else {
        match history.last() {
            Activity::Write { at, .. } => at,
            _ => last_write(history.drop_last()),
        }
    }
}

/// The identifier of a connection never changes.
pub proof fn identity_is_kept(connection_id: u64, history: Seq<Activity>)
    ensures
        account(connection_id, history).connection_id == connection_id,
    decreases history.len(),
{
    if history.len() > 0 {
        identity_is_kept(connection_id, history.drop_last());
    }
}

/// What the account says of flags is what happened: each is set exactly when its cause is part of
/// the history.
pub proof fn flags_record_history(connection_id: u64, history: Seq<Activity>)
    ensures
        account(connection_id, history).read_zero <==> history.contains(Activity::ReadZero),
        account(connection_id, history).websocket_close_started <==> history.contains(
            Activity::CloseStarted,
        ),
        account(connection_id, history).local_write_shutdown <==> history.contains(
            Activity::WriteShutdown,
        ),
        account(connection_id, history).transport_dropped <==> history.contains(
            Activity::TransportDropped,
        ),
    decreases history.len(),
{
    if history.len() > 0 {
        let earlier = history.drop_last();
        flags_record_history(connection_id, earlier);
        assert forall|a: Activity| history.contains(a) <==> (earlier.contains(a) || history.last()
            == a) by {
            lemma_contains_last(history, a);
        }
    }
}

proof fn lemma_contains_last(history: Seq<Activity>, a: Activity)
    requires
        history.len() > 0,
    ensures
        history.contains(a) <==> (history.drop_last().contains(a) || history.last() == a),
{
    let earlier = history.drop_last();
    if history.contains(a) && history.last() != a {
        let i = history.index_of(a);
        assert(earlier[i] == a);
    }
    if earlier.contains(a) {
        let i = earlier.index_of(a);
        assert(history[i] == a);
    }
    if history.last() == a {
        assert(history[history.len() - 1] == a);
    }
}

/// Once set, a flag stays set whatever happens next.
pub proof fn flags_stay_set(before: TransportDiagnostics, activity: Activity)
    ensures
        before.read_zero ==> before.after(activity).read_zero,
        before.websocket_close_started ==> before.after(activity).websocket_close_started,
        before.local_write_shutdown ==> before.after(activity).local_write_shutdown,
        before.transport_dropped ==> before.after(activity).transport_dropped,
{
}

/// How often the beginning of closing the WebSocket is reported: only when the account does not
/// show it already.
pub open spec fn close_reports(connection_id: u64, history: Seq<Activity>) -> nat
    decreases history.len(),
{
    if history.len() == 0 {
        0
    } else {
        let earlier = history.drop_last();
        close_reports(connection_id, earlier) + if history.last() is CloseStarted && !account(
            connection_id,
            earlier,
        ).websocket_close_started {
            1nat
        } else {
            0nat
        }
    }
}

/// How often the beginning of shutting the socket down is reported: only when the account does
/// not show it already.
pub open spec fn shutdown_reports(connection_id: u64, history: Seq<Activity>) -> nat
    decreases history.len(),
{
    if history.len() == 0 {
        0
    } else {
        let earlier = history.drop_last();
        shutdown_reports(connection_id, earlier) + if history.last() is WriteShutdown && !account(
            connection_id,
            earlier,
        ).local_write_shutdown {
            1nat
        } else {
            0nat
        }
    }
}

/// However often closing or shutting down is attempted, its beginning is reported once.
pub proof fn beginnings_are_reported_once(connection_id: u64, history: Seq<Activity>)
    ensures
        close_reports(connection_id, history) == if history.contains(Activity::CloseStarted) {
            1nat
        } else {
            0nat
        },
        shutdown_reports(connection_id, history) == if history.contains(Activity::WriteShutdown) {
            1nat
        } else {
            0nat
        },
    decreases history.len(),
{
    flags_record_history(connection_id, history);
    if history.len() > 0 {
        beginnings_are_reported_once(connection_id, history.drop_last());
        flags_record_history(connection_id, history.drop_last());
    }
}

/// The byte counts are the bytes that passed, up to the range of a count.
pub proof fn counts_record_history(connection_id: u64, history: Seq<Activity>)
    ensures
        account(connection_id, history).raw_bytes_read as nat == bytes_read(history) % count_range(),
        account(connection_id, history).raw_bytes_written as nat == bytes_written(history)
            % count_range(),
        account(connection_id, history).websocket_bytes_read as nat == message_bytes(
            history,
            "read"@,
        ) % count_range(),
        account(connection_id, history).websocket_bytes_written as nat == message_bytes(
            history,
            "write"@,
        ) % count_range(),
    decreases history.len(),
{
    if history.len() > 0 {
        counts_record_history(connection_id, history.drop_last());
        reveal_strlit("read");
        reveal_strlit("write");
        assert("read"@.len() != "write"@.len());
    }
}

/// The times are those of the last read and of the last write, where there was one.
pub proof fn times_record_history(connection_id: u64, history: Seq<Activity>)
    ensures
        account(connection_id, history).last_read_ms == last_read(history),
        account(connection_id, history).last_write_ms == last_write(history),
    decreases history.len(),
{
    if history.len() > 0 {
        times_record_history(connection_id, history.drop_last());
    }
}

/// A message is reported under its connection, and at a level that tells control from data.
pub proof fn messages_are_reported_by_kind(
    diagnostics: TransportDiagnostics,
    direction: Seq<char>,
    message: Message,
    lifetime_ms: u64,
    event: TransportEvent,
)
    requires
        diagnostics.reports_message(direction, &message, lifetime_ms, event),
    ensures
        event.connection() == diagnostics.connection_id,
        event.event_level() == if message.control() {
            Level::Info
        } else {
            Level::Debug
        },
{
}

/// The failures, the end and the drop of a WebSocket are reported as warnings under its connection.
pub proof fn endings_are_warnings(
    diagnostics: TransportDiagnostics,
    operation: Seq<char>,
    failure: WebSocketFailure,
    lifetime_ms: u64,
    event: TransportEvent,
)
    requires
        diagnostics.reports_failure(operation, failure, lifetime_ms, event)
            || diagnostics.reports_stream_end(lifetime_ms, event) || diagnostics.reports_drop(
            lifetime_ms,
            event,
        ),
    ensures
        event.connection() == diagnostics.connection_id,
        event.event_level() == Level::Warn,
{
}

proof fn lemma_later_id(id: u64, n: nat)
    ensures
        later_id(id, n) as nat == (id as nat + n) % count_range(),
    decreases n,
{
    if n > 0 {
        lemma_later_id(id, (n - 1) as nat);
        assert(later_id(id, n) == following_id(later_id(id, (n - 1) as nat)));
    }
}

/// No two of the first 2^64 connections have the same identifier.
pub proof fn identifiers_are_distinct(first: u64, i: nat, j: nat)
    requires
        i < j < count_range(),
    ensures
        later_id(first, i) != later_id(first, j),
{
    lemma_later_id(first, i);
    lemma_later_id(first, j);
}

} // verus!
