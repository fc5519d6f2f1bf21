//! What a diagnosed socket does about each of its polled operations.
use vstd::prelude::*;
use crate::transport_diagnostics::Activity;
use crate::transport_diagnostics::TransportDiagnostics;
use crate::transport_event::IoFailure;
use crate::transport_event::SocketInfo;
use crate::transport_event::TransportEvent;
use crate::transport_records::same_but_reading;
use crate::transport_records::same_but_writing;

verus! {

/// How a poll for reading came out.
#[derive(Debug, Clone, Copy, PartialEq, Eq, Structural)]
pub enum ReadPoll {
    /// The buffer was filled from one length to another; it may have had room for more.
    Ready { filled_before: usize, filled_after: usize, had_capacity: bool },
    Failed,
    Pending,
}

/// How a poll for writing came out.
#[derive(Debug, Clone, Copy, PartialEq, Eq, Structural)]
pub enum WritePoll {
    /// This many bytes were written.
    Ready { bytes: usize },
    Failed,
    Pending,
}

/// How a poll that moves no bytes came out.
#[derive(Debug, Clone, Copy, PartialEq, Eq, Structural)]
pub enum ControlPoll {
    Ready,
    Failed,
    Pending,
}

/// What is to be done about a polled operation.
#[derive(Debug, Clone, Copy, PartialEq, Eq)]
pub enum RawAction {
    Nothing,
    /// Count bytes that were read.
    RecordRead { bytes: usize },
    /// Count bytes that were written.
    RecordWrite { bytes: usize },
    /// Note and report that the socket came to its end.
    RecordEnd,
    /// Report that the named operation failed.
    ReportError { operation: &'static str },
}

impl RawAction {
    /// Whether the action looks into the socket's state. Looking clears the socket's pending
    /// error, so only an action that reports the end or a failure of the socket does so.
    pub open spec fn looks_into_socket(&self) -> bool {
        *self is RecordEnd || *self is ReportError
    }

    /// Whether the action looks into the socket's state.
    pub fn takes_snapshot(&self) -> (yes: bool)
        ensures
            yes == self.looks_into_socket(),
    {
        match self {
            RawAction::RecordEnd => true,
            RawAction::ReportError { .. } => true,
            RawAction::Nothing => false,
            RawAction::RecordRead { .. } => false,
            RawAction::RecordWrite { .. } => false,
        }
    }
}

/// The bytes by which a poll for reading filled its buffer.
pub open spec fn bytes_filled(filled_before: usize, filled_after: usize) -> nat {
    if filled_after >= filled_before {
        (filled_after - filled_before) as nat
    } else {
        0
    }
}

/// What a poll for reading calls for: bytes are counted, no bytes in spite of room for some mean
/// that the socket came to its end, and a failure is reported.
pub open spec fn read_action(poll: ReadPoll, action: RawAction) -> bool {
    match poll {
        ReadPoll::Ready { filled_before, filled_after, had_capacity } => {
            let filled = bytes_filled(filled_before, filled_after);
            if filled > 0 {
                action matches RawAction::RecordRead { bytes } && bytes as nat == filled
            } else if had_capacity {
                action is RecordEnd
            } else {
                action is Nothing
            }
        },
        ReadPoll::Failed => action matches RawAction::ReportError { operation } && operation@
            == "read"@,
        ReadPoll::Pending => action is Nothing,
    }
}

/// What is to be done about a poll for reading.
pub fn poll_read(poll: ReadPoll) -> (action: RawAction)
    ensures
        read_action(poll, action),
{
    match poll {
        ReadPoll::Ready { filled_before, filled_after, had_capacity } => {
            let bytes: usize = filled_after.saturating_sub(filled_before);
            if bytes == 0 && had_capacity {
                RawAction::RecordEnd
            } else if bytes > 0 {
                RawAction::RecordRead { bytes }
            } else {
                RawAction::Nothing
            }
        },
        ReadPoll::Failed => RawAction::ReportError { operation: "read" },
        ReadPoll::Pending => RawAction::Nothing,
    }
}

/// What a poll for writing under the named operation calls for: bytes are counted, even none, and
/// a failure is reported.
pub open spec fn write_action(poll: WritePoll, operation: Seq<char>, action: RawAction) -> bool {
    match poll {
        WritePoll::Ready { bytes } => action == (RawAction::RecordWrite { bytes }),
        WritePoll::Failed => action matches RawAction::ReportError { operation: named } && named@
            == operation,
        WritePoll::Pending => action is Nothing,
    }
}

/// What a poll that moves no bytes calls for under the named operation: a failure is reported.
pub open spec fn control_action(
    poll: ControlPoll,
    operation: Seq<char>,
    action: RawAction,
) -> bool {
    match poll {
        ControlPoll::Failed => action matches RawAction::ReportError { operation: named } && named@
            == operation,
        ControlPoll::Ready => action is Nothing,
        ControlPoll::Pending => action is Nothing,
    }
}

fn after_write(poll: WritePoll, operation: &'static str) -> (action: RawAction)
    ensures
        write_action(poll, operation@, action),
{
    match poll {
        WritePoll::Ready { bytes } => RawAction::RecordWrite { bytes },
        WritePoll::Failed => RawAction::ReportError { operation },
        WritePoll::Pending => RawAction::Nothing,
    }
}

fn after_control(poll: ControlPoll, operation: &'static str) -> (action: RawAction)
    ensures
        control_action(poll, operation@, action),
{
    match poll {
        ControlPoll::Failed => RawAction::ReportError { operation },
        ControlPoll::Ready => RawAction::Nothing,
        ControlPoll::Pending => RawAction::Nothing,
    }
}

/// What is to be done about a poll for writing one buffer.
pub fn poll_write(poll: WritePoll) -> (action: RawAction)
    ensures
        write_action(poll, "write"@, action),
{
    after_write(poll, "write")
}

/// What is to be done about a poll for writing several buffers.
pub fn poll_write_vectored(poll: WritePoll) -> (action: RawAction)
    ensures
        write_action(poll, "write_vectored"@, action),
{
    after_write(poll, "write_vectored")
}

/// What is to be done about a poll for flushing.
pub fn poll_flush(poll: ControlPoll) -> (action: RawAction)
    ensures
        control_action(poll, "flush"@, action),
{
    after_control(poll, "flush")
}

/// What is to be done about a poll for shutting down, once its beginning was noted.
pub fn poll_shutdown(poll: ControlPoll) -> (action: RawAction)
    ensures
        control_action(poll, "shutdown"@, action),
{
    after_control(poll, "shutdown")
}

/// What the account of a connection becomes through an action, and what is reported: bytes are
/// counted in silence, the end is noted and reported, and a failure is reported alone.
pub open spec fn performed(
    before: TransportDiagnostics,
    action: RawAction,
    socket: Option<SocketInfo>,
    failure: Option<IoFailure>,
    lifetime_ms: u64,
    after: TransportDiagnostics,
    event: Option<TransportEvent>,
) -> bool {
    match action {
        RawAction::Nothing => after == before && event is None,
        RawAction::RecordRead { bytes } => after == before.after(
            Activity::Read { bytes: bytes as u64, at: lifetime_ms },
        ) && event is None,
        RawAction::RecordWrite { bytes } => after == before.after(
            Activity::Write { bytes: bytes as u64, at: lifetime_ms },
        ) && event is None,
        RawAction::RecordEnd => after == before.after(Activity::ReadZero) && (event matches Some(
            event,
        ) && after.reports_read_zero(socket->Some_0, lifetime_ms, event)),
        RawAction::ReportError { operation } => after == before && (event matches Some(event)
            && before.reports_io_error(
            operation@,
            failure->Some_0,
            socket->Some_0,
            lifetime_ms,
            event,
        )),
    }
}

/// Does what a polled operation calls for. An action that looks into the socket comes with what
/// was found there, and one that reports a failure with the failure.
pub fn perform(
    diagnostics: &mut TransportDiagnostics,
    action: RawAction,
    socket: Option<SocketInfo>,
    failure: Option<IoFailure>,
    lifetime_ms: u64,
) -> (event: Option<TransportEvent>)
    requires
        action.looks_into_socket() ==> socket is Some,
        action is ReportError ==> failure is Some,
    ensures
        performed(
            *old(diagnostics),
            action,
            socket,
            failure,
            lifetime_ms,
            *final(diagnostics),
            event,
        ),
{
    match action {
        RawAction::Nothing => None,
        RawAction::RecordRead { bytes } => {
            diagnostics.raw_read(bytes, lifetime_ms);
            None
        },
        RawAction::RecordWrite { bytes } => {
            diagnostics.raw_write(bytes, lifetime_ms);
            None
        },
        RawAction::RecordEnd => match socket {
            Some(socket) => Some(diagnostics.raw_read_zero(socket, lifetime_ms)),
            None => None,
        },
        RawAction::ReportError { operation } => match (socket, failure) {
            (Some(socket), Some(failure)) => Some(
                diagnostics.raw_io_error(operation, failure, socket, lifetime_ms),
            ),
            _ => None,
        },
    }
}

/// A poll for reading that brings bytes adds them to the bytes read and sets the time of the last
/// read; one that ends sets the flag of the end and is reported once; one that fails is reported
/// once and changes nothing; any other does nothing.
pub proof fn reads_are_accounted_for(
    poll: ReadPoll,
    action: RawAction,
    before: TransportDiagnostics,
    socket: Option<SocketInfo>,
    failure: Option<IoFailure>,
    lifetime_ms: u64,
    after: TransportDiagnostics,
    event: Option<TransportEvent>,
)
    requires
        read_action(poll, action),
        performed(before, action, socket, failure, lifetime_ms, after, event),
    ensures
        match poll {
            ReadPoll::Ready { filled_before, filled_after, had_capacity } => {
                let filled = bytes_filled(filled_before, filled_after);
                if filled > 0 {
                    &&& after == TransportDiagnostics {
                        raw_bytes_read: before.raw_bytes_read.wrapping_add(filled as u64),
                        last_read_ms: lifetime_ms,
                        ..before
                    }
                    &&& event is None
                } else if had_capacity {
                    &&& after == TransportDiagnostics { read_zero: true, ..before }
                    &&& event matches Some(event) && after.reports_read_zero(
                        socket->Some_0,
                        lifetime_ms,
                        event,
                    )
                } else {
                    after == before && event is None
                }
            },
            ReadPoll::Failed => after == before && (event matches Some(event)
                && before.reports_io_error(
                "read"@,
                failure->Some_0,
                socket->Some_0,
                lifetime_ms,
                event,
            )),
            ReadPoll::Pending => after == before && event is None,
        },
{
}

/// A poll for writing that takes bytes adds them to the bytes written and sets the time of the
/// last write; one that fails is reported once under its operation and changes nothing.
pub proof fn writes_are_accounted_for(
    poll: WritePoll,
    operation: Seq<char>,
    action: RawAction,
    before: TransportDiagnostics,
    socket: Option<SocketInfo>,
    failure: Option<IoFailure>,
    lifetime_ms: u64,
    after: TransportDiagnostics,
    event: Option<TransportEvent>,
)
    requires
        write_action(poll, operation, action),
        performed(before, action, socket, failure, lifetime_ms, after, event),
    ensures
        match poll {
            WritePoll::Ready { bytes } => {
                &&& after == TransportDiagnostics {
                    raw_bytes_written: before.raw_bytes_written.wrapping_add(bytes as u64),
                    last_write_ms: lifetime_ms,
                    ..before
                }
                &&& event is None
            },
            WritePoll::Failed => after == before && (event matches Some(event)
                && before.reports_io_error(
                operation,
                failure->Some_0,
                socket->Some_0,
                lifetime_ms,
                event,
            )),
            WritePoll::Pending => after == before && event is None,
        },
{
}

/// A poll for flushing or shutting down never changes the account, and is reported, once and under
/// its operation, exactly when it fails.
pub proof fn other_polls_are_accounted_for(
    poll: ControlPoll,
    operation: Seq<char>,
    action: RawAction,
    before: TransportDiagnostics,
    socket: Option<SocketInfo>,
    failure: Option<IoFailure>,
    lifetime_ms: u64,
    after: TransportDiagnostics,
    event: Option<TransportEvent>,
)
    requires
        control_action(poll, operation, action),
        performed(before, action, socket, failure, lifetime_ms, after, event),
    ensures
        after == before,
        event is Some <==> poll is Failed,
        event matches Some(event) ==> before.reports_io_error(
            operation,
            failure->Some_0,
            socket->Some_0,
            lifetime_ms,
            event,
        ),
{
}

/// A poll for reading that brings bytes, has no room for any or has to wait does not look into the
/// socket; one that fails or comes to the end does.
pub proof fn reading_looks_only_at_the_end(poll: ReadPoll, action: RawAction)
    requires
        read_action(poll, action),
    ensures
        action.looks_into_socket() <==> match poll {
            ReadPoll::Ready { filled_before, filled_after, had_capacity } => had_capacity
                && filled_after <= filled_before,
            ReadPoll::Failed => true,
            ReadPoll::Pending => false,
        },
{
}

/// A poll for anything but reading looks into the socket only when it fails.
pub proof fn others_look_only_on_failure(
    write: WritePoll,
    control: ControlPoll,
    operation: Seq<char>,
    action: RawAction,
)
    ensures
        write_action(write, operation, action) ==> (action.looks_into_socket() <==> write
            is Failed),
        control_action(control, operation, action) ==> (action.looks_into_socket() <==> control
            is Failed),
{
}

/// A poll for reading is counted, taken for the end or passed over by the bytes that it brought and
/// the room that it had; what looks into the socket is only its end or a failure.
pub proof fn reads_are_told_apart(poll: ReadPoll, action: RawAction)
    requires
        read_action(poll, action),
    ensures
        match poll {
            ReadPoll::Ready { filled_before, filled_after, had_capacity } => {
                &&& filled_after > filled_before ==> (action matches RawAction::RecordRead { bytes }
                    && filled_before + bytes == filled_after)
                &&& filled_after <= filled_before && had_capacity ==> action is RecordEnd
                &&& filled_after <= filled_before && !had_capacity ==> action is Nothing
            },
            ReadPoll::Failed => action matches RawAction::ReportError { operation } && operation@
                == "read"@,
            ReadPoll::Pending => action is Nothing,
        },
        action.looks_into_socket() <==> (action is RecordEnd || action is ReportError),
{
}

/// All that a poll for writing took is counted, be it nothing; what fails is reported under the
/// name of its operation, and nothing else is done.
pub proof fn other_polls_are_told_apart(
    write: WritePoll,
    control: ControlPoll,
    operation: Seq<char>,
    action: RawAction,
)
    ensures
        write_action(write, operation, action) ==> match write {
            WritePoll::Ready { bytes: taken } => action matches RawAction::RecordWrite { bytes }
                && bytes == taken,
            WritePoll::Failed => action matches RawAction::ReportError { operation: named } && named@
                == operation,
            WritePoll::Pending => action is Nothing,
        },
        control_action(control, operation, action) ==> match control {
            ControlPoll::Failed => action matches RawAction::ReportError { operation: named }
                && named@ == operation,
            _ => action is Nothing,
        },
{
}

/// What an action does to the account is what the activity that it stands for does, and only the
/// end and a failure of the socket are reported, each by its own record.
pub proof fn actions_stand_for_activities(
    before: TransportDiagnostics,
    action: RawAction,
    socket: Option<SocketInfo>,
    failure: Option<IoFailure>,
    lifetime_ms: u64,
    after: TransportDiagnostics,
    event: Option<TransportEvent>,
)
    requires
        performed(before, action, socket, failure, lifetime_ms, after, event),
    ensures
        event is Some <==> (action is RecordEnd || action is ReportError),
        action is Nothing || action is ReportError ==> after == before,
        action matches RawAction::RecordRead { bytes } ==> {
            &&& after.raw_bytes_read == (before.raw_bytes_read + bytes as u64)
                % 0x1_0000_0000_0000_0000
            &&& after.last_read_ms == lifetime_ms
            &&& same_but_reading(before, after)
        },
        action matches RawAction::RecordWrite { bytes } ==> {
            &&& after.raw_bytes_written == (before.raw_bytes_written + bytes as u64)
                % 0x1_0000_0000_0000_0000
            &&& after.last_write_ms == lifetime_ms
            &&& same_but_writing(before, after)
        },
        action is RecordEnd ==> {
            &&& after == (TransportDiagnostics { read_zero: true, ..before })
            &&& event->Some_0 matches TransportEvent::ReadZero {
                connection_id,
                fd,
                socket: found,
                state,
            } && connection_id == before.connection_id && fd == before.fd && found == socket->Some_0
                && state@ == after.summary_text(lifetime_ms)
        },
        action matches RawAction::ReportError { operation } ==> (event->Some_0
            matches TransportEvent::IoError {
            connection_id,
            operation: during,
            failure: told,
            fd,
            socket: found,
            state,
        } && connection_id == before.connection_id && during@ == operation@ && told
            == failure->Some_0 && fd == before.fd && found == socket->Some_0 && state@
            == before.summary_text(lifetime_ms)),
{
}

} // verus!
