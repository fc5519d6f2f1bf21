//! An established WebSocket as its diagnostics see it.
use vstd::prelude::*;
use crate::message::Message;
use crate::transport_diagnostics::Activity;
use crate::transport_diagnostics::TransportDiagnostics;
use crate::transport_event::TransportEvent;
use crate::transport_event::WebSocketFailure;

verus! {

/// The diagnostics of an established WebSocket, where they are enabled. Every operation takes the
/// outcome that the WebSocket below gave, and gives back what is to be reported.
#[derive(Debug, Clone, Copy, PartialEq, Eq)]
pub struct WebSocketConnection {
    pub diagnostics: Option<TransportDiagnostics>,
}

/// How a poll for the next message came out.
#[derive(Debug)]
pub enum NextPoll<'a> {
    Pending,
    Message(&'a Message),
    Failed(WebSocketFailure),
    Ended,
}

/// How a handshake came out: with the status of the response, or with a failure.
#[derive(Debug)]
pub enum Handshake {
    Succeeded { status: u16 },
    Failed(WebSocketFailure),
}

/// What a failed operation gives to report: the failure, where there are diagnostics.
pub open spec fn failure_reported(
    diagnostics: Option<TransportDiagnostics>,
    operation: Seq<char>,
    failure: Option<WebSocketFailure>,
    lifetime_ms: u64,
    event: Option<TransportEvent>,
) -> bool {
    match (diagnostics, failure) {
        (Some(diagnostics), Some(failure)) => event matches Some(event)
            && diagnostics.reports_failure(operation, failure, lifetime_ms, event),
        _ => event is None,
    }
}

fn report_failure(
    diagnostics: &Option<TransportDiagnostics>,
    operation: &'static str,
    failure: Option<WebSocketFailure>,
    lifetime_ms: u64,
) -> (event: Option<TransportEvent>)
    ensures
        failure_reported(*diagnostics, operation@, failure, lifetime_ms, event),
{
    match (diagnostics, failure) {
        (Some(diagnostics), Some(failure)) => Some(
            diagnostics.websocket_error(operation, failure, lifetime_ms),
        ),
        _ => None,
    }
}

impl WebSocketConnection {
    /// Takes a handshake's outcome. There is a connection exactly when the handshake succeeded;
    /// with diagnostics, either outcome is reported.
    pub fn connect(
        diagnostics: Option<TransportDiagnostics>,
        handshake: Handshake,
        lifetime_ms: u64,
    ) -> (connected: (Option<Self>, Option<TransportEvent>))
        ensures
            match handshake {
                Handshake::Succeeded { status } => {
                    &&& connected.0 == Some(WebSocketConnection { diagnostics })
                    &&& connected.1 == (match diagnostics {
                        Some(diagnostics) => Some(
                            TransportEvent::HandshakeSucceeded {
                                connection_id: diagnostics.connection_id,
                                websocket_status: status,
                                lifetime_ms,
                            },
                        ),
                        None => None,
                    })
                },
                Handshake::Failed(failure) => {
                    &&& connected.0 is None
                    &&& failure_reported(
                        diagnostics,
                        "handshake"@,
                        Some(failure),
                        lifetime_ms,
                        connected.1,
                    )
                },
            },
    {
        match handshake {
            Handshake::Succeeded { status } => {
                let event = match &diagnostics {
                    Some(diagnostics) => Some(diagnostics.handshake_succeeded(status, lifetime_ms)),
                    None => None,
                };
                (Some(WebSocketConnection { diagnostics }), event)
            },
            Handshake::Failed(failure) => (
                None,
                report_failure(&diagnostics, "handshake", Some(failure), lifetime_ms),
            ),
        }
    }

    /// Returns the transport diagnostic connection identifier when diagnostics are enabled.
    pub fn diagnostic_connection_id(&self) -> (id: Option<u64>)
        ensures
            id == (match self.diagnostics {
                Some(diagnostics) => Some(diagnostics.connection_id),
                None => None,
            }),
    {
        match &self.diagnostics {
            Some(diagnostics) => Some(diagnostics.connection_id()),
            None => None,
        }
    }

    /// The connection after something happened to it.
    pub open spec fn after(self, activity: Activity) -> Self {
        match self.diagnostics {
            Some(diagnostics) => WebSocketConnection {
                diagnostics: Some(diagnostics.after(activity)),
            },
            None => self,
        }
    }

    /// Counts and reports a message in the named direction.
    fn message(&mut self, direction: &'static str, message: &Message, lifetime_ms: u64) -> (event:
        Option<TransportEvent>)
        ensures
            *final(self) == old(self).after(
                Activity::Message { direction: direction@, bytes: message.size() as u64 },
            ),
            old(self).message_reported(direction@, message, lifetime_ms, event),
    {
        match self.diagnostics {
            Some(mut diagnostics) => {
                let event = diagnostics.websocket_message(direction, message, lifetime_ms);
                self.diagnostics = Some(diagnostics);
                Some(event)
            },
            None => None,
        }
    }

    /// What a message gives to report: the message, where there are diagnostics.
    pub open spec fn message_reported(
        &self,
        direction: Seq<char>,
        message: &Message,
        lifetime_ms: u64,
        event: Option<TransportEvent>,
    ) -> bool {
        match self.diagnostics {
            Some(diagnostics) => event matches Some(event) && diagnostics.reports_message(
                direction,
                message,
                lifetime_ms,
                event,
            ),
            None => event is None,
        }
    }

    /// Takes the outcome of a poll for the next message. A message is counted as read and
    /// reported; so are a failure and the end reported.
    pub fn poll_next(&mut self, poll: NextPoll<'_>, lifetime_ms: u64) -> (event: Option<
        TransportEvent,
    >)
        ensures
            *final(self) == (match poll {
                NextPoll::Message(message) => old(self).after(
                    Activity::Message { direction: "read"@, bytes: message.size() as u64 },
                ),
                _ => *old(self),
            }),
            match poll {
                NextPoll::Pending => event is None,
                NextPoll::Message(message) => old(self).message_reported(
                    "read"@,
                    message,
                    lifetime_ms,
                    event,
                ),
                NextPoll::Failed(failure) => failure_reported(
                    old(self).diagnostics,
                    "read"@,
                    Some(failure),
                    lifetime_ms,
                    event,
                ),
                NextPoll::Ended => match old(self).diagnostics {
                    Some(diagnostics) => event matches Some(event)
                        && diagnostics.reports_stream_end(lifetime_ms, event),
                    None => event is None,
                },
            },
    {
        match poll {
            NextPoll::Pending => None,
            NextPoll::Message(message) => self.message("read", message, lifetime_ms),
            NextPoll::Failed(failure) => report_failure(
                &self.diagnostics,
                "read",
                Some(failure),
                lifetime_ms,
            ),
            NextPoll::Ended => match &self.diagnostics {
                Some(diagnostics) => Some(diagnostics.stream_ended(lifetime_ms)),
                None => None,
            },
        }
    }

    /// Takes the failure, if any, of a poll for readiness to send.
    pub fn poll_ready(&self, failure: Option<WebSocketFailure>, lifetime_ms: u64) -> (event: Option<
        TransportEvent,
    >)
        ensures
            failure_reported(self.diagnostics, "ready"@, failure, lifetime_ms, event),
    {
        report_failure(&self.diagnostics, "ready", failure, lifetime_ms)
    }

    /// Counts a message as written and reports it, before it is sent.
    pub fn start_send(&mut self, message: &Message, lifetime_ms: u64) -> (event: Option<
        TransportEvent,
    >)
        ensures
            *final(self) == old(self).after(
                Activity::Message { direction: "write"@, bytes: message.size() as u64 },
            ),
            old(self).message_reported("write"@, message, lifetime_ms, event),
    {
        self.message("write", message, lifetime_ms)
    }

    /// Takes the failure, if any, of sending a message.
    pub fn finish_send(&self, failure: Option<WebSocketFailure>, lifetime_ms: u64) -> (event:
        Option<TransportEvent>)
        ensures
            failure_reported(self.diagnostics, "start_send"@, failure, lifetime_ms, event),
    {
        report_failure(&self.diagnostics, "start_send", failure, lifetime_ms)
    }

    /// Takes the failure, if any, of a poll for flushing.
    pub fn poll_flush(&self, failure: Option<WebSocketFailure>, lifetime_ms: u64) -> (event: Option<
        TransportEvent,
    >)
        ensures
            failure_reported(self.diagnostics, "flush"@, failure, lifetime_ms, event),
    {
        report_failure(&self.diagnostics, "flush", failure, lifetime_ms)
    }

    /// Notes, before the WebSocket is polled for closing, that closing began, and reports it the
    /// first time.
    pub fn start_close(&mut self, lifetime_ms: u64) -> (event: Option<TransportEvent>)
        ensures
            *final(self) == old(self).after(Activity::CloseStarted),
            event == (match old(self).diagnostics {
                Some(diagnostics) if !diagnostics.websocket_close_started => Some(
                    TransportEvent::CloseStarted {
                        connection_id: diagnostics.connection_id,
                        lifetime_ms,
                    },
                ),
                _ => None,
            }),
    {
        match self.diagnostics {
            Some(mut diagnostics) => {
                let event = diagnostics.websocket_close_started(lifetime_ms);
                self.diagnostics = Some(diagnostics);
                event
            },
            None => None,
        }
    }

    /// Takes the failure, if any, of a poll for closing.
    pub fn poll_close(&self, failure: Option<WebSocketFailure>, lifetime_ms: u64) -> (event: Option<
        TransportEvent,
    >)
        ensures
            failure_reported(self.diagnostics, "close"@, failure, lifetime_ms, event),
    {
        report_failure(&self.diagnostics, "close", failure, lifetime_ms)
    }

    /// Reports that the connection was let go.
    pub fn dropped(&self, lifetime_ms: u64) -> (event: Option<TransportEvent>)
        ensures
            match self.diagnostics {
                Some(diagnostics) => event matches Some(event) && diagnostics.reports_drop(
                    lifetime_ms,
                    event,
                ),
                None => event is None,
            },
    {
        match &self.diagnostics {
            Some(diagnostics) => Some(diagnostics.connection_dropped(lifetime_ms)),
            None => None,
        }
    }
}

/// Without diagnostics nothing changes and nothing is reported; with them the account changes as
/// the activity says, and a message is always reported and a failure whenever there is one.
pub proof fn diagnostics_decide_what_is_reported(
    connection: WebSocketConnection,
    activity: Activity,
    direction: Seq<char>,
    message: Message,
    failure: Option<WebSocketFailure>,
    lifetime_ms: u64,
    event: Option<TransportEvent>,
)
    ensures
        connection.diagnostics is None ==> connection.after(activity) == connection,
        connection.diagnostics matches Some(diagnostics) ==> connection.after(
            activity,
        ).diagnostics == Some(diagnostics.after(activity)),
        connection.message_reported(direction, &message, lifetime_ms, event) ==> (event is Some
            <==> connection.diagnostics is Some),
        connection.message_reported(direction, &message, lifetime_ms, event) && event is Some
            ==> connection.diagnostics->Some_0.reports_message(
            direction,
            &message,
            lifetime_ms,
            event->Some_0,
        ),
        failure_reported(connection.diagnostics, direction, failure, lifetime_ms, event) ==> (event
            is Some <==> connection.diagnostics is Some && failure is Some),
        failure_reported(connection.diagnostics, direction, failure, lifetime_ms, event) && event
            is Some ==> connection.diagnostics->Some_0.reports_failure(
            direction,
            failure->Some_0,
            lifetime_ms,
            event->Some_0,
        ),
{
}

} // verus!
