use codex_support::diagnostics_switch::diagnostics_enabled;
use codex_support::message::close_details;
use codex_support::message::message_kind;
use codex_support::message::CloseFrame;
use codex_support::message::Message;
use codex_support::redacted_uri::redacted_parts;
use codex_support::redacted_uri::redacted_uri;
use codex_support::redacted_uri::UriParts;
use codex_support::socket_snapshot::tcp_state_name;
use codex_support::socket_snapshot::OptionReading;
use codex_support::socket_snapshot::PollMasks;
use codex_support::socket_snapshot::SocketReadings;
use codex_support::socket_snapshot::TcpInfoReading;
use codex_support::transport_diagnostics::timestamp;
use codex_support::transport_diagnostics::ConnectionIds;
use codex_support::transport_diagnostics::TransportDiagnostics;
use codex_support::transport_diagnostics::NEVER;
use codex_support::transport_event::IoFailure;
use codex_support::transport_event::Level;
use codex_support::transport_event::SocketInfo;
use codex_support::transport_event::TransportEvent;
use codex_support::transport_event::WebSocketFailure;
use codex_support::transport_stream::perform;
use codex_support::transport_stream::poll_flush;
use codex_support::transport_stream::poll_read;
use codex_support::transport_stream::poll_shutdown;
use codex_support::transport_stream::poll_write;
use codex_support::transport_stream::poll_write_vectored;
use codex_support::transport_stream::ControlPoll;
use codex_support::transport_stream::RawAction;
use codex_support::transport_stream::ReadPoll;
use codex_support::transport_stream::WritePoll;
use codex_support::websocket_connection::Handshake;
use codex_support::websocket_connection::NextPoll;
use codex_support::websocket_connection::WebSocketConnection;
use tokio::io::AsyncReadExt;

const FRESH: &str = "lifetime_ms=7 raw_read=0 raw_written=0 ws_read=0 ws_written=0 \
                     last_read_ms=None last_write_ms=None read_zero=false \
                     local_write_shutdown=false websocket_close_started=false \
                     transport_dropped=false";

fn opened() -> TransportDiagnostics {
    let mut ids = ConnectionIds::new();
    TransportDiagnostics::new(&mut ids, &target(), "Direct".to_string(), 0).0
}

fn target() -> UriParts {
    UriParts {
        scheme: Some("wss".to_string()),
        authority: Some("example.test".to_string()),
        path: "/stream".to_string(),
    }
}

fn socket() -> SocketInfo {
    SocketInfo {
        local_addr: "local".to_string(),
        peer_addr: "peer".to_string(),
        snapshot: "snapshot".to_string(),
    }
}

fn io_failure() -> IoFailure {
    IoFailure {
        text: "reset".to_string(),
        kind: "ConnectionReset".to_string(),
        raw_os_error: Some(104),
    }
}

fn failure() -> WebSocketFailure {
    WebSocketFailure {
        text: "IO error: reset".to_string(),
        io: Some(io_failure()),
    }
}

#[derive(Debug, PartialEq, Eq)]
struct DiagnosticState {
    raw_bytes_read: u64,
    read_zero: bool,
    transport_dropped: bool,
}

fn state(diagnostics: &TransportDiagnostics) -> DiagnosticState {
    DiagnosticState {
        raw_bytes_read: diagnostics.raw_bytes_read,
        read_zero: diagnostics.read_zero,
        transport_dropped: diagnostics.transport_dropped,
    }
}

#[test]
fn records_socket_eof_before_transport_drop() {
    let mut diagnostics = opened();
    let mut byte = [0_u8; 1];
    let runtime = tokio::runtime::Builder::new_current_thread()
        .enable_all()
        .build()
        .expect("runtime should start");
    let bytes = runtime.block_on(async {
        let (server, mut client) =
            tokio::net::UnixStream::pair().expect("sockets should connect");
        drop(server);
        client
            .read(&mut byte)
            .await
            .expect("orderly end should read as EOF")
    });

    assert_eq!(bytes, 0);
    let action = poll_read(ReadPoll::Ready {
        filled_before: 0,
        filled_after: bytes,
        had_capacity: true,
    });
    assert_eq!(action, RawAction::RecordEnd);
    assert!(action.takes_snapshot());
    let event = perform(&mut diagnostics, action, Some(socket()), None, 1);
    assert_eq!(event.map(|event| event.name()), Some("raw_tcp_read_zero"));
    assert_eq!(
        state(&diagnostics),
        DiagnosticState {
            raw_bytes_read: 0,
            read_zero: true,
            transport_dropped: false,
        }
    );

    diagnostics.raw_transport_dropped(socket(), 2);
    assert_eq!(
        state(&diagnostics),
        DiagnosticState {
            raw_bytes_read: 0,
            read_zero: true,
            transport_dropped: true,
        }
    );
}

#[test]
fn diagnostics_are_switched_on_by_a_word() {
    for on in ["1", "true", "yes", "on", "TRUE", " Yes\n", "\u{3000}On\u{a0}"] {
        assert!(diagnostics_enabled(Some(on)));
    }
    for off in ["", " ", "0", "false", "off", "tru e", "yess", "1 1", "ｏｎ"] {
        assert!(!diagnostics_enabled(Some(off)));
    }
    assert!(!diagnostics_enabled(None));
}

#[test]
fn redacted_uris_lose_query_and_fragment() {
    assert_eq!(
        redacted_uri("wss://user@example.test:8443/stream?token=secret#part").as_deref(),
        Some("wss://user@example.test:8443/stream")
    );
    assert_eq!(
        redacted_uri("https://example.test").as_deref(),
        Some("https://example.test/")
    );
    assert_eq!(
        redacted_uri("/only/path?q=1").as_deref(),
        Some("<unknown>://<unknown>/only/path")
    );
    assert_eq!(
        redacted_uri("example.test:80").as_deref(),
        Some("<unknown>://example.test:80")
    );
    assert_eq!(redacted_uri("not a uri"), None);
    assert_eq!(redacted_uri(""), None);
}

#[test]
fn missing_parts_of_a_uri_are_unknown() {
    let parts = UriParts {
        scheme: None,
        authority: None,
        path: "/p".to_string(),
    };
    assert_eq!(redacted_parts(&parts), "<unknown>://<unknown>/p");
}

#[test]
fn connections_are_numbered_from_one() {
    let mut ids = ConnectionIds::new();
    assert_eq!(ids.take(), 1);
    assert_eq!(ids.take(), 2);
    let mut last = ConnectionIds { next: u64::MAX };
    assert_eq!(last.take(), u64::MAX);
    assert_eq!(last.take(), 0);
}

#[test]
fn opening_reports_the_redacted_target() {
    let mut ids = ConnectionIds::new();
    let (diagnostics, event) = TransportDiagnostics::new_from_text(
        &mut ids,
        "wss://example.test/stream?key=1",
        "Direct".to_string(),
        5,
    )
    .expect("URI should parse");
    assert_eq!(diagnostics.connection_id(), 1);
    assert_eq!(diagnostics.fd, -1);
    assert_eq!(ids.next, 2);
    assert_eq!(event.level(), Level::Info);
    assert_eq!(event.name(), "connection_created");
    assert_eq!(
        event,
        TransportEvent::ConnectionCreated {
            connection_id: 1,
            created_at_unix_ms: 5,
            url: "wss://example.test/stream".to_string(),
            route: "Direct".to_string(),
        }
    );
}

#[test]
fn nothing_is_opened_unless_asked_for() {
    let mut ids = ConnectionIds::new();
    let uri = target();
    let route = || "Direct".to_string();
    assert!(TransportDiagnostics::from_env(None, &mut ids, &uri, route(), 0).is_none());
    assert!(TransportDiagnostics::from_env(Some("0"), &mut ids, &uri, route(), 0).is_none());
    assert!(TransportDiagnostics::new_from_text(&mut ids, "a b", route(), 0).is_none());
    assert_eq!(ids.next, 1);
    assert!(TransportDiagnostics::from_env(Some("1"), &mut ids, &uri, route(), 0).is_some());
    assert_eq!(ids.next, 2);
}

#[test]
fn every_target_is_opened_when_asked_for() {
    let mut ids = ConnectionIds::new();
    let nowhere = UriParts {
        scheme: None,
        authority: None,
        path: String::new(),
    };
    let long = UriParts {
        path: format!("/{}", "x".repeat(70_000)),
        ..target()
    };
    for (uri, shown) in [
        (&nowhere, "<unknown>://<unknown>".to_string()),
        (&long, format!("wss://example.test{}", long.path)),
    ] {
        let id = ids.next;
        let (diagnostics, event) =
            TransportDiagnostics::from_env(Some("on"), &mut ids, uri, "Direct".to_string(), 3)
                .expect("diagnostics should be opened");
        assert_eq!(diagnostics.connection_id(), id);
        assert_eq!(
            event,
            TransportEvent::ConnectionCreated {
                connection_id: id,
                created_at_unix_ms: 3,
                url: shown,
                route: "Direct".to_string(),
            }
        );
    }
    assert_eq!(ids.next, 3);
}

#[test]
fn actions_reach_the_account() {
    let mut diagnostics = opened();
    assert!(perform(&mut diagnostics, RawAction::Nothing, None, None, 1).is_none());
    assert_eq!(diagnostics, opened());

    let read = poll_read(ReadPoll::Ready {
        filled_before: 1,
        filled_after: 6,
        had_capacity: true,
    });
    assert!(perform(&mut diagnostics, read, None, None, 2).is_none());
    let written = poll_write(WritePoll::Ready { bytes: 3 });
    assert!(perform(&mut diagnostics, written, None, None, 3).is_none());
    assert_eq!(diagnostics.raw_bytes_read, 5);
    assert_eq!(diagnostics.last_read_ms, 2);
    assert_eq!(diagnostics.raw_bytes_written, 3);
    assert_eq!(diagnostics.last_write_ms, 3);

    let before = diagnostics;
    let failed = poll_flush(ControlPoll::Failed);
    let event = perform(
        &mut diagnostics,
        failed,
        Some(socket()),
        Some(io_failure()),
        4,
    );
    assert_eq!(
        event,
        Some(TransportEvent::IoError {
            connection_id: 1,
            operation: "flush",
            failure: io_failure(),
            fd: -1,
            socket: socket(),
            state: before.summary(4),
        })
    );
    assert_eq!(diagnostics, before);
}

#[test]
fn a_fresh_account_is_summed_up() {
    assert_eq!(opened().summary(7), FRESH);
}

#[test]
fn an_account_in_use_is_summed_up() {
    let mut diagnostics = opened();
    diagnostics.raw_read(10, 3);
    diagnostics.raw_read(5, 4);
    diagnostics.raw_write(1, 5);
    diagnostics.raw_write(0, 6);
    diagnostics.websocket_message("read", &Message::Text("hé".to_string()), 6);
    diagnostics.websocket_message("write", &Message::Binary(vec![1, 2]), 6);
    diagnostics.websocket_message("sideways", &Message::Binary(vec![1, 2]), 6);
    assert_eq!(
        diagnostics.summary(12),
        "lifetime_ms=12 raw_read=15 raw_written=1 ws_read=3 ws_written=2 last_read_ms=Some(4) \
         last_write_ms=Some(6) read_zero=false local_write_shutdown=false \
         websocket_close_started=false transport_dropped=false"
    );
}

#[test]
fn byte_counts_wrap_around() {
    let mut diagnostics = opened();
    diagnostics.raw_bytes_read = u64::MAX;
    diagnostics.raw_read(2, 0);
    assert_eq!(diagnostics.raw_bytes_read, 1);
}

#[test]
fn spans_saturate_and_never_is_no_time() {
    assert_eq!(TransportDiagnostics::elapsed_ms(0), 0);
    assert_eq!(TransportDiagnostics::elapsed_ms(u64::MAX as u128), u64::MAX);
    assert_eq!(
        TransportDiagnostics::elapsed_ms(u64::MAX as u128 + 1),
        u64::MAX
    );
    assert_eq!(timestamp(NEVER), None);
    assert_eq!(timestamp(0), Some(0));
}

#[test]
fn sizes_kinds_and_details_of_messages() {
    let close = Message::Close(Some(CloseFrame {
        code: 1001,
        reason: "bye".to_string(),
    }));
    let all = [
        (Message::Text("é".to_string()), 2, "text", false),
        (Message::Binary(vec![0; 5]), 5, "binary", false),
        (Message::Ping(vec![1]), 1, "ping", true),
        (Message::Pong(vec![1, 2]), 2, "pong", true),
        (Message::Close(None), 0, "close", true),
        (close.clone(), 3, "close", true),
        (Message::Frame(9), 9, "frame", false),
    ];
    for (message, size, kind, control) in &all {
        assert_eq!(message.len(), *size);
        assert_eq!(message_kind(message), *kind);
        assert_eq!(message.is_control(), *control);
    }
    assert_eq!(
        close_details(&close),
        Some(("1001".to_string(), "bye".to_string()))
    );
    assert_eq!(close_details(&Message::Close(None)), None);
    assert_eq!(close_details(&Message::Ping(Vec::new())), None);
}

#[test]
fn control_frames_and_data_are_reported_apart() {
    let mut diagnostics = opened();
    let close = Message::Close(Some(CloseFrame {
        code: 1000,
        reason: "done".to_string(),
    }));
    let event = diagnostics.websocket_message("read", &close, 4);
    assert_eq!(event.level(), Level::Info);
    assert_eq!(
        event,
        TransportEvent::ControlFrame {
            connection_id: 1,
            direction: "read",
            kind: "close",
            payload_bytes: 4,
            close: Some(("1000".to_string(), "done".to_string())),
            lifetime_ms: 4,
        }
    );
    let event = diagnostics.websocket_message("write", &Message::Text("abc".to_string()), 5);
    assert_eq!(event.level(), Level::Debug);
    assert_eq!(event.name(), "websocket_message");
    assert_eq!(diagnostics.websocket_bytes_read, 4);
    assert_eq!(diagnostics.websocket_bytes_written, 3);
}

#[test]
fn failures_name_their_operation_and_cause() {
    let mut diagnostics = opened();
    let event = diagnostics.tcp_connected(Some(9), socket());
    assert_eq!(
        event,
        TransportEvent::TcpConnected {
            connection_id: 1,
            fd: 9,
            socket: socket(),
        }
    );
    assert_eq!(
        diagnostics.websocket_error("handshake", failure(), 7),
        TransportEvent::WebSocketError {
            connection_id: 1,
            operation: "handshake",
            error: "IO error: reset".to_string(),
            io_kind: Some("ConnectionReset".to_string()),
            raw_os_error: Some(104),
            fd: 9,
            state: FRESH.to_string(),
        }
    );
    let protocol = WebSocketFailure {
        text: "closed".to_string(),
        io: None,
    };
    assert_eq!(
        diagnostics.websocket_error("read", protocol, 7),
        TransportEvent::WebSocketError {
            connection_id: 1,
            operation: "read",
            error: "closed".to_string(),
            io_kind: None,
            raw_os_error: None,
            fd: 9,
            state: FRESH.to_string(),
        }
    );
    assert_eq!(
        diagnostics.raw_io_error("flush", io_failure(), socket(), 7),
        TransportEvent::IoError {
            connection_id: 1,
            operation: "flush",
            failure: io_failure(),
            fd: 9,
            socket: socket(),
            state: FRESH.to_string(),
        }
    );
}

#[test]
fn beginnings_of_closing_are_reported_once() {
    let mut diagnostics = opened();
    assert!(diagnostics.websocket_close_started(1).is_some());
    assert!(diagnostics.websocket_close_started(2).is_none());
    let local = || "local".to_string();
    let peer = || "peer".to_string();
    let event = diagnostics
        .raw_shutdown(local(), peer(), 3)
        .expect("first shutdown should be reported");
    assert_eq!(event.level(), Level::Warn);
    assert_eq!(event.name(), "local_tcp_write_shutdown_polled");
    assert!(diagnostics.raw_shutdown(local(), peer(), 4).is_none());
    assert!(diagnostics.local_write_shutdown);
    assert!(diagnostics.websocket_close_started);
}

#[test]
fn resolution_and_handshake_are_reported() {
    let diagnostics = opened();
    assert_eq!(
        diagnostics.resolved("example.test:443".to_string(), "[]".to_string()),
        TransportEvent::TcpResolved {
            connection_id: 1,
            authority: "example.test:443".to_string(),
            addresses: "[]".to_string(),
        }
    );
    assert_eq!(
        diagnostics.handshake_succeeded(101, 8),
        TransportEvent::HandshakeSucceeded {
            connection_id: 1,
            websocket_status: 101,
            lifetime_ms: 8,
        }
    );
}

#[test]
fn reading_is_counted_or_ends_or_waits() {
    let ready = |filled_before, filled_after, had_capacity| ReadPoll::Ready {
        filled_before,
        filled_after,
        had_capacity,
    };
    assert_eq!(
        poll_read(ready(2, 7, true)),
        RawAction::RecordRead { bytes: 5 }
    );
    assert_eq!(
        poll_read(ready(2, 7, false)),
        RawAction::RecordRead { bytes: 5 }
    );
    assert_eq!(poll_read(ready(2, 2, true)), RawAction::RecordEnd);
    assert_eq!(poll_read(ready(2, 1, true)), RawAction::RecordEnd);
    assert_eq!(poll_read(ready(2, 2, false)), RawAction::Nothing);
    assert_eq!(poll_read(ReadPoll::Pending), RawAction::Nothing);
    assert_eq!(
        poll_read(ReadPoll::Failed),
        RawAction::ReportError { operation: "read" }
    );
}

#[test]
fn other_operations_are_counted_or_fail() {
    let empty = poll_write(WritePoll::Ready { bytes: 0 });
    assert_eq!(empty, RawAction::RecordWrite { bytes: 0 });
    assert!(!empty.takes_snapshot());
    assert_eq!(poll_write(WritePoll::Pending), RawAction::Nothing);
    let failed = poll_write(WritePoll::Failed);
    assert_eq!(failed, RawAction::ReportError { operation: "write" });
    assert!(failed.takes_snapshot());
    assert_eq!(
        poll_write_vectored(WritePoll::Failed),
        RawAction::ReportError {
            operation: "write_vectored"
        }
    );
    assert_eq!(poll_flush(ControlPoll::Ready), RawAction::Nothing);
    assert_eq!(
        poll_flush(ControlPoll::Failed),
        RawAction::ReportError { operation: "flush" }
    );
    assert_eq!(poll_shutdown(ControlPoll::Pending), RawAction::Nothing);
    assert_eq!(
        poll_shutdown(ControlPoll::Failed),
        RawAction::ReportError {
            operation: "shutdown"
        }
    );
}

#[test]
fn handshakes_make_connections() {
    let (connection, event) =
        WebSocketConnection::connect(Some(opened()), Handshake::Succeeded { status: 101 }, 3);
    assert_eq!(
        connection.and_then(|connection| connection.diagnostic_connection_id()),
        Some(1)
    );
    assert_eq!(
        event.map(|event| event.name()),
        Some("handshake_succeeded")
    );
    let (connection, event) =
        WebSocketConnection::connect(Some(opened()), Handshake::Failed(failure()), 3);
    assert!(connection.is_none());
    assert!(matches!(
        event,
        Some(TransportEvent::WebSocketError {
            operation: "handshake",
            ..
        })
    ));
}

#[test]
fn connections_without_diagnostics_report_nothing() {
    let (connection, event) =
        WebSocketConnection::connect(None, Handshake::Succeeded { status: 101 }, 3);
    assert!(event.is_none());
    let mut connection = connection.expect("handshake should connect");
    assert_eq!(connection.diagnostic_connection_id(), None);
    let message = Message::Ping(Vec::new());
    assert!(connection
        .poll_next(NextPoll::Message(&message), 0)
        .is_none());
    assert!(connection.poll_next(NextPoll::Ended, 0).is_none());
    assert!(connection
        .poll_next(NextPoll::Failed(failure()), 0)
        .is_none());
    assert!(connection.start_send(&message, 0).is_none());
    assert!(connection.start_close(0).is_none());
    assert!(connection.poll_close(Some(failure()), 0).is_none());
    assert!(connection.dropped(0).is_none());
}

fn operation(event: Option<TransportEvent>) -> &'static str {
    match event {
        Some(TransportEvent::WebSocketError { operation, .. }) => operation,
        _ => panic!("a failure should be reported"),
    }
}

#[test]
fn connections_account_for_what_they_poll() {
    let mut connection = WebSocketConnection {
        diagnostics: Some(opened()),
    };
    let message = Message::Binary(vec![0; 6]);
    assert!(connection.poll_next(NextPoll::Pending, 1).is_none());
    let event = connection.poll_next(NextPoll::Message(&message), 1);
    assert!(matches!(
        event,
        Some(TransportEvent::DataMessage {
            direction: "read",
            payload_bytes: 6,
            ..
        })
    ));
    let event = connection.start_send(&message, 2);
    assert!(matches!(
        event,
        Some(TransportEvent::DataMessage {
            direction: "write",
            ..
        })
    ));
    let diagnostics = connection.diagnostics.expect("diagnostics should stay");
    assert_eq!(diagnostics.websocket_bytes_read, 6);
    assert_eq!(diagnostics.websocket_bytes_written, 6);

    assert_eq!(
        operation(connection.poll_next(NextPoll::Failed(failure()), 3)),
        "read"
    );
    assert_eq!(
        operation(connection.poll_ready(Some(failure()), 3)),
        "ready"
    );
    assert_eq!(
        operation(connection.finish_send(Some(failure()), 3)),
        "start_send"
    );
    assert_eq!(
        operation(connection.poll_flush(Some(failure()), 3)),
        "flush"
    );
    assert_eq!(
        operation(connection.poll_close(Some(failure()), 3)),
        "close"
    );
    assert!(connection.poll_ready(None, 3).is_none());

    assert_eq!(
        connection.start_close(4),
        Some(TransportEvent::CloseStarted {
            connection_id: 1,
            lifetime_ms: 4
        })
    );
    assert_eq!(connection.start_close(5), None);
    assert_eq!(
        connection
            .poll_next(NextPoll::Ended, 6)
            .map(|event| event.name()),
        Some("websocket_stream_ended")
    );
    assert_eq!(
        connection.dropped(7).map(|event| event.name()),
        Some("websocket_object_dropped")
    );
}

fn readings() -> SocketReadings {
    let read = |value| OptionReading { result: 0, value };
    SocketReadings {
        fd_flags: 1,
        poll_result: 1,
        revents: 0x2001,
        recv_peek: 0,
        last_errno: Some(11),
        so_error: read(0),
        so_keepalive: read(1),
        tcp_keepidle: read(7200),
        tcp_keepintvl: read(75),
        tcp_keepcnt: OptionReading {
            result: -1,
            value: 3,
        },
        tcp_info: TcpInfoReading {
            result: 0,
            length: 104,
            first_byte: 8,
        },
    }
}

const MASKS: PollMasks = PollMasks {
    pollin: 0x1,
    pollout: 0x4,
    pollerr: 0x8,
    pollhup: 0x10,
    pollrdhup: 0x2000,
};

#[test]
fn a_half_closed_socket_is_described() {
    assert_eq!(
        readings().socket_snapshot(MASKS),
        "fd_open=true poll_revents=Some(8193) pollin=Some(true) pollout=Some(false) \
         pollerr=Some(false) pollhup=Some(false) pollrdhup=Some(true) recv_peek=0 \
         recv_peek_errno=None so_error=Some(0) so_keepalive=Some(1) tcp_keepidle=Some(7200) \
         tcp_keepintvl=Some(75) tcp_keepcnt=None tcp_state=Some(\"close_wait\") \
         tcp_state_raw=Some(8)"
    );
}

#[test]
fn a_socket_that_does_not_answer_is_described() {
    let unread = OptionReading {
        result: -1,
        value: 0,
    };
    let silent = SocketReadings {
        fd_flags: -1,
        poll_result: -1,
        revents: 0,
        recv_peek: -1,
        last_errno: Some(9),
        so_error: unread,
        so_keepalive: unread,
        tcp_keepidle: unread,
        tcp_keepintvl: unread,
        tcp_keepcnt: unread,
        tcp_info: TcpInfoReading {
            result: 0,
            length: 0,
            first_byte: 1,
        },
    };
    assert_eq!(
        silent.socket_snapshot(MASKS),
        "fd_open=false poll_revents=None pollin=None pollout=None pollerr=None pollhup=None \
         pollrdhup=None recv_peek=-1 recv_peek_errno=Some(9) so_error=None so_keepalive=None \
         tcp_keepidle=None tcp_keepintvl=None tcp_keepcnt=None tcp_state=None tcp_state_raw=None"
    );
}

#[test]
fn states_of_tcp_connections_have_names() {
    let names = [
        "unknown",
        "established",
        "syn_sent",
        "syn_received",
        "fin_wait_1",
        "fin_wait_2",
        "time_wait",
        "closed",
        "close_wait",
        "last_ack",
        "listen",
        "closing",
        "new_syn_received",
        "unknown",
    ];
    for (state, name) in names.iter().enumerate() {
        assert_eq!(tcp_state_name(state as u8), *name);
    }
    assert_eq!(tcp_state_name(255), "unknown");
}

#[test]
fn events_have_names_and_levels() {
    let mut diagnostics = opened();
    let text = Message::Text("t".to_string());
    let ping = Message::Ping(Vec::new());
    let all = [
        (
            diagnostics.resolved(String::new(), String::new()),
            "tcp_resolved",
            Level::Info,
        ),
        (
            diagnostics.tcp_connected(None, socket()),
            "tcp_connected",
            Level::Info,
        ),
        (
            diagnostics.handshake_succeeded(101, 0),
            "handshake_succeeded",
            Level::Info,
        ),
        (
            diagnostics.websocket_message("read", &ping, 0),
            "websocket_control_frame",
            Level::Info,
        ),
        (
            diagnostics.websocket_message("read", &text, 0),
            "websocket_message",
            Level::Debug,
        ),
        (
            diagnostics.websocket_error("read", failure(), 0),
            "websocket_error",
            Level::Warn,
        ),
        (
            diagnostics.stream_ended(0),
            "websocket_stream_ended",
            Level::Warn,
        ),
        (
            diagnostics
                .websocket_close_started(0)
                .expect("first close should be reported"),
            "local_websocket_close_started",
            Level::Info,
        ),
        (
            diagnostics.connection_dropped(0),
            "websocket_object_dropped",
            Level::Warn,
        ),
        (
            diagnostics.raw_read_zero(socket(), 0),
            "raw_tcp_read_zero",
            Level::Warn,
        ),
        (
            diagnostics.raw_io_error("read", io_failure(), socket(), 0),
            "raw_tcp_io_error",
            Level::Warn,
        ),
        (
            diagnostics.raw_transport_dropped(socket(), 0),
            "raw_tcp_transport_dropped",
            Level::Warn,
        ),
    ];
    for (event, name, level) in &all {
        assert_eq!(event.name(), *name);
        assert_eq!(event.level(), *level);
    }
}

#[test]
fn what_happened_stays_on_the_account() {
    let mut diagnostics = opened();
    diagnostics.tcp_connected(Some(4), socket());
    diagnostics.raw_read_zero(socket(), 1);
    diagnostics.websocket_close_started(2);
    diagnostics.raw_shutdown(String::new(), String::new(), 3);
    diagnostics.raw_transport_dropped(socket(), 4);
    diagnostics.tcp_connected(None, socket());
    diagnostics.raw_read(8, 5);
    diagnostics.raw_write(9, 6);
    diagnostics.websocket_message("read", &Message::Pong(vec![1, 2, 3]), 7);
    assert_eq!(diagnostics.connection_id(), 1);
    assert_eq!(diagnostics.fd, 4);
    assert_eq!(
        diagnostics.summary(8),
        "lifetime_ms=8 raw_read=8 raw_written=9 ws_read=3 ws_written=0 last_read_ms=Some(5) \
         last_write_ms=Some(6) read_zero=true local_write_shutdown=true \
         websocket_close_started=true transport_dropped=true"
    );
}
