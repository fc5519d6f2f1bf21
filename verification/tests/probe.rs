use codex_support::format_text::push_decimal;
use codex_support::message::Message;
use codex_support::probe_lines::connected_line;
use codex_support::probe_lines::duration_reached_line;
use codex_support::probe_lines::message_line;
use codex_support::probe_lines::ping_sent_line;
use codex_support::probe_lines::report_error;
use codex_support::probe_lines::started_line;
use codex_support::probe_lines::stream_ended_line;
use codex_support::probe_options::Options;
use codex_support::probe_options::OptionsError;
use codex_support::probe_proxy::check_proxy_parts;
use codex_support::probe_proxy::validate_proxy_url;
use codex_support::probe_proxy::ProxyParts;
use codex_support::probe_proxy::ProxyUrlError;
use codex_support::probe_seconds::parse_seconds;
use codex_support::probe_seconds::SecondsError;
use codex_support::probe_session::ProbeAction;
use codex_support::probe_session::ProbeEvent;
use codex_support::probe_session::ProbeSession;
use codex_support::transport_event::IoFailure;
use codex_support::transport_event::WebSocketFailure;

fn parse(arguments: &[&str]) -> Result<Options, OptionsError> {
    Options::parse(&arguments.iter().map(|argument| argument.to_string()).collect())
}

#[test]
fn a_target_alone_gets_the_defaults() {
    assert_eq!(
        parse(&["wss://example.test"]),
        Ok(Options {
            id: "probe".to_string(),
            url: "wss://example.test".to_string(),
            duration_seconds: 600,
            ping_interval_seconds: Some(30),
            proxy_url: None,
            path_label: None,
        })
    );
}

#[test]
fn options_may_stand_anywhere() {
    assert_eq!(
        parse(&[
            "wss://example.test",
            "--id",
            "--odd",
            "+60",
            "--proxy",
            "http://localhost:8080",
            "0",
            "--path-label",
            "tun",
            "--id",
            "second",
        ]),
        Ok(Options {
            id: "second".to_string(),
            url: "wss://example.test".to_string(),
            duration_seconds: 60,
            ping_interval_seconds: None,
            proxy_url: Some("http://localhost:8080".to_string()),
            path_label: Some("tun".to_string()),
        })
    );
}

fn refusal(arguments: &[&str]) -> (OptionsError, String) {
    let error = parse(arguments).expect_err("arguments should be refused");
    let message = error.message();
    (error, message)
}

#[test]
fn command_lines_are_refused_with_a_reason() {
    assert_eq!(
        refusal(&[]),
        (
            OptionsError::MissingUrl,
            "usage: hmos_wss_probe [--id ID] [--path-label LABEL] \
             [--proxy http://127.0.0.1:PORT] \
             <wss-url> [duration-seconds=600] [ping-seconds=30]"
                .to_string()
        )
    );
    assert_eq!(
        refusal(&["url", "--id"]),
        (
            OptionsError::MissingValue("--id"),
            "missing value for --id".to_string()
        )
    );
    assert_eq!(
        refusal(&["--path-label"]).0,
        OptionsError::MissingValue("--path-label")
    );
    assert_eq!(refusal(&["--proxy"]).0, OptionsError::MissingValue("--proxy"));
    assert_eq!(
        refusal(&["url", "--fast"]),
        (
            OptionsError::UnknownOption("--fast".to_string()),
            "unknown option: --fast".to_string()
        )
    );
    assert_eq!(
        refusal(&["url", "1", "2", "3"]),
        (
            OptionsError::TooManyArguments,
            "too many arguments".to_string()
        )
    );
    assert_eq!(
        refusal(&["url", "1", "x", "3"]),
        (
            OptionsError::Seconds(SecondsError::InvalidDigit),
            "invalid digit found in string".to_string()
        )
    );
    assert_eq!(
        refusal(&["url", "--proxy", "http://example.test"]),
        (
            OptionsError::Proxy(ProxyUrlError::NotLoopback),
            "--proxy must use a loopback host for the TUN control experiment".to_string()
        )
    );
}

#[test]
fn a_single_dash_is_no_option() {
    assert_eq!(parse(&["-x"]).map(|options| options.url), Ok("-x".to_string()));
    assert_eq!(
        refusal(&["--"]).0,
        OptionsError::UnknownOption("--".to_string())
    );
}

#[test]
fn loopback_proxies_are_accepted() {
    assert_eq!(validate_proxy_url("http://127.0.0.1:8080"), Ok(()));
    assert_eq!(validate_proxy_url("https://localhost"), Ok(()));
    assert_eq!(validate_proxy_url("HTTP://LOCALHOST:1/path?q"), Ok(()));
}

#[test]
fn other_proxies_are_refused() {
    assert_eq!(
        validate_proxy_url("socks5://127.0.0.1:1080"),
        Err(ProxyUrlError::UnsupportedScheme)
    );
    assert_eq!(
        validate_proxy_url("http://10.0.0.1:8080"),
        Err(ProxyUrlError::NotLoopback)
    );
    assert_eq!(
        validate_proxy_url("http://[::1]:8080"),
        Err(ProxyUrlError::NotLoopback)
    );
    let error = validate_proxy_url("localhost").expect_err("a bare host is no URL");
    assert_eq!(
        error,
        ProxyUrlError::Invalid("relative URL without a base".to_string())
    );
    assert_eq!(error.message(), "relative URL without a base");
}

#[test]
fn parts_of_proxies_are_checked_in_order() {
    let parts = |scheme: &str, host: Option<&str>, port| ProxyParts {
        scheme: scheme.to_string(),
        host: host.map(str::to_string),
        port,
    };
    assert_eq!(check_proxy_parts(&parts("http", Some("::1"), Some(1))), Ok(()));
    assert_eq!(
        check_proxy_parts(&parts("ftp", None, None)),
        Err(ProxyUrlError::UnsupportedScheme)
    );
    let missing_host = check_proxy_parts(&parts("https", None, None));
    assert_eq!(missing_host, Err(ProxyUrlError::MissingHost));
    assert_eq!(
        ProxyUrlError::MissingHost.message(),
        "--proxy URL must include a host"
    );
    let missing_port = check_proxy_parts(&parts("https", Some("localhost"), None));
    assert_eq!(missing_port, Err(ProxyUrlError::MissingPort));
    assert_eq!(
        ProxyUrlError::MissingPort.message(),
        "--proxy URL must include a port"
    );
    assert_eq!(
        ProxyUrlError::UnsupportedScheme.message(),
        "--proxy currently supports explicit HTTP CONNECT proxies only"
    );
}

#[test]
fn seconds_are_decimal_numbers() {
    assert_eq!(parse_seconds(None, 5), Ok(5));
    assert_eq!(parse_seconds(Some("0"), 5), Ok(0));
    assert_eq!(parse_seconds(Some("+007"), 5), Ok(7));
    assert_eq!(
        parse_seconds(Some("18446744073709551615"), 5),
        Ok(u64::MAX)
    );
    assert_eq!(
        parse_seconds(Some("18446744073709551616"), 5),
        Err(SecondsError::TooLarge)
    );
    assert_eq!(parse_seconds(Some(""), 5), Err(SecondsError::Empty));
    for text in ["+", "-", "-1", " 1", "1 ", "1_0", "++1", "1+", "٣"] {
        assert_eq!(parse_seconds(Some(text), 5), Err(SecondsError::InvalidDigit));
    }
}

#[test]
fn seconds_are_read_as_the_standard_library_reads_numbers() {
    for text in [
        "", "+", "-", "0", "00", "12", "+12", "-12", "99999999999999999999", "1844674407370955161x",
        "99999999999999999999x", "18446744073709551615", "18446744073709551616", "é",
    ] {
        let expected = text.parse::<u64>();
        match parse_seconds(Some(text), 0) {
            Ok(seconds) => assert_eq!(expected, Ok(seconds)),
            Err(error) => assert_eq!(
                expected.expect_err("both should refuse").to_string(),
                error.message()
            ),
        }
    }
}

#[test]
fn printed_numbers_are_read_back() {
    for number in [0, 9, 10, 600, u64::MAX] {
        let mut text = String::new();
        push_decimal(&mut text, number as u128);
        assert_eq!(text, number.to_string());
        assert_eq!(parse_seconds(Some(&text), 1), Ok(number));
    }
}

#[test]
fn pings_are_numbered() {
    let mut session = ProbeSession::new();
    for expected in ["hmos-probe-1", "hmos-probe-2"] {
        match session.step(ProbeEvent::PingDue) {
            ProbeAction::SendPing(payload) => assert_eq!(payload, expected.as_bytes()),
            _ => panic!("a due ping should be sent"),
        }
    }
    let mut last = ProbeSession {
        ping_sequence: u64::MAX,
    };
    match last.step(ProbeEvent::PingDue) {
        ProbeAction::SendPing(payload) => assert_eq!(payload, b"hmos-probe-0"),
        _ => panic!("a due ping should be sent"),
    }
}

#[test]
fn messages_are_answered_or_passed_over() {
    let mut session = ProbeSession::new();
    match session.step(ProbeEvent::Received(Message::Ping(vec![4, 2]))) {
        ProbeAction::SendPong(payload) => assert_eq!(payload, vec![4, 2]),
        _ => panic!("a ping should be answered"),
    }
    for message in [
        Message::Text("t".to_string()),
        Message::Binary(Vec::new()),
        Message::Pong(Vec::new()),
        Message::Frame(2),
    ] {
        assert!(matches!(
            session.step(ProbeEvent::Received(message)),
            ProbeAction::Continue
        ));
    }
    assert!(matches!(
        session.step(ProbeEvent::Received(Message::Close(None))),
        ProbeAction::Finish
    ));
    assert!(matches!(
        session.step(ProbeEvent::Ended),
        ProbeAction::Finish
    ));
    assert!(matches!(
        session.step(ProbeEvent::Failed),
        ProbeAction::Fail
    ));
    assert!(matches!(
        session.step(ProbeEvent::DeadlineReached),
        ProbeAction::CloseAndFinish
    ));
    assert_eq!(session.ping_sequence, 0);
}

#[test]
fn lines_tell_how_the_probe_fares() {
    let options = parse(&["--id", "p1", "wss://example.test"]).expect("arguments should do");
    assert_eq!(
        started_line(&options, 9),
        "event=probe_started probe_id=p1 utc_unix_ms=9 target=wss://example.test \
         proxy_path=system_default"
    );
    assert_eq!(
        connected_line(&options, 10, "101 Switching Protocols", Some(3)),
        "event=websocket_connected probe_id=p1 utc_unix_ms=10 proxy_path=system_default \
         status=101 Switching Protocols connection_id=Some(3) duration_seconds=600 ping_seconds=30"
    );
    assert_eq!(
        duration_reached_line("p1", 11, 1),
        "event=duration_reached probe_id=p1 utc_unix_ms=11 elapsed_ms=1 \
         action=websocket_close_handshake"
    );
    assert_eq!(
        ping_sent_line("p1", 12, 2, 5),
        "event=ping_sent probe_id=p1 utc_unix_ms=12 elapsed_ms=2 sequence=5"
    );
    assert_eq!(
        message_line("p1", 13, 3, &Message::Pong(vec![0; 12])),
        "event=websocket_message probe_id=p1 utc_unix_ms=13 elapsed_ms=3 direction=received \
         kind=pong payload_bytes=12"
    );
    assert_eq!(
        stream_ended_line("p1", 14, 4),
        "event=websocket_stream_ended probe_id=p1 utc_unix_ms=14 elapsed_ms=4 error_item=false"
    );
}

#[test]
fn lines_name_the_way_to_the_target() {
    let labelled = parse(&["--path-label", "tun", "u", "5", "0"]).expect("arguments should do");
    assert_eq!(labelled.proxy_path(), "tun");
    assert!(connected_line(&labelled, 1, "101", None)
        .ends_with("connection_id=None duration_seconds=5 ping_seconds=0"));
    let proxied = parse(&["--proxy", "http://127.0.0.1:1", "u"]).expect("arguments should do");
    assert_eq!(proxied.proxy_path(), "explicit_http_connect");
}

#[test]
fn lines_tell_errors_of_the_socket_from_others() {
    let io = WebSocketFailure {
        text: "IO error: reset".to_string(),
        io: Some(IoFailure {
            text: "reset".to_string(),
            kind: "ConnectionReset".to_string(),
            raw_os_error: Some(-104),
        }),
    };
    assert_eq!(
        report_error("p1", 1, 2, &io),
        "event=websocket_error probe_id=p1 utc_unix_ms=1 elapsed_ms=2 class=io \
         kind=ConnectionReset raw_os_error=Some(-104) error=reset"
    );
    let other = WebSocketFailure {
        text: "closed".to_string(),
        io: None,
    };
    assert_eq!(
        report_error("p1", 1, 2, &other),
        "event=websocket_error probe_id=p1 utc_unix_ms=1 elapsed_ms=2 class=websocket error=closed"
    );
}
