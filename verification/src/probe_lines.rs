//! The lines that the connection probe prints.
use vstd::prelude::*;
use vstd::string::*;
use crate::format_text::decimal;
use crate::format_text::optional_decimal;
use crate::format_text::optional_signed;
use crate::format_text::push_decimal;
use crate::format_text::push_optional_decimal;
use crate::format_text::push_optional_signed;
use crate::log_words::lemma_next_word;
use crate::log_words::lemma_numbers_are_spaceless;
use crate::log_words::lemma_one_word;
use crate::log_words::lemma_spaceless_concat;
use crate::log_words::spaceless;
use crate::log_words::words;
use crate::message::message_kind;
use crate::message::Message;
use crate::probe_options::Options;
use crate::transport_event::WebSocketFailure;

verus! {

/// The beginning of every line: the event, the probe and the time.
pub open spec fn stamp_text(event: Seq<char>, probe_id: Seq<char>, utc_unix_ms: u128) -> Seq<char> {
    "event="@ + event + " probe_id="@ + probe_id + " utc_unix_ms="@ + decimal(utc_unix_ms as nat)
}

/// The beginning of a line about a connected probe, with the time since it began.
pub open spec fn timed_text(
    event: Seq<char>,
    probe_id: Seq<char>,
    utc_unix_ms: u128,
    elapsed_ms: u128,
) -> Seq<char> {
    stamp_text(event, probe_id, utc_unix_ms) + " elapsed_ms="@ + decimal(elapsed_ms as nat)
}

fn stamp(event: &str, probe_id: &str, utc_unix_ms: u128) -> (line: String)
    ensures
        line@ == stamp_text(event@, probe_id@, utc_unix_ms),
{
    let mut line = "event=".to_owned();
    line.append(event);
    line.append(" probe_id=");
    line.append(probe_id);
    line.append(" utc_unix_ms=");
    push_decimal(&mut line, utc_unix_ms);
    line
}

fn timed(event: &str, probe_id: &str, utc_unix_ms: u128, elapsed_ms: u128) -> (line: String)
    ensures
        line@ == timed_text(event@, probe_id@, utc_unix_ms, elapsed_ms),
{
    let mut line = stamp(event, probe_id, utc_unix_ms);
    line.append(" elapsed_ms=");
    push_decimal(&mut line, elapsed_ms);
    line
}

/// Printed before the probe connects.
pub fn started_line(options: &Options, utc_unix_ms: u128) -> (line: String)
    ensures
        line@ == stamp_text("probe_started"@, options.id@, utc_unix_ms) + " target="@
            + options.url@ + " proxy_path="@ + options.path_text(),
{
    let mut line = stamp("probe_started", options.id.as_str(), utc_unix_ms);
    line.append(" target=");
    line.append(options.url.as_str());
    line.append(" proxy_path=");
    line.append(options.proxy_path().as_str());
    line
}

/// Printed once the probe is connected. No pings count as pings every zero seconds.
pub fn connected_line(
    options: &Options,
    utc_unix_ms: u128,
    status: &str,
    connection_id: Option<u64>,
) -> (line: String)
    ensures
        line@ == stamp_text("websocket_connected"@, options.id@, utc_unix_ms) + " proxy_path="@
            + options.path_text() + " status="@ + status@ + " connection_id="@ + optional_decimal(
            connection_id,
        ) + " duration_seconds="@ + decimal(options.duration_seconds as nat) + " ping_seconds="@
            + decimal(
            match options.ping_interval_seconds {
                Some(seconds) => seconds as nat,
                None => 0,
            },
        ),
{
    let mut line = stamp("websocket_connected", options.id.as_str(), utc_unix_ms);
    line.append(" proxy_path=");
    line.append(options.proxy_path().as_str());
    line.append(" status=");
    line.append(status);
    line.append(" connection_id=");
    push_optional_decimal(&mut line, connection_id);
    line.append(" duration_seconds=");
    push_decimal(&mut line, options.duration_seconds as u128);
    line.append(" ping_seconds=");
    let ping_seconds: u64 = match options.ping_interval_seconds {
        Some(seconds) => seconds,
        None => 0,
    };
    push_decimal(&mut line, ping_seconds as u128);
    line
}

/// Printed when the probe has run for as long as it was to run.
pub fn duration_reached_line(probe_id: &str, utc_unix_ms: u128, elapsed_ms: u128) -> (line: String)
    ensures
        line@ == timed_text("duration_reached"@, probe_id@, utc_unix_ms, elapsed_ms)
            + " action=websocket_close_handshake"@,
{
    let mut line = timed("duration_reached", probe_id, utc_unix_ms, elapsed_ms);
    line.append(" action=websocket_close_handshake");
    line
}

/// Printed when a ping was sent.
pub fn ping_sent_line(probe_id: &str, utc_unix_ms: u128, elapsed_ms: u128, sequence: u64) -> (line:
    String)
    ensures
        line@ == timed_text("ping_sent"@, probe_id@, utc_unix_ms, elapsed_ms) + " sequence="@
            + decimal(sequence as nat),
{
    let mut line = timed("ping_sent", probe_id, utc_unix_ms, elapsed_ms);
    line.append(" sequence=");
    push_decimal(&mut line, sequence as u128);
    line
}

/// Printed when a message came.
pub fn message_line(
    probe_id: &str,
    utc_unix_ms: u128,
    elapsed_ms: u128,
    message: &Message,
) -> (line: String)
    ensures
        line@ == timed_text("websocket_message"@, probe_id@, utc_unix_ms, elapsed_ms)
            + " direction=received kind="@ + message.kind() + " payload_bytes="@ + decimal(
            message.size(),
        ),
{
    let mut line = timed("websocket_message", probe_id, utc_unix_ms, elapsed_ms);
    line.append(" direction=received kind=");
    line.append(message_kind(message));
    line.append(" payload_bytes=");
    push_decimal(&mut line, message.len() as u128);
    line
}

/// Printed when no more messages will come.
pub fn stream_ended_line(probe_id: &str, utc_unix_ms: u128, elapsed_ms: u128) -> (line: String)
    ensures
        line@ == timed_text("websocket_stream_ended"@, probe_id@, utc_unix_ms, elapsed_ms)
            + " error_item=false"@,
{
    let mut line = timed("websocket_stream_ended", probe_id, utc_unix_ms, elapsed_ms);
    line.append(" error_item=false");
    line
}

/// Printed when the connection failed.
pub fn report_error(
    probe_id: &str,
    utc_unix_ms: u128,
    elapsed_ms: u128,
    failure: &WebSocketFailure,
) -> (line: String)
    ensures
        line@ == timed_text("websocket_error"@, probe_id@, utc_unix_ms, elapsed_ms)
            + match failure.io {
            Some(io) => " class=io kind="@ + io.kind@ + " raw_os_error="@
                + optional_signed(io.raw_os_error) + " error="@ + io.text@,
            None => " class=websocket error="@ + failure.text@,
        },
{
    let mut line = timed("websocket_error", probe_id, utc_unix_ms, elapsed_ms);
    let ghost begun = line@;
    match &failure.io {
        Some(io) => {
            line.append(" class=io kind=");
            line.append(io.kind.as_str());
            line.append(" raw_os_error=");
            push_optional_signed(&mut line, io.raw_os_error);
            line.append(" error=");
            line.append(io.text.as_str());
            assert(line@ =~= begun + (" class=io kind="@ + io.kind@ + " raw_os_error="@
                + optional_signed(io.raw_os_error) + " error="@ + io.text@));
        },
        None => {
            line.append(" class=websocket error=");
            line.append(failure.text.as_str());
            assert(line@ =~= begun + (" class=websocket error="@ + failure.text@));
        },
    }
    line
}

/// Every line begins with its event, the probe and the time, and a line about a connected probe goes
/// on with the time since the probe began, each under its own name.
pub proof fn lines_begin_with_event_probe_and_time(
    event: Seq<char>,
    probe_id: Seq<char>,
    utc_unix_ms: u128,
    elapsed_ms: u128,
)
    ensures
        stamp_text(event, probe_id, utc_unix_ms) == "event="@ + (event + (" probe_id="@ + (probe_id
            + (" utc_unix_ms="@ + decimal(utc_unix_ms as nat))))),
        timed_text(event, probe_id, utc_unix_ms, elapsed_ms) == stamp_text(
            event,
            probe_id,
            utc_unix_ms,
        ) + (" elapsed_ms="@ + decimal(elapsed_ms as nat)),
{
    assert(stamp_text(event, probe_id, utc_unix_ms) =~= "event="@ + (event + (" probe_id="@ + (
    probe_id + (" utc_unix_ms="@ + decimal(utc_unix_ms as nat))))));
    assert(timed_text(event, probe_id, utc_unix_ms, elapsed_ms) =~= stamp_text(
        event,
        probe_id,
        utc_unix_ms,
    ) + (" elapsed_ms="@ + decimal(elapsed_ms as nat)));
}

/// A line about a connected probe whose name holds no space begins with four words, each of which
/// tells one thing under its own name.
pub proof fn lines_are_read_word_by_word(
    event: Seq<char>,
    probe_id: Seq<char>,
    utc_unix_ms: u128,
    elapsed_ms: u128,
)
    requires
        spaceless(event),
        spaceless(probe_id),
    ensures
        words(timed_text(event, probe_id, utc_unix_ms, elapsed_ms)) == seq![
            "event="@ + event,
            "probe_id="@ + probe_id,
            "utc_unix_ms="@ + decimal(utc_unix_ms as nat),
            "elapsed_ms="@ + decimal(elapsed_ms as nat),
        ],
{
    lemma_numbers_are_spaceless(utc_unix_ms as nat, 0);
    lemma_numbers_are_spaceless(elapsed_ms as nat, 0);
    let first = "event="@ + event;
    assert(words(first) == seq![first]) by {
        reveal_strlit("event=");
        lemma_spaceless_concat("event="@, event);
        lemma_one_word(first);
    }
    let second = first + " probe_id="@ + probe_id;
    assert(words(second) == words(first).push("probe_id="@ + probe_id)) by {
        reveal_strlit(" probe_id=");
        reveal_strlit("probe_id=");
        assert(" probe_id="@.drop_first() =~= "probe_id="@);
        lemma_next_word(first, " probe_id="@, probe_id);
    }
    let third = second + " utc_unix_ms="@ + decimal(utc_unix_ms as nat);
    assert(words(third) == words(second).push("utc_unix_ms="@ + decimal(utc_unix_ms as nat))) by {
        reveal_strlit(" utc_unix_ms=");
        reveal_strlit("utc_unix_ms=");
        assert(" utc_unix_ms="@.drop_first() =~= "utc_unix_ms="@);
        lemma_next_word(second, " utc_unix_ms="@, decimal(utc_unix_ms as nat));
    }
    let fourth = third + " elapsed_ms="@ + decimal(elapsed_ms as nat);
    assert(words(fourth) == words(third).push("elapsed_ms="@ + decimal(elapsed_ms as nat))) by {
        reveal_strlit(" elapsed_ms=");
        reveal_strlit("elapsed_ms=");
        assert(" elapsed_ms="@.drop_first() =~= "elapsed_ms="@);
        lemma_next_word(third, " elapsed_ms="@, decimal(elapsed_ms as nat));
    }
}

} // verus!
