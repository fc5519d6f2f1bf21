//! What the connection probe does while it is connected.
use vstd::prelude::*;
use vstd::string::*;
use vstd::utf8::*;
use crate::format_text::decimal;
use crate::format_text::decimals_differ;
use crate::format_text::push_decimal;
use crate::message::Message;
use crate::utf8_text::lemma_encode_concat;

verus! {

/// Something that happens while a probe is connected.
#[derive(Debug)]
pub enum ProbeEvent {
    /// The probe has run for as long as it was to run.
    DeadlineReached,
    /// It is time for another ping.
    PingDue,
    /// A message came.
    Received(Message),
    /// The connection failed.
    Failed,
    /// No more messages will come.
    Ended,
}

/// What a probe does about it.
#[derive(Debug)]
pub enum ProbeAction {
    /// Close the WebSocket and finish.
    CloseAndFinish,
    /// Send a ping with this payload and go on.
    SendPing(Vec<u8>),
    /// Send a pong with this payload and go on.
    SendPong(Vec<u8>),
    Continue,
    Finish,
    /// Give up with the connection's error.
    Fail,
}

/// A connected probe, by the number of pings it has sent.
#[derive(Debug, Clone, Copy, PartialEq, Eq, Structural)]
pub struct ProbeSession {
    pub ping_sequence: u64,
}

/// The payload of the ping with a number.
pub open spec fn ping_payload(sequence: u64) -> Seq<u8> {
    encode_utf8("hmos-probe-"@ + decimal(sequence as nat))
}

impl ProbeSession {
    /// Starts without a ping.
    pub fn new() -> (session: Self)
        ensures
            session.ping_sequence == 0,
    {
        ProbeSession { ping_sequence: 0 }
    }

    /// Decides what to do about an event. Only a due ping changes the session: it takes the next
    /// number. A ping is answered with its own payload; a close, the end of the messages and the
    /// deadline finish the probe.
    pub fn step(&mut self, event: ProbeEvent) -> (action: ProbeAction)
        ensures
            final(self).ping_sequence == (if event is PingDue {
                old(self).ping_sequence.wrapping_add(1)
            } else {
                old(self).ping_sequence
            }),
            match event {
                ProbeEvent::DeadlineReached => action is CloseAndFinish,
                ProbeEvent::PingDue => action matches ProbeAction::SendPing(payload) && payload@
                    == ping_payload(final(self).ping_sequence),
                ProbeEvent::Received(Message::Ping(payload)) => action == ProbeAction::SendPong(
                    payload,
                ),
                ProbeEvent::Received(Message::Close(_)) => action is Finish,
                ProbeEvent::Received(_) => action is Continue,
                ProbeEvent::Failed => action is Fail,
                ProbeEvent::Ended => action is Finish,
            },
    {
        match event {
            ProbeEvent::DeadlineReached => ProbeAction::CloseAndFinish,
            ProbeEvent::PingDue => {
                self.ping_sequence = self.ping_sequence.wrapping_add(1);
                let mut payload = "hmos-probe-".to_owned();
                push_decimal(&mut payload, self.ping_sequence as u128);
                ProbeAction::SendPing(payload.as_str().as_bytes_vec())
            },
            ProbeEvent::Received(message) => match message {
                Message::Ping(payload) => ProbeAction::SendPong(payload),
                Message::Close(_) => ProbeAction::Finish,
                Message::Text(_) => ProbeAction::Continue,
                Message::Binary(_) => ProbeAction::Continue,
                Message::Pong(_) => ProbeAction::Continue,
                Message::Frame(_) => ProbeAction::Continue,
            },
            ProbeEvent::Failed => ProbeAction::Fail,
            ProbeEvent::Ended => ProbeAction::Finish,
        }
    }
}

/// The payload of a ping is the bytes of a fixed name, followed by those of its number in decimal,
/// so that no two pings of a round have the same payload.
pub proof fn pings_are_told_apart_by_number(one: u64, other: u64)
    ensures
        ping_payload(one) == encode_utf8("hmos-probe-"@) + encode_utf8(decimal(one as nat)),
        ping_payload(one) == ping_payload(other) ==> one == other,
{
    lemma_encode_concat("hmos-probe-"@, decimal(one as nat));
    if ping_payload(one) == ping_payload(other) {
        let a = "hmos-probe-"@ + decimal(one as nat);
        let b = "hmos-probe-"@ + decimal(other as nat);
        encode_utf8_decode_utf8(a);
        encode_utf8_decode_utf8(b);
        let n = "hmos-probe-"@.len() as int;
        assert(a.skip(n) =~= decimal(one as nat));
        assert(b.skip(n) =~= decimal(other as nat));
        decimals_differ(one as nat, other as nat);
    }
}

} // verus!
