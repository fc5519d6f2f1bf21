//! The state of a socket in one line, from what the operating system said about it.
use vstd::prelude::*;
use vstd::string::*;
use crate::format_text::flag;
use crate::format_text::optional;
use crate::format_text::optional_flag;
use crate::format_text::optional_signed;
use crate::format_text::push_flag;
use crate::format_text::push_optional_flag;
use crate::format_text::push_optional_signed;
use crate::format_text::push_signed;
use crate::format_text::signed_decimal;

verus! {

/// The bits by which the platform's `poll` reports its conditions.
#[derive(Debug, Clone, Copy, PartialEq, Eq, Structural)]
pub struct PollMasks {
    pub pollin: i16,
    pub pollout: i16,
    pub pollerr: i16,
    pub pollhup: i16,
    pub pollrdhup: i16,
}

/// The answer to a query for a socket option of one integer.
#[derive(Debug, Clone, Copy, PartialEq, Eq, Structural)]
pub struct OptionReading {
    pub result: i32,
    pub value: i32,
}

/// The answer to a query for the state of a TCP connection: its status, the length of what was
/// given, and the first byte of it.
#[derive(Debug, Clone, Copy, PartialEq, Eq, Structural)]
pub struct TcpInfoReading {
    pub result: i32,
    pub length: u32,
    pub first_byte: u8,
}

/// All answers of the operating system about one socket.
#[derive(Debug, Clone, Copy, PartialEq, Eq, Structural)]
pub struct SocketReadings {
    /// What asking for the descriptor's flags gave.
    pub fd_flags: i32,
    /// What polling gave.
    pub poll_result: i32,
    /// The conditions that polling found.
    pub revents: i16,
    /// What peeking for one byte gave.
    pub recv_peek: i64,
    /// The operating system's last error after peeking.
    pub last_errno: Option<i32>,
    pub so_error: OptionReading,
    pub so_keepalive: OptionReading,
    pub tcp_keepidle: OptionReading,
    pub tcp_keepintvl: OptionReading,
    pub tcp_keepcnt: OptionReading,
    pub tcp_info: TcpInfoReading,
}

/// The name of a state of a TCP connection.
pub open spec fn state_name(state: u8) -> Seq<char> {
    if state == 1 {
        "established"@
    } else if state == 2 {
        "syn_sent"@
    } else if state == 3 {
        "syn_received"@
    } else if state == 4 {
        "fin_wait_1"@
    } else if state == 5 {
        "fin_wait_2"@
    } else if state == 6 {
        "time_wait"@
    } else if state == 7 {
        "closed"@
    } else if state == 8 {
        "close_wait"@
    } else if state == 9 {
        "last_ack"@
    } else if state == 10 {
        "listen"@
    } else if state == 11 {
        "closing"@
    } else if state == 12 {
        "new_syn_received"@
    } else {
        "unknown"@
    }
}

/// Names a state of a TCP connection.
pub fn tcp_state_name(state: u8) -> (name: &'static str)
    ensures
        name@ == state_name(state),
{
    match state {
        1 => "established",
        2 => "syn_sent",
        3 => "syn_received",
        4 => "fin_wait_1",
        5 => "fin_wait_2",
        6 => "time_wait",
        7 => "closed",
        8 => "close_wait",
        9 => "last_ack",
        10 => "listen",
        11 => "closing",
        12 => "new_syn_received",
        _ => "unknown",
    }
}

impl OptionReading {
    /// The option's value, if the query succeeded.
    pub open spec fn answer(&self) -> Option<i32> {
        if self.result == 0 {
            Some(self.value)
        } else {
            None
        }
    }

    /// The option's value, if the query succeeded.
    pub fn value(&self) -> (value: Option<i32>)
        ensures
            value == self.answer(),
    {
        if self.result == 0 {
            Some(self.value)
        } else {
            None
        }
    }
}

impl TcpInfoReading {
    /// The connection's state, if the query succeeded and gave anything.
    pub open spec fn answer(&self) -> Option<u8> {
        if self.result == 0 && self.length > 0 {
            Some(self.first_byte)
        } else {
            None
        }
    }

    /// The connection's state, if the query succeeded and gave anything.
    pub fn tcp_state(&self) -> (state: Option<u8>)
        ensures
            state == self.answer(),
    {
        if self.result == 0 && self.length > 0 {
            Some(self.first_byte)
        } else {
            None
        }
    }
}

/// Whether any bit of a mask is among the conditions, where there are conditions.
pub open spec fn condition(revents: Option<i16>, mask: i16) -> Option<bool> {
    match revents {
        Some(flags) => Some(flags & mask != 0),
        None => None,
    }
}

fn has_condition(revents: Option<i16>, mask: i16) -> (held: Option<bool>)
    ensures
        held == condition(revents, mask),
{
    match revents {
        Some(flags) => Some(flags & mask != 0),
        None => None,
    }
}

/// The integer that a narrower one is, where there is one.
pub open spec fn widened(value: Option<i16>) -> Option<i32> {
    match value {
        Some(value) => Some(value as i32),
        None => None,
    }
}

/// A state of a TCP connection by its name in quotes, where there is one.
pub open spec fn quoted_state(state: Option<u8>) -> Seq<char> {
    match state {
        Some(state) => optional(Some("\""@ + state_name(state) + "\""@)),
        None => optional(None),
    }
}

/// A state of a TCP connection by its number, where there is one.
pub open spec fn numbered_state(state: Option<u8>) -> Option<i32> {
    match state {
        Some(state) => Some(state as i32),
        None => None,
    }
}

impl SocketReadings {
    /// The conditions that polling found, if it succeeded.
    pub open spec fn conditions(&self) -> Option<i16> {
        if self.poll_result >= 0 {
            Some(self.revents)
        } else {
            None
        }
    }

    /// The error of peeking, if it failed.
    pub open spec fn peek_error(&self) -> Option<i32> {
        if self.recv_peek < 0 {
            self.last_errno
        } else {
            None
        }
    }

    /// The state in one line.
    pub open spec fn line(&self, masks: PollMasks) -> Seq<char> {
        let conditions = self.conditions();
        let state = self.tcp_info.answer();
        "fd_open="@ + flag(self.fd_flags >= 0) + " poll_revents="@ + optional_signed(
            widened(conditions),
        ) + " pollin="@ + optional_flag(condition(conditions, masks.pollin)) + " pollout="@
            + optional_flag(condition(conditions, masks.pollout)) + " pollerr="@ + optional_flag(
            condition(conditions, masks.pollerr),
        ) + " pollhup="@ + optional_flag(condition(conditions, masks.pollhup)) + " pollrdhup="@
            + optional_flag(condition(conditions, masks.pollrdhup)) + " recv_peek="@
            + signed_decimal(self.recv_peek as int) + " recv_peek_errno="@ + optional_signed(
            self.peek_error(),
        ) + " so_error="@ + optional_signed(self.so_error.answer()) + " so_keepalive="@
            + optional_signed(self.so_keepalive.answer()) + " tcp_keepidle="@ + optional_signed(
            self.tcp_keepidle.answer(),
        ) + " tcp_keepintvl="@ + optional_signed(self.tcp_keepintvl.answer()) + " tcp_keepcnt="@
            + optional_signed(self.tcp_keepcnt.answer()) + " tcp_state="@ + quoted_state(state)
            + " tcp_state_raw="@ + optional_signed(numbered_state(state))
    }

    /// Puts the state in one line.
    pub fn socket_snapshot(&self, masks: PollMasks) -> (text: String)
        ensures
            text@ == self.line(masks),
    {
        let conditions: Option<i16> = if self.poll_result >= 0 {
            Some(self.revents)
        } else {
            None
        };
        let wide: Option<i32> = match conditions {
            Some(flags) => Some(flags as i32),
            None => None,
        };
        let peek_error: Option<i32> = if self.recv_peek < 0 {
            self.last_errno
        } else {
            None
        };
        let state: Option<u8> = self.tcp_info.tcp_state();
        let mut text = "fd_open=".to_owned();
        push_flag(&mut text, self.fd_flags >= 0);
        text.append(" poll_revents=");
        push_optional_signed(&mut text, wide);
        text.append(" pollin=");
        push_optional_flag(&mut text, has_condition(conditions, masks.pollin));
        text.append(" pollout=");
        push_optional_flag(&mut text, has_condition(conditions, masks.pollout));
        text.append(" pollerr=");
        push_optional_flag(&mut text, has_condition(conditions, masks.pollerr));
        text.append(" pollhup=");
        push_optional_flag(&mut text, has_condition(conditions, masks.pollhup));
        text.append(" pollrdhup=");
        push_optional_flag(&mut text, has_condition(conditions, masks.pollrdhup));
        text.append(" recv_peek=");
        push_signed(&mut text, self.recv_peek);
        text.append(" recv_peek_errno=");
        push_optional_signed(&mut text, peek_error);
        text.append(" so_error=");
        push_optional_signed(&mut text, self.so_error.value());
        text.append(" so_keepalive=");
        push_optional_signed(&mut text, self.so_keepalive.value());
        text.append(" tcp_keepidle=");
        push_optional_signed(&mut text, self.tcp_keepidle.value());
        text.append(" tcp_keepintvl=");
        push_optional_signed(&mut text, self.tcp_keepintvl.value());
        text.append(" tcp_keepcnt=");
        push_optional_signed(&mut text, self.tcp_keepcnt.value());
        text.append(" tcp_state=");
        push_quoted_state(&mut text, state);
        text.append(" tcp_state_raw=");
        let number: Option<i32> = match state {
            Some(state) => Some(state as i32),
            None => None,
        };
        push_optional_signed(&mut text, number);
        text
    }
}

fn push_quoted_state(out: &mut String, state: Option<u8>)
    ensures
        final(out)@ == old(out)@ + quoted_state(state),
{
    match state {
        Some(state) => {
            out.append("Some(");
            out.append("\"");
            out.append(tcp_state_name(state));
            out.append("\"");
            out.append(")");
        },
        None => {
            out.append("None");
        },
    }
    assert(out@ =~= old(out)@ + quoted_state(state));
}

} // verus!
