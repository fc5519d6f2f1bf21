//! What the one-line state of a socket tells its reader.
use vstd::prelude::*;
use crate::format_text::decimal;
use crate::format_text::flag;
use crate::format_text::optional_flag;
use crate::format_text::optional_signed;
use crate::format_text::signed_decimal;
use crate::format_text::signs_tell_negative_numbers;
use crate::log_words::lemma_named_choice;
use crate::log_words::lemma_named_flag;
use crate::log_words::lemma_named_number;
use crate::log_words::lemma_next_word;
use crate::log_words::lemma_numbers_are_spaceless;
use crate::log_words::lemma_one_word;
use crate::log_words::lemma_spaceless_concat;
use crate::log_words::lemma_values_are_spaceless;
use crate::log_words::spaceless;
use crate::log_words::words;
use crate::socket_snapshot::condition;
use crate::socket_snapshot::numbered_state;
use crate::socket_snapshot::quoted_state;
use crate::socket_snapshot::state_name;
use crate::socket_snapshot::widened;
use crate::socket_snapshot::PollMasks;
use crate::socket_snapshot::SocketReadings;

verus! {

/// The numbers from 1 to 12 stand for the states of a TCP connection, in this order; no other
/// number stands for one.
pub proof fn states_are_numbered_in_order(state: u8)
    ensures
        ({
            let known: Seq<Seq<char>> = seq![
                "established"@,
                "syn_sent"@,
                "syn_received"@,
                "fin_wait_1"@,
                "fin_wait_2"@,
                "time_wait"@,
                "closed"@,
                "close_wait"@,
                "last_ack"@,
                "listen"@,
                "closing"@,
                "new_syn_received"@,
            ];
            state_name(state) == if 1 <= state <= 12 {
                known[state - 1]
            } else {
                "unknown"@
            }
        }),
{
}

proof fn lemma_state_is_spaceless(state: Option<u8>)
    ensures
        spaceless(quoted_state(state)),
{
    reveal_strlit("None");
    reveal_strlit("Some(");
    reveal_strlit(")");
    reveal_strlit("\"");
    if let Some(state) = state {
        reveal_strlit("established");
        reveal_strlit("syn_sent");
        reveal_strlit("syn_received");
        reveal_strlit("fin_wait_1");
        reveal_strlit("fin_wait_2");
        reveal_strlit("time_wait");
        reveal_strlit("closed");
        reveal_strlit("close_wait");
        reveal_strlit("last_ack");
        reveal_strlit("listen");
        reveal_strlit("closing");
        reveal_strlit("new_syn_received");
        reveal_strlit("unknown");
        let name = state_name(state);
        assert(spaceless(name));
        lemma_spaceless_concat("\""@, name);
        lemma_spaceless_concat("\""@ + name, "\""@);
        lemma_spaceless_concat("Some("@, "\""@ + name + "\""@);
        lemma_spaceless_concat("Some("@ + ("\""@ + name + "\""@), ")"@);
    }
}

proof fn lemma_snapshot_words(readings: SocketReadings, masks: PollMasks)
    ensures
        words(readings.line(masks)).len() == 16,
        words(readings.line(masks))[0] == "fd_open="@ + flag(readings.fd_flags >= 0),
        words(readings.line(masks))[1]
            == "poll_revents="@ + optional_signed(widened(readings.conditions())),
        words(readings.line(masks))[2]
            == "pollin="@ + optional_flag(condition(readings.conditions(), masks.pollin)),
        words(readings.line(masks))[3]
            == "pollout="@ + optional_flag(condition(readings.conditions(), masks.pollout)),
        words(readings.line(masks))[4]
            == "pollerr="@ + optional_flag(condition(readings.conditions(), masks.pollerr)),
        words(readings.line(masks))[5]
            == "pollhup="@ + optional_flag(condition(readings.conditions(), masks.pollhup)),
        words(readings.line(masks))[6]
            == "pollrdhup="@ + optional_flag(condition(readings.conditions(), masks.pollrdhup)),
        words(readings.line(masks))[7] == "recv_peek="@ + signed_decimal(readings.recv_peek as int),
        words(readings.line(masks))[8]
            == "recv_peek_errno="@ + optional_signed(readings.peek_error()),
        words(readings.line(masks))[9]
            == "so_error="@ + optional_signed(readings.so_error.answer()),
        words(readings.line(masks))[10]
            == "so_keepalive="@ + optional_signed(readings.so_keepalive.answer()),
        words(readings.line(masks))[11]
            == "tcp_keepidle="@ + optional_signed(readings.tcp_keepidle.answer()),
        words(readings.line(masks))[12]
            == "tcp_keepintvl="@ + optional_signed(readings.tcp_keepintvl.answer()),
        words(readings.line(masks))[13]
            == "tcp_keepcnt="@ + optional_signed(readings.tcp_keepcnt.answer()),
        words(readings.line(masks))[14] == "tcp_state="@ + quoted_state(readings.tcp_info.answer()),
        words(readings.line(masks))[15]
            == "tcp_state_raw="@ + optional_signed(numbered_state(readings.tcp_info.answer())),
{
    lemma_values_are_spaceless(readings.fd_flags >= 0, None, widened(readings.conditions()), None);
    lemma_values_are_spaceless(true, None, None, condition(readings.conditions(), masks.pollin));
    lemma_values_are_spaceless(true, None, None, condition(readings.conditions(), masks.pollout));
    lemma_values_are_spaceless(true, None, None, condition(readings.conditions(), masks.pollerr));
    lemma_values_are_spaceless(true, None, None, condition(readings.conditions(), masks.pollhup));
    lemma_values_are_spaceless(true, None, None, condition(readings.conditions(), masks.pollrdhup));
    lemma_numbers_are_spaceless(0, readings.recv_peek as int);
    lemma_values_are_spaceless(true, None, readings.peek_error(), None);
    lemma_values_are_spaceless(true, None, readings.so_error.answer(), None);
    lemma_values_are_spaceless(true, None, readings.so_keepalive.answer(), None);
    lemma_values_are_spaceless(true, None, readings.tcp_keepidle.answer(), None);
    lemma_values_are_spaceless(true, None, readings.tcp_keepintvl.answer(), None);
    lemma_values_are_spaceless(true, None, readings.tcp_keepcnt.answer(), None);
    lemma_values_are_spaceless(true, None, numbered_state(readings.tcp_info.answer()), None);
    lemma_state_is_spaceless(readings.tcp_info.answer());
    let l0 = "fd_open="@ + flag(readings.fd_flags >= 0);
    assert(words(l0) == seq!["fd_open="@ + flag(readings.fd_flags >= 0)]) by {
        reveal_strlit("fd_open=");
        lemma_spaceless_concat("fd_open="@, flag(readings.fd_flags >= 0));
        lemma_one_word(l0);
    }
    let l1 = l0 + " poll_revents="@ + optional_signed(widened(readings.conditions()));
    assert(words(l1)
        == words(l0).push("poll_revents="@ + optional_signed(widened(readings.conditions())))) by {
        reveal_strlit(" poll_revents=");
        reveal_strlit("poll_revents=");
        assert(" poll_revents="@.drop_first() =~= "poll_revents="@);
        lemma_next_word(l0, " poll_revents="@, optional_signed(widened(readings.conditions())));
    }
    let l2 = l1 + " pollin="@ + optional_flag(condition(readings.conditions(), masks.pollin));
    assert(words(l2)
        == words(l1).push("pollin="@ + optional_flag(condition(readings.conditions(), masks.pollin)))) by {
        reveal_strlit(" pollin=");
        reveal_strlit("pollin=");
        assert(" pollin="@.drop_first() =~= "pollin="@);
        lemma_next_word(
            l1,
            " pollin="@,
            optional_flag(condition(readings.conditions(), masks.pollin)),
        );
    }
    let l3 = l2 + " pollout="@ + optional_flag(condition(readings.conditions(), masks.pollout));
    assert(words(l3)
        == words(l2).push("pollout="@ + optional_flag(condition(readings.conditions(), masks.pollout)))) by {
        reveal_strlit(" pollout=");
        reveal_strlit("pollout=");
        assert(" pollout="@.drop_first() =~= "pollout="@);
        lemma_next_word(
            l2,
            " pollout="@,
            optional_flag(condition(readings.conditions(), masks.pollout)),
        );
    }
    let l4 = l3 + " pollerr="@ + optional_flag(condition(readings.conditions(), masks.pollerr));
    assert(words(l4)
        == words(l3).push("pollerr="@ + optional_flag(condition(readings.conditions(), masks.pollerr)))) by {
        reveal_strlit(" pollerr=");
        reveal_strlit("pollerr=");
        assert(" pollerr="@.drop_first() =~= "pollerr="@);
        lemma_next_word(
            l3,
            " pollerr="@,
            optional_flag(condition(readings.conditions(), masks.pollerr)),
        );
    }
    let l5 = l4 + " pollhup="@ + optional_flag(condition(readings.conditions(), masks.pollhup));
    assert(words(l5)
        == words(l4).push("pollhup="@ + optional_flag(condition(readings.conditions(), masks.pollhup)))) by {
        reveal_strlit(" pollhup=");
        reveal_strlit("pollhup=");
        assert(" pollhup="@.drop_first() =~= "pollhup="@);
        lemma_next_word(
            l4,
            " pollhup="@,
            optional_flag(condition(readings.conditions(), masks.pollhup)),
        );
    }
    let l6 = l5 + " pollrdhup="@ + optional_flag(condition(readings.conditions(), masks.pollrdhup));
    assert(words(l6)
        == words(l5).push("pollrdhup="@ + optional_flag(condition(readings.conditions(), masks.pollrdhup)))) by {
        reveal_strlit(" pollrdhup=");
        reveal_strlit("pollrdhup=");
        assert(" pollrdhup="@.drop_first() =~= "pollrdhup="@);
        lemma_next_word(
            l5,
            " pollrdhup="@,
            optional_flag(condition(readings.conditions(), masks.pollrdhup)),
        );
    }
    let l7 = l6 + " recv_peek="@ + signed_decimal(readings.recv_peek as int);
    assert(words(l7)
        == words(l6).push("recv_peek="@ + signed_decimal(readings.recv_peek as int))) by {
        reveal_strlit(" recv_peek=");
        reveal_strlit("recv_peek=");
        assert(" recv_peek="@.drop_first() =~= "recv_peek="@);
        lemma_next_word(l6, " recv_peek="@, signed_decimal(readings.recv_peek as int));
    }
    let l8 = l7 + " recv_peek_errno="@ + optional_signed(readings.peek_error());
    assert(words(l8)
        == words(l7).push("recv_peek_errno="@ + optional_signed(readings.peek_error()))) by {
        reveal_strlit(" recv_peek_errno=");
        reveal_strlit("recv_peek_errno=");
        assert(" recv_peek_errno="@.drop_first() =~= "recv_peek_errno="@);
        lemma_next_word(l7, " recv_peek_errno="@, optional_signed(readings.peek_error()));
    }
    let l9 = l8 + " so_error="@ + optional_signed(readings.so_error.answer());
    assert(words(l9)
        == words(l8).push("so_error="@ + optional_signed(readings.so_error.answer()))) by {
        reveal_strlit(" so_error=");
        reveal_strlit("so_error=");
        assert(" so_error="@.drop_first() =~= "so_error="@);
        lemma_next_word(l8, " so_error="@, optional_signed(readings.so_error.answer()));
    }
    let l10 = l9 + " so_keepalive="@ + optional_signed(readings.so_keepalive.answer());
    assert(words(l10)
        == words(l9).push("so_keepalive="@ + optional_signed(readings.so_keepalive.answer()))) by {
        reveal_strlit(" so_keepalive=");
        reveal_strlit("so_keepalive=");
        assert(" so_keepalive="@.drop_first() =~= "so_keepalive="@);
        lemma_next_word(l9, " so_keepalive="@, optional_signed(readings.so_keepalive.answer()));
    }
    let l11 = l10 + " tcp_keepidle="@ + optional_signed(readings.tcp_keepidle.answer());
    assert(words(l11)
        == words(l10).push("tcp_keepidle="@ + optional_signed(readings.tcp_keepidle.answer()))) by {
        reveal_strlit(" tcp_keepidle=");
        reveal_strlit("tcp_keepidle=");
        assert(" tcp_keepidle="@.drop_first() =~= "tcp_keepidle="@);
        lemma_next_word(l10, " tcp_keepidle="@, optional_signed(readings.tcp_keepidle.answer()));
    }
    let l12 = l11 + " tcp_keepintvl="@ + optional_signed(readings.tcp_keepintvl.answer());
    assert(words(l12)
        == words(l11).push("tcp_keepintvl="@ + optional_signed(readings.tcp_keepintvl.answer()))) by {
        reveal_strlit(" tcp_keepintvl=");
        reveal_strlit("tcp_keepintvl=");
        assert(" tcp_keepintvl="@.drop_first() =~= "tcp_keepintvl="@);
        lemma_next_word(l11, " tcp_keepintvl="@, optional_signed(readings.tcp_keepintvl.answer()));
    }
    let l13 = l12 + " tcp_keepcnt="@ + optional_signed(readings.tcp_keepcnt.answer());
    assert(words(l13)
        == words(l12).push("tcp_keepcnt="@ + optional_signed(readings.tcp_keepcnt.answer()))) by {
        reveal_strlit(" tcp_keepcnt=");
        reveal_strlit("tcp_keepcnt=");
        assert(" tcp_keepcnt="@.drop_first() =~= "tcp_keepcnt="@);
        lemma_next_word(l12, " tcp_keepcnt="@, optional_signed(readings.tcp_keepcnt.answer()));
    }
    let l14 = l13 + " tcp_state="@ + quoted_state(readings.tcp_info.answer());
    assert(words(l14)
        == words(l13).push("tcp_state="@ + quoted_state(readings.tcp_info.answer()))) by {
        reveal_strlit(" tcp_state=");
        reveal_strlit("tcp_state=");
        assert(" tcp_state="@.drop_first() =~= "tcp_state="@);
        lemma_next_word(l13, " tcp_state="@, quoted_state(readings.tcp_info.answer()));
    }
    let l15 = l14 + " tcp_state_raw="@ + optional_signed(numbered_state(readings.tcp_info.answer()));
    assert(words(l15)
        == words(l14).push("tcp_state_raw="@ + optional_signed(numbered_state(readings.tcp_info.answer())))) by {
        reveal_strlit(" tcp_state_raw=");
        reveal_strlit("tcp_state_raw=");
        assert(" tcp_state_raw="@.drop_first() =~= "tcp_state_raw="@);
        lemma_next_word(
            l14,
            " tcp_state_raw="@,
            optional_signed(numbered_state(readings.tcp_info.answer())),
        );
    }
    assert(l15 == readings.line(masks));
}

proof fn lemma_condition_words(readings: SocketReadings, masks: PollMasks, told: Seq<Seq<char>>)
    requires
        told[0] == "fd_open="@ + flag(readings.fd_flags >= 0),
        told[1] == "poll_revents="@ + optional_signed(widened(readings.conditions())),
        told[2] == "pollin="@ + optional_flag(
            condition(readings.conditions(), masks.pollin),
        ),
        told[3] == "pollout="@ + optional_flag(
            condition(readings.conditions(), masks.pollout),
        ),
        told[4] == "pollerr="@ + optional_flag(
            condition(readings.conditions(), masks.pollerr),
        ),
        told[5] == "pollhup="@ + optional_flag(
            condition(readings.conditions(), masks.pollhup),
        ),
        told[6] == "pollrdhup="@ + optional_flag(
            condition(readings.conditions(), masks.pollrdhup),
        ),
    ensures
        readings.fd_flags >= 0 ==> told[0] == "fd_open=true"@,
        readings.fd_flags < 0 ==> told[0] == "fd_open=false"@,
        readings.poll_result < 0 ==> told[1] == "poll_revents=None"@,
        readings.poll_result >= 0
            ==> told[1] == "poll_revents=Some("@ + signed_decimal(readings.revents as int) + ")"@,
        readings.poll_result < 0 ==> told[2] == "pollin=None"@,
        readings.poll_result >= 0 && readings.revents & masks.pollin != 0
            ==> told[2] == "pollin=Some(true)"@,
        readings.poll_result >= 0 && readings.revents & masks.pollin == 0
            ==> told[2] == "pollin=Some(false)"@,
        readings.poll_result < 0 ==> told[3] == "pollout=None"@,
        readings.poll_result >= 0 && readings.revents & masks.pollout != 0
            ==> told[3] == "pollout=Some(true)"@,
        readings.poll_result >= 0 && readings.revents & masks.pollout == 0
            ==> told[3] == "pollout=Some(false)"@,
        readings.poll_result < 0 ==> told[4] == "pollerr=None"@,
        readings.poll_result >= 0 && readings.revents & masks.pollerr != 0
            ==> told[4] == "pollerr=Some(true)"@,
        readings.poll_result >= 0 && readings.revents & masks.pollerr == 0
            ==> told[4] == "pollerr=Some(false)"@,
        readings.poll_result < 0 ==> told[5] == "pollhup=None"@,
        readings.poll_result >= 0 && readings.revents & masks.pollhup != 0
            ==> told[5] == "pollhup=Some(true)"@,
        readings.poll_result >= 0 && readings.revents & masks.pollhup == 0
            ==> told[5] == "pollhup=Some(false)"@,
        readings.poll_result < 0 ==> told[6] == "pollrdhup=None"@,
        readings.poll_result >= 0 && readings.revents & masks.pollrdhup != 0
            ==> told[6] == "pollrdhup=Some(true)"@,
        readings.poll_result >= 0 && readings.revents & masks.pollrdhup == 0
            ==> told[6] == "pollrdhup=Some(false)"@,
{
    assert("fd_open=true"@ == "fd_open="@ + "true"@
        && "fd_open=false"@ == "fd_open="@ + "false"@) by {
        reveal_strlit("fd_open=");
        reveal_strlit("true");
        reveal_strlit("fd_open=true");
        assert("fd_open=true"@ =~= "fd_open="@ + "true"@);
        reveal_strlit("false");
        reveal_strlit("fd_open=false");
        assert("fd_open=false"@ =~= "fd_open="@ + "false"@);
    }
    lemma_named_flag("fd_open="@, "fd_open=true"@, "fd_open=false"@, readings.fd_flags >= 0);
    assert("poll_revents=Some("@ == "poll_revents="@ + "Some("@
        && "poll_revents=None"@ == "poll_revents="@ + "None"@) by {
        reveal_strlit("poll_revents=");
        reveal_strlit("Some(");
        reveal_strlit("poll_revents=Some(");
        assert("poll_revents=Some("@ =~= "poll_revents="@ + "Some("@);
        reveal_strlit("None");
        reveal_strlit("poll_revents=None");
        assert("poll_revents=None"@ =~= "poll_revents="@ + "None"@);
    }
    lemma_named_number(
        "poll_revents="@,
        "poll_revents=Some("@,
        "poll_revents=None"@,
        None,
        widened(readings.conditions()),
    );
    assert("pollin=Some(true)"@ == "pollin="@ + "Some(true)"@
        && "pollin=Some(false)"@ == "pollin="@ + "Some(false)"@
        && "pollin=None"@ == "pollin="@ + "None"@) by {
        reveal_strlit("pollin=");
        reveal_strlit("Some(true)");
        reveal_strlit("pollin=Some(true)");
        assert("pollin=Some(true)"@ =~= "pollin="@ + "Some(true)"@);
        reveal_strlit("Some(false)");
        reveal_strlit("pollin=Some(false)");
        assert("pollin=Some(false)"@ =~= "pollin="@ + "Some(false)"@);
        reveal_strlit("None");
        reveal_strlit("pollin=None");
        assert("pollin=None"@ =~= "pollin="@ + "None"@);
    }
    lemma_named_choice(
        "pollin="@,
        "pollin=Some(true)"@,
        "pollin=Some(false)"@,
        "pollin=None"@,
        condition(readings.conditions(), masks.pollin),
    );
    assert("pollout=Some(true)"@ == "pollout="@ + "Some(true)"@
        && "pollout=Some(false)"@ == "pollout="@ + "Some(false)"@
        && "pollout=None"@ == "pollout="@ + "None"@) by {
        reveal_strlit("pollout=");
        reveal_strlit("Some(true)");
        reveal_strlit("pollout=Some(true)");
        assert("pollout=Some(true)"@ =~= "pollout="@ + "Some(true)"@);
        reveal_strlit("Some(false)");
        reveal_strlit("pollout=Some(false)");
        assert("pollout=Some(false)"@ =~= "pollout="@ + "Some(false)"@);
        reveal_strlit("None");
        reveal_strlit("pollout=None");
        assert("pollout=None"@ =~= "pollout="@ + "None"@);
    }
    lemma_named_choice(
        "pollout="@,
        "pollout=Some(true)"@,
        "pollout=Some(false)"@,
        "pollout=None"@,
        condition(readings.conditions(), masks.pollout),
    );
    assert("pollerr=Some(true)"@ == "pollerr="@ + "Some(true)"@
        && "pollerr=Some(false)"@ == "pollerr="@ + "Some(false)"@
        && "pollerr=None"@ == "pollerr="@ + "None"@) by {
        reveal_strlit("pollerr=");
        reveal_strlit("Some(true)");
        reveal_strlit("pollerr=Some(true)");
        assert("pollerr=Some(true)"@ =~= "pollerr="@ + "Some(true)"@);
        reveal_strlit("Some(false)");
        reveal_strlit("pollerr=Some(false)");
        assert("pollerr=Some(false)"@ =~= "pollerr="@ + "Some(false)"@);
        reveal_strlit("None");
        reveal_strlit("pollerr=None");
        assert("pollerr=None"@ =~= "pollerr="@ + "None"@);
    }
    lemma_named_choice(
        "pollerr="@,
        "pollerr=Some(true)"@,
        "pollerr=Some(false)"@,
        "pollerr=None"@,
        condition(readings.conditions(), masks.pollerr),
    );
    assert("pollhup=Some(true)"@ == "pollhup="@ + "Some(true)"@
        && "pollhup=Some(false)"@ == "pollhup="@ + "Some(false)"@
        && "pollhup=None"@ == "pollhup="@ + "None"@) by {
        reveal_strlit("pollhup=");
        reveal_strlit("Some(true)");
        reveal_strlit("pollhup=Some(true)");
        assert("pollhup=Some(true)"@ =~= "pollhup="@ + "Some(true)"@);
        reveal_strlit("Some(false)");
        reveal_strlit("pollhup=Some(false)");
        assert("pollhup=Some(false)"@ =~= "pollhup="@ + "Some(false)"@);
        reveal_strlit("None");
        reveal_strlit("pollhup=None");
        assert("pollhup=None"@ =~= "pollhup="@ + "None"@);
    }
    lemma_named_choice(
        "pollhup="@,
        "pollhup=Some(true)"@,
        "pollhup=Some(false)"@,
        "pollhup=None"@,
        condition(readings.conditions(), masks.pollhup),
    );
    assert("pollrdhup=Some(true)"@ == "pollrdhup="@ + "Some(true)"@
        && "pollrdhup=Some(false)"@ == "pollrdhup="@ + "Some(false)"@
        && "pollrdhup=None"@ == "pollrdhup="@ + "None"@) by {
        reveal_strlit("pollrdhup=");
        reveal_strlit("Some(true)");
        reveal_strlit("pollrdhup=Some(true)");
        assert("pollrdhup=Some(true)"@ =~= "pollrdhup="@ + "Some(true)"@);
        reveal_strlit("Some(false)");
        reveal_strlit("pollrdhup=Some(false)");
        assert("pollrdhup=Some(false)"@ =~= "pollrdhup="@ + "Some(false)"@);
        reveal_strlit("None");
        reveal_strlit("pollrdhup=None");
        assert("pollrdhup=None"@ =~= "pollrdhup="@ + "None"@);
    }
    lemma_named_choice(
        "pollrdhup="@,
        "pollrdhup=Some(true)"@,
        "pollrdhup=Some(false)"@,
        "pollrdhup=None"@,
        condition(readings.conditions(), masks.pollrdhup),
    );
}

/// The line tells the conditions of a socket under their own names: each is shown as found exactly
/// when its bit is among those that polling found, and none is shown when polling failed.
pub proof fn snapshots_tell_each_condition_by_name(readings: SocketReadings, masks: PollMasks)
    ensures
        ({
            let told = words(readings.line(masks));
            &&& readings.fd_flags >= 0 ==> told[0] == "fd_open=true"@
            &&& readings.fd_flags < 0 ==> told[0] == "fd_open=false"@
            &&& readings.poll_result < 0 ==> told[1] == "poll_revents=None"@
            &&& readings.poll_result >= 0
                ==> told[1] == "poll_revents=Some("@ + signed_decimal(readings.revents as int) + ")"@
            &&& readings.poll_result < 0 ==> told[2] == "pollin=None"@
            &&& readings.poll_result >= 0 && readings.revents & masks.pollin != 0
                ==> told[2] == "pollin=Some(true)"@
            &&& readings.poll_result >= 0 && readings.revents & masks.pollin == 0
                ==> told[2] == "pollin=Some(false)"@
            &&& readings.poll_result < 0 ==> told[3] == "pollout=None"@
            &&& readings.poll_result >= 0 && readings.revents & masks.pollout != 0
                ==> told[3] == "pollout=Some(true)"@
            &&& readings.poll_result >= 0 && readings.revents & masks.pollout == 0
                ==> told[3] == "pollout=Some(false)"@
            &&& readings.poll_result < 0 ==> told[4] == "pollerr=None"@
            &&& readings.poll_result >= 0 && readings.revents & masks.pollerr != 0
                ==> told[4] == "pollerr=Some(true)"@
            &&& readings.poll_result >= 0 && readings.revents & masks.pollerr == 0
                ==> told[4] == "pollerr=Some(false)"@
            &&& readings.poll_result < 0 ==> told[5] == "pollhup=None"@
            &&& readings.poll_result >= 0 && readings.revents & masks.pollhup != 0
                ==> told[5] == "pollhup=Some(true)"@
            &&& readings.poll_result >= 0 && readings.revents & masks.pollhup == 0
                ==> told[5] == "pollhup=Some(false)"@
            &&& readings.poll_result < 0 ==> told[6] == "pollrdhup=None"@
            &&& readings.poll_result >= 0 && readings.revents & masks.pollrdhup != 0
                ==> told[6] == "pollrdhup=Some(true)"@
            &&& readings.poll_result >= 0 && readings.revents & masks.pollrdhup == 0
                ==> told[6] == "pollrdhup=Some(false)"@
        }),
{
    lemma_snapshot_words(readings, masks);
    lemma_condition_words(readings, masks, words(readings.line(masks)));
}

proof fn lemma_option_words(readings: SocketReadings, told: Seq<Seq<char>>)
    requires
        told[8] == "recv_peek_errno="@ + optional_signed(readings.peek_error()),
        told[9] == "so_error="@ + optional_signed(readings.so_error.answer()),
        told[10] == "so_keepalive="@ + optional_signed(readings.so_keepalive.answer()),
        told[11] == "tcp_keepidle="@ + optional_signed(readings.tcp_keepidle.answer()),
        told[12] == "tcp_keepintvl="@ + optional_signed(readings.tcp_keepintvl.answer()),
        told[13] == "tcp_keepcnt="@ + optional_signed(readings.tcp_keepcnt.answer()),
    ensures
        readings.recv_peek >= 0 || readings.last_errno is None ==> told[8] == "recv_peek_errno=None"@,
        readings.recv_peek < 0 && readings.last_errno is Some ==> told[8] == "recv_peek_errno=Some("@ + signed_decimal(readings.last_errno->Some_0 as int) + ")"@,
        readings.so_error.result != 0 ==> told[9] == "so_error=None"@,
        readings.so_error.result == 0 ==> told[9] == "so_error=Some("@ + signed_decimal(readings.so_error.value as int) + ")"@,
        readings.so_keepalive.result != 0 ==> told[10] == "so_keepalive=None"@,
        readings.so_keepalive.result == 0 ==> told[10] == "so_keepalive=Some("@ + signed_decimal(readings.so_keepalive.value as int) + ")"@,
        readings.tcp_keepidle.result != 0 ==> told[11] == "tcp_keepidle=None"@,
        readings.tcp_keepidle.result == 0 ==> told[11] == "tcp_keepidle=Some("@ + signed_decimal(readings.tcp_keepidle.value as int) + ")"@,
        readings.tcp_keepintvl.result != 0 ==> told[12] == "tcp_keepintvl=None"@,
        readings.tcp_keepintvl.result == 0 ==> told[12] == "tcp_keepintvl=Some("@ + signed_decimal(readings.tcp_keepintvl.value as int) + ")"@,
        readings.tcp_keepcnt.result != 0 ==> told[13] == "tcp_keepcnt=None"@,
        readings.tcp_keepcnt.result == 0 ==> told[13] == "tcp_keepcnt=Some("@ + signed_decimal(readings.tcp_keepcnt.value as int) + ")"@,
{
    assert("recv_peek_errno=Some("@ == "recv_peek_errno="@ + "Some("@
        && "recv_peek_errno=None"@ == "recv_peek_errno="@ + "None"@) by {
        reveal_strlit("recv_peek_errno=");
        reveal_strlit("Some(");
        reveal_strlit("recv_peek_errno=Some(");
        assert("recv_peek_errno=Some("@ =~= "recv_peek_errno="@ + "Some("@);
        reveal_strlit("None");
        reveal_strlit("recv_peek_errno=None");
        assert("recv_peek_errno=None"@ =~= "recv_peek_errno="@ + "None"@);
    }
    lemma_named_number(
        "recv_peek_errno="@,
        "recv_peek_errno=Some("@,
        "recv_peek_errno=None"@,
        None,
        readings.peek_error(),
    );
    assert("so_error=Some("@ == "so_error="@ + "Some("@
        && "so_error=None"@ == "so_error="@ + "None"@) by {
        reveal_strlit("so_error=");
        reveal_strlit("Some(");
        reveal_strlit("so_error=Some(");
        assert("so_error=Some("@ =~= "so_error="@ + "Some("@);
        reveal_strlit("None");
        reveal_strlit("so_error=None");
        assert("so_error=None"@ =~= "so_error="@ + "None"@);
    }
    lemma_named_number(
        "so_error="@,
        "so_error=Some("@,
        "so_error=None"@,
        None,
        readings.so_error.answer(),
    );
    assert("so_keepalive=Some("@ == "so_keepalive="@ + "Some("@
        && "so_keepalive=None"@ == "so_keepalive="@ + "None"@) by {
        reveal_strlit("so_keepalive=");
        reveal_strlit("Some(");
        reveal_strlit("so_keepalive=Some(");
        assert("so_keepalive=Some("@ =~= "so_keepalive="@ + "Some("@);
        reveal_strlit("None");
        reveal_strlit("so_keepalive=None");
        assert("so_keepalive=None"@ =~= "so_keepalive="@ + "None"@);
    }
    lemma_named_number(
        "so_keepalive="@,
        "so_keepalive=Some("@,
        "so_keepalive=None"@,
        None,
        readings.so_keepalive.answer(),
    );
    assert("tcp_keepidle=Some("@ == "tcp_keepidle="@ + "Some("@
        && "tcp_keepidle=None"@ == "tcp_keepidle="@ + "None"@) by {
        reveal_strlit("tcp_keepidle=");
        reveal_strlit("Some(");
        reveal_strlit("tcp_keepidle=Some(");
        assert("tcp_keepidle=Some("@ =~= "tcp_keepidle="@ + "Some("@);
        reveal_strlit("None");
        reveal_strlit("tcp_keepidle=None");
        assert("tcp_keepidle=None"@ =~= "tcp_keepidle="@ + "None"@);
    }
    lemma_named_number(
        "tcp_keepidle="@,
        "tcp_keepidle=Some("@,
        "tcp_keepidle=None"@,
        None,
        readings.tcp_keepidle.answer(),
    );
    assert("tcp_keepintvl=Some("@ == "tcp_keepintvl="@ + "Some("@
        && "tcp_keepintvl=None"@ == "tcp_keepintvl="@ + "None"@) by {
        reveal_strlit("tcp_keepintvl=");
        reveal_strlit("Some(");
        reveal_strlit("tcp_keepintvl=Some(");
        assert("tcp_keepintvl=Some("@ =~= "tcp_keepintvl="@ + "Some("@);
        reveal_strlit("None");
        reveal_strlit("tcp_keepintvl=None");
        assert("tcp_keepintvl=None"@ =~= "tcp_keepintvl="@ + "None"@);
    }
    lemma_named_number(
        "tcp_keepintvl="@,
        "tcp_keepintvl=Some("@,
        "tcp_keepintvl=None"@,
        None,
        readings.tcp_keepintvl.answer(),
    );
    assert("tcp_keepcnt=Some("@ == "tcp_keepcnt="@ + "Some("@
        && "tcp_keepcnt=None"@ == "tcp_keepcnt="@ + "None"@) by {
        reveal_strlit("tcp_keepcnt=");
        reveal_strlit("Some(");
        reveal_strlit("tcp_keepcnt=Some(");
        assert("tcp_keepcnt=Some("@ =~= "tcp_keepcnt="@ + "Some("@);
        reveal_strlit("None");
        reveal_strlit("tcp_keepcnt=None");
        assert("tcp_keepcnt=None"@ =~= "tcp_keepcnt="@ + "None"@);
    }
    lemma_named_number(
        "tcp_keepcnt="@,
        "tcp_keepcnt=Some("@,
        "tcp_keepcnt=None"@,
        None,
        readings.tcp_keepcnt.answer(),
    );
}

/// The line tells what peeking and the queries for options gave under their own names: the value of
/// each query that succeeded, and the error of peeking only when it failed.
pub proof fn snapshots_tell_each_option_by_name(readings: SocketReadings, masks: PollMasks)
    ensures
        ({
            let told = words(readings.line(masks));
            &&& told[7] == "recv_peek="@ + signed_decimal(readings.recv_peek as int)
            &&& readings.recv_peek >= 0 || readings.last_errno is None
                ==> told[8] == "recv_peek_errno=None"@
            &&& readings.recv_peek < 0 && readings.last_errno is Some
                ==> told[8] == "recv_peek_errno=Some("@ + signed_decimal(readings.last_errno->Some_0 as int) + ")"@
            &&& readings.so_error.result != 0 ==> told[9] == "so_error=None"@
            &&& readings.so_error.result == 0
                ==> told[9] == "so_error=Some("@ + signed_decimal(readings.so_error.value as int) + ")"@
            &&& readings.so_keepalive.result != 0 ==> told[10] == "so_keepalive=None"@
            &&& readings.so_keepalive.result == 0
                ==> told[10] == "so_keepalive=Some("@ + signed_decimal(readings.so_keepalive.value as int) + ")"@
            &&& readings.tcp_keepidle.result != 0 ==> told[11] == "tcp_keepidle=None"@
            &&& readings.tcp_keepidle.result == 0
                ==> told[11] == "tcp_keepidle=Some("@ + signed_decimal(readings.tcp_keepidle.value as int) + ")"@
            &&& readings.tcp_keepintvl.result != 0 ==> told[12] == "tcp_keepintvl=None"@
            &&& readings.tcp_keepintvl.result == 0
                ==> told[12] == "tcp_keepintvl=Some("@ + signed_decimal(readings.tcp_keepintvl.value as int) + ")"@
            &&& readings.tcp_keepcnt.result != 0 ==> told[13] == "tcp_keepcnt=None"@
            &&& readings.tcp_keepcnt.result == 0
                ==> told[13] == "tcp_keepcnt=Some("@ + signed_decimal(readings.tcp_keepcnt.value as int) + ")"@
        }),
{
    lemma_snapshot_words(readings, masks);
    lemma_option_words(readings, words(readings.line(masks)));
}

/// The line ends with the state of the TCP connection, by name and by number, when the query for it
/// gave anything, and has sixteen words in all.
pub proof fn snapshots_tell_the_tcp_state(readings: SocketReadings, masks: PollMasks)
    ensures
        ({
            let told = words(readings.line(masks));
            &&& told.len() == 16
            &&& readings.tcp_info.result != 0 || readings.tcp_info.length == 0
                ==> told[14] == "tcp_state=None"@ && told[15] == "tcp_state_raw=None"@
            &&& !(readings.tcp_info.result != 0 || readings.tcp_info.length == 0)
                ==> told[14] == "tcp_state=Some(\""@ + state_name(readings.tcp_info.first_byte) + "\")"@
                && told[15] == "tcp_state_raw=Some("@ + decimal(readings.tcp_info.first_byte as nat) + ")"@
        }),
{
    lemma_snapshot_words(readings, masks);
    signs_tell_negative_numbers(readings.tcp_info.first_byte as int);
    assert("tcp_state_raw=Some("@ == "tcp_state_raw="@ + "Some("@
        && "tcp_state_raw=None"@ == "tcp_state_raw="@ + "None"@) by {
        reveal_strlit("tcp_state_raw=");
        reveal_strlit("Some(");
        reveal_strlit("tcp_state_raw=Some(");
        assert("tcp_state_raw=Some("@ =~= "tcp_state_raw="@ + "Some("@);
        reveal_strlit("None");
        reveal_strlit("tcp_state_raw=None");
        assert("tcp_state_raw=None"@ =~= "tcp_state_raw="@ + "None"@);
    }
    lemma_named_number(
        "tcp_state_raw="@,
        "tcp_state_raw=Some("@,
        "tcp_state_raw=None"@,
        None,
        numbered_state(readings.tcp_info.answer()),
    );
    let name = state_name(readings.tcp_info.first_byte);
    assert(readings.tcp_info.result != 0 || readings.tcp_info.length == 0 ==> "tcp_state="@ + quoted_state(readings.tcp_info.answer())
        == "tcp_state=None"@) by {
        reveal_strlit("tcp_state=");
        reveal_strlit("None");
        reveal_strlit("tcp_state=None");
        assert("tcp_state="@ + "None"@ =~= "tcp_state=None"@);
    }
    assert(!(readings.tcp_info.result != 0 || readings.tcp_info.length == 0) ==> "tcp_state="@ + quoted_state(readings.tcp_info.answer())
        == "tcp_state=Some(\""@ + name + "\")"@) by {
        reveal_strlit("tcp_state=");
        reveal_strlit("Some(");
        reveal_strlit(")");
        reveal_strlit("\"");
        reveal_strlit("\")");
        reveal_strlit("tcp_state=Some(\"");
        assert("tcp_state="@ + ("Some("@ + ("\""@ + name + "\""@) + ")"@)
            =~= "tcp_state=Some(\""@ + name + "\")"@);
    }
}

} // verus!
