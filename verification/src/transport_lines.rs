//! What the one-line account of a connection tells its reader.
use vstd::prelude::*;
use crate::format_text::decimal;
use crate::format_text::flag;
use crate::format_text::optional_decimal;
use crate::log_words::lemma_named_flag;
use crate::log_words::lemma_named_number;
use crate::log_words::lemma_next_word;
use crate::log_words::lemma_numbers_are_spaceless;
use crate::log_words::lemma_one_word;
use crate::log_words::lemma_spaceless_concat;
use crate::log_words::lemma_values_are_spaceless;
use crate::log_words::words;
use crate::transport_diagnostics::time_of;
use crate::transport_diagnostics::Activity;
use crate::transport_diagnostics::TransportDiagnostics;
use crate::transport_history::account;
use crate::transport_history::flags_record_history;

verus! {

proof fn lemma_summary_words(account: TransportDiagnostics, lifetime_ms: u64)
    ensures
        words(account.summary_text(lifetime_ms)) == seq![
            "lifetime_ms="@ + decimal(lifetime_ms as nat),
            "raw_read="@ + decimal(account.raw_bytes_read as nat),
            "raw_written="@ + decimal(account.raw_bytes_written as nat),
            "ws_read="@ + decimal(account.websocket_bytes_read as nat),
            "ws_written="@ + decimal(account.websocket_bytes_written as nat),
            "last_read_ms="@ + optional_decimal(time_of(account.last_read_ms)),
            "last_write_ms="@ + optional_decimal(time_of(account.last_write_ms)),
            "read_zero="@ + flag(account.read_zero),
            "local_write_shutdown="@ + flag(account.local_write_shutdown),
            "websocket_close_started="@ + flag(account.websocket_close_started),
            "transport_dropped="@ + flag(account.transport_dropped),
        ],
{
    lemma_numbers_are_spaceless(lifetime_ms as nat, 0);
    lemma_numbers_are_spaceless(account.raw_bytes_read as nat, 0);
    lemma_numbers_are_spaceless(account.raw_bytes_written as nat, 0);
    lemma_numbers_are_spaceless(account.websocket_bytes_read as nat, 0);
    lemma_numbers_are_spaceless(account.websocket_bytes_written as nat, 0);
    lemma_values_are_spaceless(true, time_of(account.last_read_ms), None, None);
    lemma_values_are_spaceless(true, time_of(account.last_write_ms), None, None);
    lemma_values_are_spaceless(account.read_zero, None, None, None);
    lemma_values_are_spaceless(account.local_write_shutdown, None, None, None);
    lemma_values_are_spaceless(account.websocket_close_started, None, None, None);
    lemma_values_are_spaceless(account.transport_dropped, None, None, None);
    let l0 = "lifetime_ms="@ + decimal(lifetime_ms as nat);
    assert(words(l0) == seq!["lifetime_ms="@ + decimal(lifetime_ms as nat)]) by {
        reveal_strlit("lifetime_ms=");
        lemma_spaceless_concat("lifetime_ms="@, decimal(lifetime_ms as nat));
        lemma_one_word(l0);
    }
    let l1 = l0 + " raw_read="@ + decimal(account.raw_bytes_read as nat);
    assert(words(l1) == words(l0).push("raw_read="@ + decimal(account.raw_bytes_read as nat))) by {
        reveal_strlit(" raw_read=");
        reveal_strlit("raw_read=");
        assert(" raw_read="@.drop_first() =~= "raw_read="@);
        lemma_next_word(l0, " raw_read="@, decimal(account.raw_bytes_read as nat));
    }
    let l2 = l1 + " raw_written="@ + decimal(account.raw_bytes_written as nat);
    assert(words(l2)
        == words(l1).push("raw_written="@ + decimal(account.raw_bytes_written as nat))) by {
        reveal_strlit(" raw_written=");
        reveal_strlit("raw_written=");
        assert(" raw_written="@.drop_first() =~= "raw_written="@);
        lemma_next_word(l1, " raw_written="@, decimal(account.raw_bytes_written as nat));
    }
    let l3 = l2 + " ws_read="@ + decimal(account.websocket_bytes_read as nat);
    assert(words(l3)
        == words(l2).push("ws_read="@ + decimal(account.websocket_bytes_read as nat))) by {
        reveal_strlit(" ws_read=");
        reveal_strlit("ws_read=");
        assert(" ws_read="@.drop_first() =~= "ws_read="@);
        lemma_next_word(l2, " ws_read="@, decimal(account.websocket_bytes_read as nat));
    }
    let l4 = l3 + " ws_written="@ + decimal(account.websocket_bytes_written as nat);
    assert(words(l4)
        == words(l3).push("ws_written="@ + decimal(account.websocket_bytes_written as nat))) by {
        reveal_strlit(" ws_written=");
        reveal_strlit("ws_written=");
        assert(" ws_written="@.drop_first() =~= "ws_written="@);
        lemma_next_word(l3, " ws_written="@, decimal(account.websocket_bytes_written as nat));
    }
    let l5 = l4 + " last_read_ms="@ + optional_decimal(time_of(account.last_read_ms));
    assert(words(l5)
        == words(l4).push("last_read_ms="@ + optional_decimal(time_of(account.last_read_ms)))) by {
        reveal_strlit(" last_read_ms=");
        reveal_strlit("last_read_ms=");
        assert(" last_read_ms="@.drop_first() =~= "last_read_ms="@);
        lemma_next_word(l4, " last_read_ms="@, optional_decimal(time_of(account.last_read_ms)));
    }
    let l6 = l5 + " last_write_ms="@ + optional_decimal(time_of(account.last_write_ms));
    assert(words(l6)
        == words(l5).push("last_write_ms="@ + optional_decimal(time_of(account.last_write_ms)))) by {
        reveal_strlit(" last_write_ms=");
        reveal_strlit("last_write_ms=");
        assert(" last_write_ms="@.drop_first() =~= "last_write_ms="@);
        lemma_next_word(l5, " last_write_ms="@, optional_decimal(time_of(account.last_write_ms)));
    }
    let l7 = l6 + " read_zero="@ + flag(account.read_zero);
    assert(words(l7) == words(l6).push("read_zero="@ + flag(account.read_zero))) by {
        reveal_strlit(" read_zero=");
        reveal_strlit("read_zero=");
        assert(" read_zero="@.drop_first() =~= "read_zero="@);
        lemma_next_word(l6, " read_zero="@, flag(account.read_zero));
    }
    let l8 = l7 + " local_write_shutdown="@ + flag(account.local_write_shutdown);
    assert(words(l8)
        == words(l7).push("local_write_shutdown="@ + flag(account.local_write_shutdown))) by {
        reveal_strlit(" local_write_shutdown=");
        reveal_strlit("local_write_shutdown=");
        assert(" local_write_shutdown="@.drop_first() =~= "local_write_shutdown="@);
        lemma_next_word(l7, " local_write_shutdown="@, flag(account.local_write_shutdown));
    }
    let l9 = l8 + " websocket_close_started="@ + flag(account.websocket_close_started);
    assert(words(l9)
        == words(l8).push("websocket_close_started="@ + flag(account.websocket_close_started))) by {
        reveal_strlit(" websocket_close_started=");
        reveal_strlit("websocket_close_started=");
        assert(" websocket_close_started="@.drop_first() =~= "websocket_close_started="@);
        lemma_next_word(l8, " websocket_close_started="@, flag(account.websocket_close_started));
    }
    let l10 = l9 + " transport_dropped="@ + flag(account.transport_dropped);
    assert(words(l10)
        == words(l9).push("transport_dropped="@ + flag(account.transport_dropped))) by {
        reveal_strlit(" transport_dropped=");
        reveal_strlit("transport_dropped=");
        assert(" transport_dropped="@.drop_first() =~= "transport_dropped="@);
        lemma_next_word(l9, " transport_dropped="@, flag(account.transport_dropped));
    }
    assert(l10 == account.summary_text(lifetime_ms));
}

/// The line tells each part of the account under its own name, one word for each, and nothing else.
pub proof fn summaries_tell_each_part_by_name(account: TransportDiagnostics, lifetime_ms: u64)
    ensures
        ({
            let told = words(account.summary_text(lifetime_ms));
            &&& told.len() == 11
            &&& told[0] == "lifetime_ms="@ + decimal(lifetime_ms as nat)
            &&& told[1] == "raw_read="@ + decimal(account.raw_bytes_read as nat)
            &&& told[2] == "raw_written="@ + decimal(account.raw_bytes_written as nat)
            &&& told[3] == "ws_read="@ + decimal(account.websocket_bytes_read as nat)
            &&& told[4] == "ws_written="@ + decimal(account.websocket_bytes_written as nat)
            &&& account.last_read_ms == u64::MAX ==> told[5] == "last_read_ms=None"@
            &&& account.last_read_ms != u64::MAX
                ==> told[5] == "last_read_ms=Some("@ + decimal(account.last_read_ms as nat) + ")"@
            &&& account.last_write_ms == u64::MAX ==> told[6] == "last_write_ms=None"@
            &&& account.last_write_ms != u64::MAX
                ==> told[6] == "last_write_ms=Some("@ + decimal(account.last_write_ms as nat) + ")"@
            &&& account.read_zero ==> told[7] == "read_zero=true"@
            &&& !account.read_zero ==> told[7] == "read_zero=false"@
            &&& account.local_write_shutdown ==> told[8] == "local_write_shutdown=true"@
            &&& !account.local_write_shutdown ==> told[8] == "local_write_shutdown=false"@
            &&& account.websocket_close_started ==> told[9] == "websocket_close_started=true"@
            &&& !account.websocket_close_started ==> told[9] == "websocket_close_started=false"@
            &&& account.transport_dropped ==> told[10] == "transport_dropped=true"@
            &&& !account.transport_dropped ==> told[10] == "transport_dropped=false"@
        }),
{
    lemma_summary_words(account, lifetime_ms);
    assert("last_read_ms=Some("@ == "last_read_ms="@ + "Some("@
        && "last_read_ms=None"@ == "last_read_ms="@ + "None"@) by {
        reveal_strlit("last_read_ms=");
        reveal_strlit("Some(");
        reveal_strlit("last_read_ms=Some(");
        assert("last_read_ms=Some("@ =~= "last_read_ms="@ + "Some("@);
        reveal_strlit("None");
        reveal_strlit("last_read_ms=None");
        assert("last_read_ms=None"@ =~= "last_read_ms="@ + "None"@);
    }
    lemma_named_number(
        "last_read_ms="@,
        "last_read_ms=Some("@,
        "last_read_ms=None"@,
        time_of(account.last_read_ms),
        None,
    );
    assert("last_write_ms=Some("@ == "last_write_ms="@ + "Some("@
        && "last_write_ms=None"@ == "last_write_ms="@ + "None"@) by {
        reveal_strlit("last_write_ms=");
        reveal_strlit("Some(");
        reveal_strlit("last_write_ms=Some(");
        assert("last_write_ms=Some("@ =~= "last_write_ms="@ + "Some("@);
        reveal_strlit("None");
        reveal_strlit("last_write_ms=None");
        assert("last_write_ms=None"@ =~= "last_write_ms="@ + "None"@);
    }
    lemma_named_number(
        "last_write_ms="@,
        "last_write_ms=Some("@,
        "last_write_ms=None"@,
        time_of(account.last_write_ms),
        None,
    );
    assert("read_zero=true"@ == "read_zero="@ + "true"@
        && "read_zero=false"@ == "read_zero="@ + "false"@) by {
        reveal_strlit("read_zero=");
        reveal_strlit("true");
        reveal_strlit("read_zero=true");
        assert("read_zero=true"@ =~= "read_zero="@ + "true"@);
        reveal_strlit("false");
        reveal_strlit("read_zero=false");
        assert("read_zero=false"@ =~= "read_zero="@ + "false"@);
    }
    lemma_named_flag("read_zero="@, "read_zero=true"@, "read_zero=false"@, account.read_zero);
    assert("local_write_shutdown=true"@ == "local_write_shutdown="@ + "true"@
        && "local_write_shutdown=false"@ == "local_write_shutdown="@ + "false"@) by {
        reveal_strlit("local_write_shutdown=");
        reveal_strlit("true");
        reveal_strlit("local_write_shutdown=true");
        assert("local_write_shutdown=true"@ =~= "local_write_shutdown="@ + "true"@);
        reveal_strlit("false");
        reveal_strlit("local_write_shutdown=false");
        assert("local_write_shutdown=false"@ =~= "local_write_shutdown="@ + "false"@);
    }
    lemma_named_flag(
        "local_write_shutdown="@,
        "local_write_shutdown=true"@,
        "local_write_shutdown=false"@,
        account.local_write_shutdown,
    );
    assert("websocket_close_started=true"@ == "websocket_close_started="@ + "true"@
        && "websocket_close_started=false"@ == "websocket_close_started="@ + "false"@) by {
        reveal_strlit("websocket_close_started=");
        reveal_strlit("true");
        reveal_strlit("websocket_close_started=true");
        assert("websocket_close_started=true"@ =~= "websocket_close_started="@ + "true"@);
        reveal_strlit("false");
        reveal_strlit("websocket_close_started=false");
        assert("websocket_close_started=false"@ =~= "websocket_close_started="@ + "false"@);
    }
    lemma_named_flag(
        "websocket_close_started="@,
        "websocket_close_started=true"@,
        "websocket_close_started=false"@,
        account.websocket_close_started,
    );
    assert("transport_dropped=true"@ == "transport_dropped="@ + "true"@
        && "transport_dropped=false"@ == "transport_dropped="@ + "false"@) by {
        reveal_strlit("transport_dropped=");
        reveal_strlit("true");
        reveal_strlit("transport_dropped=true");
        assert("transport_dropped=true"@ =~= "transport_dropped="@ + "true"@);
        reveal_strlit("false");
        reveal_strlit("transport_dropped=false");
        assert("transport_dropped=false"@ =~= "transport_dropped="@ + "false"@);
    }
    lemma_named_flag(
        "transport_dropped="@,
        "transport_dropped=true"@,
        "transport_dropped=false"@,
        account.transport_dropped,
    );
}

/// The line tells what happened to the connection: each flag is shown as set exactly when its cause
/// is part of the history.
pub proof fn summaries_tell_the_history(
    connection_id: u64,
    history: Seq<Activity>,
    lifetime_ms: u64,
)
    ensures
        ({
            let told = words(account(connection_id, history).summary_text(lifetime_ms));
            &&& told[7] == "read_zero=true"@ <==> history.contains(Activity::ReadZero)
            &&& told[8] == "local_write_shutdown=true"@ <==> history.contains(
                Activity::WriteShutdown,
            )
            &&& told[9] == "websocket_close_started=true"@ <==> history.contains(
                Activity::CloseStarted,
            )
            &&& told[10] == "transport_dropped=true"@ <==> history.contains(
                Activity::TransportDropped,
            )
        }),
{
    summaries_tell_each_part_by_name(account(connection_id, history), lifetime_ms);
    flags_record_history(connection_id, history);
    reveal_strlit("read_zero=true");
    reveal_strlit("read_zero=false");
    assert("read_zero=true"@.len() != "read_zero=false"@.len());
    reveal_strlit("local_write_shutdown=true");
    reveal_strlit("local_write_shutdown=false");
    assert("local_write_shutdown=true"@.len() != "local_write_shutdown=false"@.len());
    reveal_strlit("websocket_close_started=true");
    reveal_strlit("websocket_close_started=false");
    assert("websocket_close_started=true"@.len() != "websocket_close_started=false"@.len());
    reveal_strlit("transport_dropped=true");
    reveal_strlit("transport_dropped=false");
    assert("transport_dropped=true"@.len() != "transport_dropped=false"@.len());
}

} // verus!
