//! Reads a log line back: the words between its spaces.
use vstd::prelude::*;
use crate::format_text::decimal;
use crate::format_text::decimal_says_its_number;
use crate::format_text::flag;
use crate::format_text::optional_decimal;
use crate::format_text::optional_flag;
use crate::format_text::optional_signed;
use crate::format_text::signed_decimal;
use crate::format_text::signs_tell_negative_numbers;
use crate::format_text::values_are_written_out;

verus! {

/// The words of a line, which are parted by single spaces.
pub open spec fn words(line: Seq<char>) -> Seq<Seq<char>>
    decreases line.len(),
{
    if line.len() == 0 {
        seq![Seq::empty()]
    } else {
        let earlier = words(line.drop_last());
        if line.last() == ' ' {
            earlier.push(Seq::empty())
        } else {
            earlier.update(earlier.len() - 1, earlier.last().push(line.last()))
        }
    }
}

/// Whether a text holds no space.
pub open spec fn spaceless(text: Seq<char>) -> bool {
    forall|i: int| 0 <= i < text.len() ==> #[trigger] text[i] != ' '
}

proof fn lemma_words_exist(line: Seq<char>)
    ensures
        words(line).len() > 0,
    decreases line.len(),
{
    if line.len() > 0 {
        lemma_words_exist(line.drop_last());
    }
}

/// What follows without a space belongs to the last word.
pub proof fn lemma_word_grows(line: Seq<char>, more: Seq<char>)
    requires
        spaceless(more),
    ensures
        words(line).len() > 0,
        words(line + more) == words(line).update(
            words(line).len() - 1,
            words(line).last() + more,
        ),
    decreases more.len(),
{
    lemma_words_exist(line);
    if more.len() == 0 {
        assert(line + more =~= line);
        assert(words(line).last() + more =~= words(line).last());
        assert(words(line).update(words(line).len() - 1, words(line).last()) =~= words(line));
    } else {
        let shorter = more.drop_last();
        assert forall|i: int| 0 <= i < shorter.len() implies #[trigger] shorter[i] != ' ' by {
            assert(shorter[i] == more[i]);
        }
        lemma_word_grows(line, shorter);
        assert((line + more).drop_last() =~= line + shorter);
        assert(more[more.len() - 1] != ' ');
        assert((words(line).last() + shorter).push(more.last()) =~= words(line).last() + more);
        assert(words(line + more) =~= words(line).update(
            words(line).len() - 1,
            words(line).last() + more,
        ));
    }
}

/// A text without a space is one word.
pub proof fn lemma_one_word(text: Seq<char>)
    requires
        spaceless(text),
    ensures
        words(text) == seq![text],
{
    lemma_word_grows(Seq::empty(), text);
    assert(Seq::<char>::empty() + text =~= text);
    assert(words(text) =~= seq![text]);
}

/// A space begins a new word.
pub proof fn lemma_next_word(line: Seq<char>, mark: Seq<char>, value: Seq<char>)
    requires
        mark.len() > 0,
        mark[0] == ' ',
        spaceless(mark.drop_first()),
        spaceless(value),
    ensures
        words(line + mark + value) == words(line).push(mark.drop_first() + value),
{
    let name = mark.drop_first();
    let begun = line.push(' ');
    assert(begun.drop_last() =~= line);
    lemma_words_exist(line);
    lemma_word_grows(begun, name);
    assert(begun + name =~= line + mark);
    lemma_word_grows(line + mark, value);
    assert(Seq::<char>::empty() + name + value =~= name + value);
    assert(words(line + mark + value) =~= words(line).push(name + value));
}

/// Decimal numbers hold no space.
pub proof fn lemma_numbers_are_spaceless(n: nat, i: int)
    ensures
        spaceless(decimal(n)),
        spaceless(signed_decimal(i)),
{
    decimal_says_its_number(n);
    assert forall|k: int| 0 <= k < decimal(n).len() implies #[trigger] decimal(n)[k] != ' ' by {
        assert('0' <= decimal(n)[k]);
    }
    signs_tell_negative_numbers(i);
    let size: nat = if i < 0 {
        (-i) as nat
    } else {
        i as nat
    };
    decimal_says_its_number(size);
    assert forall|k: int| 0 <= k < signed_decimal(i).len() implies #[trigger] signed_decimal(i)[k]
        != ' ' by {
        if i >= 0 {
            assert('0' <= decimal(size)[k]);
        } else if k > 0 {
            assert('0' <= decimal(size)[k - 1]);
        }
    }
}

/// Texts without a space make a text without one.
pub proof fn lemma_spaceless_concat(a: Seq<char>, b: Seq<char>)
    requires
        spaceless(a),
        spaceless(b),
    ensures
        spaceless(a + b),
{
    assert forall|i: int| 0 <= i < (a + b).len() implies #[trigger] (a + b)[i] != ' ' by {
        if i < a.len() {
            assert((a + b)[i] == a[i]);
        } else {
            assert((a + b)[i] == b[i - a.len()]);
        }
    }
}

/// Flags and optional values hold no space.
pub proof fn lemma_values_are_spaceless(
    set: bool,
    number: Option<u64>,
    integer: Option<i32>,
    choice: Option<bool>,
)
    ensures
        spaceless(flag(set)),
        spaceless(optional_decimal(number)),
        spaceless(optional_signed(integer)),
        spaceless(optional_flag(choice)),
{
    values_are_written_out(set, number, integer, choice);
    reveal_strlit("true");
    reveal_strlit("false");
    reveal_strlit("None");
    reveal_strlit("Some(");
    reveal_strlit(")");
    reveal_strlit("Some(true)");
    reveal_strlit("Some(false)");
    if let Some(n) = number {
        lemma_numbers_are_spaceless(n as nat, 0);
        lemma_spaceless_concat("Some("@, decimal(n as nat));
        lemma_spaceless_concat("Some("@ + decimal(n as nat), ")"@);
    }
    if let Some(i) = integer {
        lemma_numbers_are_spaceless(0, i as int);
        lemma_spaceless_concat("Some("@, signed_decimal(i as int));
        lemma_spaceless_concat("Some("@ + signed_decimal(i as int), ")"@);
    }
}

/// A flag behind its name.
pub proof fn lemma_named_flag(name: Seq<char>, yes: Seq<char>, no: Seq<char>, set: bool)
    requires
        yes == name + "true"@,
        no == name + "false"@,
    ensures
        name + flag(set) == if set {
            yes
        } else {
            no
        },
{
    values_are_written_out(set, None, None, None);
}

/// An optional flag behind its name.
pub proof fn lemma_named_choice(
    name: Seq<char>,
    yes: Seq<char>,
    no: Seq<char>,
    none: Seq<char>,
    choice: Option<bool>,
)
    requires
        yes == name + "Some(true)"@,
        no == name + "Some(false)"@,
        none == name + "None"@,
    ensures
        name + optional_flag(choice) == match choice {
            Some(true) => yes,
            Some(false) => no,
            None => none,
        },
{
    values_are_written_out(true, None, None, choice);
}

/// An optional number behind its name.
pub proof fn lemma_named_number(
    name: Seq<char>,
    some: Seq<char>,
    none: Seq<char>,
    number: Option<u64>,
    integer: Option<i32>,
)
    requires
        some == name + "Some("@,
        none == name + "None"@,
    ensures
        name + optional_decimal(number) == match number {
            Some(n) => some + decimal(n as nat) + ")"@,
            None => none,
        },
        name + optional_signed(integer) == match integer {
            Some(i) => some + signed_decimal(i as int) + ")"@,
            None => none,
        },
{
    values_are_written_out(true, number, integer, None);
    if let Some(n) = number {
        assert(name + ("Some("@ + decimal(n as nat) + ")"@) =~= some + decimal(n as nat) + ")"@);
    }
    if let Some(i) = integer {
        assert(name + ("Some("@ + signed_decimal(i as int) + ")"@) =~= some + signed_decimal(
            i as int,
        ) + ")"@);
    }
}

} // verus!
