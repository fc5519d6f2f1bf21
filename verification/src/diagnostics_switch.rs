//! The setting that switches transport diagnostics on.
use vstd::prelude::*;
use vstd::utf8::*;
use crate::transport_event::TARGET;
use crate::utf8_text::collect_chars;

verus! {

/// The environment variable that holds the setting.
pub const DIAGNOSTICS_ENV: &'static str = "CODEX_WS_TRANSPORT_DIAGNOSTICS";

/// Whether Unicode counts `c` as white space.
pub open spec fn white_space(c: char) -> bool {
    ||| 0x09 <= c as u32 <= 0x0d
    ||| c as u32 == 0x20
    ||| c as u32 == 0x85
    ||| c as u32 == 0xa0
    ||| c as u32 == 0x1680
    ||| 0x2000 <= c as u32 <= 0x200a
    ||| c as u32 == 0x2028
    ||| c as u32 == 0x2029
    ||| c as u32 == 0x202f
    ||| c as u32 == 0x205f
    ||| c as u32 == 0x3000
}

/// `c` in lower case where it is an ASCII letter, and `c` itself otherwise.
pub open spec fn ascii_lower(c: char) -> char {
    if 'A' <= c <= 'Z' {
        (c as u32 + 32) as char
    } else {
        c
    }
}

/// A text without the white space at its front.
pub open spec fn trimmed_front(text: Seq<char>) -> Seq<char>
    decreases text.len(),
{
    if text.len() > 0 && white_space(text[0]) {
        trimmed_front(text.drop_first())
    } else {
        text
    }
}

/// A text without the white space at its back.
pub open spec fn trimmed_back(text: Seq<char>) -> Seq<char>
    decreases text.len(),
{
    if text.len() > 0 && white_space(text.last()) {
        trimmed_back(text.drop_last())
    } else {
        text
    }
}

/// A setting in its normal form: without surrounding white space, in ASCII lower case.
pub open spec fn normal_form(text: Seq<char>) -> Seq<char> {
    let inner = trimmed_back(trimmed_front(text));
    Seq::new(inner.len(), |i: int| ascii_lower(inner[i]))
}

/// Whether a setting switches something on.
pub open spec fn switches_on(text: Seq<char>) -> bool {
    let word = normal_form(text);
    word == "1"@ || word == "true"@ || word == "yes"@ || word == "on"@
}

/// Whether a text holds nothing but white space.
pub open spec fn blank(text: Seq<char>) -> bool {
    forall|i: int| 0 <= i < text.len() ==> white_space(#[trigger] text[i])
}

proof fn lemma_trim_front(front: Seq<char>, text: Seq<char>)
    requires
        blank(front),
    ensures
        trimmed_front(front + text) == trimmed_front(text),
    decreases front.len(),
{
    if front.len() == 0 {
        assert(front + text =~= text);
    } else {
        assert((front + text).drop_first() =~= front.drop_first() + text);
        assert(white_space(front[0]));
        lemma_trim_front(front.drop_first(), text);
    }
}

proof fn lemma_trim_back(text: Seq<char>, back: Seq<char>)
    requires
        blank(back),
    ensures
        trimmed_back(text + back) == trimmed_back(text),
    decreases back.len(),
{
    if back.len() == 0 {
        assert(text + back =~= text);
    } else {
        assert((text + back).drop_last() =~= text + back.drop_last());
        assert(white_space(back[back.len() - 1]));
        lemma_trim_back(text, back.drop_last());
    }
}

proof fn lemma_trim_front_keeps_back(text: Seq<char>, back: Seq<char>)
    requires
        blank(back),
    ensures
        trimmed_back(trimmed_front(text + back)) == trimmed_back(trimmed_front(text)),
    decreases text.len(),
{
    if text.len() == 0 {
        assert(text + back =~= back + text);
        lemma_trim_front(back, text);
    } else if white_space(text[0]) {
        assert((text + back).drop_first() =~= text.drop_first() + back);
        lemma_trim_front_keeps_back(text.drop_first(), back);
    } else {
        assert((text + back)[0] == text[0]);
        lemma_trim_back(text, back);
    }
}

/// White space around a setting does not matter.
pub proof fn padding_does_not_matter(front: Seq<char>, text: Seq<char>, back: Seq<char>)
    requires
        blank(front),
        blank(back),
    ensures
        normal_form(front + text + back) == normal_form(text),
        switches_on(front + text + back) == switches_on(text),
{
    assert(front + text + back =~= front + (text + back));
    lemma_trim_front(front, text + back);
    lemma_trim_front_keeps_back(text, back);
}

fn is_white_space(c: char) -> (yes: bool)
    ensures
        yes == white_space(c),
{
    let code: u32 = c as u32;
    (0x09 <= code && code <= 0x0d) || code == 0x20 || code == 0x85 || code == 0xa0 || code
        == 0x1680 || (0x2000 <= code && code <= 0x200a) || code == 0x2028 || code == 0x2029 || code
        == 0x202f || code == 0x205f || code == 0x3000
}

/// Whether the characters from `start` to `end` are `word`, up to the case of ASCII letters.
fn is_word(chars: &Vec<char>, start: usize, end: usize, word: &str) -> (yes: bool)
    requires
        start <= end <= chars@.len(),
    ensures
        yes == (Seq::new(
            (end - start) as nat,
            |i: int| ascii_lower(chars@.subrange(start as int, end as int)[i]),
        ) == word@),
{
    let wanted = collect_chars(word);
    let ghost inner = chars@.subrange(start as int, end as int);
    let ghost lowered = Seq::new((end - start) as nat, |i: int| ascii_lower(inner[i]));
    if wanted.len() != end - start {
        assert(lowered.len() != word@.len());
        return false;
    }
    let mut i: usize = 0;
    while i < wanted.len()
        invariant
            wanted@ == word@,
            start + wanted@.len() == end,
            end <= chars@.len(),
            i <= wanted@.len(),
            inner == chars@.subrange(start as int, end as int),
            lowered == Seq::new((end - start) as nat, |i: int| ascii_lower(inner[i])),
            forall|j: int| 0 <= j < i ==> lowered[j] == wanted@[j],
        decreases wanted@.len() - i,
    {
        let c: char = chars[start + i];
        let lower: u32 = if 'A' <= c && c <= 'Z' {
            c as u32 + 32
        } else {
            c as u32
        };
        assert(lowered[i as int] == ascii_lower(c));
        if lower != wanted[i] as u32 {
            return false;
        }
        proof {
            char_u32_cast(wanted@[i as int], lower);
            char_u32_cast(c, c as u32);
        }
        i = i + 1;
    }
    assert(lowered =~= word@);
    true
}

/// Whether the value of [`DIAGNOSTICS_ENV`], where it has one, switches diagnostics on.
pub fn diagnostics_enabled(value: Option<&str>) -> (enabled: bool)
    ensures
        enabled == (value matches Some(text) && switches_on(text@)),
{
    let text = match value {
        Some(text) => text,
        None => {
            return false;
        },
    };
    let chars = collect_chars(text);
    let mut start: usize = 0;
    let mut end: usize = chars.len();
    assert(text@.subrange(0, end as int) =~= text@);
    while start < end && is_white_space(chars[start])
        invariant
            chars@ == text@,
            start <= end == chars@.len(),
            trimmed_front(text@.subrange(start as int, end as int)) == trimmed_front(text@),
        decreases end - start,
    {
        assert(text@.subrange(start as int, end as int).drop_first() =~= text@.subrange(
            start + 1,
            end as int,
        ));
        start = start + 1;
    }
    assert(trimmed_front(text@) == text@.subrange(start as int, end as int));
    while start < end && is_white_space(chars[end - 1])
        invariant
            chars@ == text@,
            start <= end <= chars@.len(),
            trimmed_back(text@.subrange(start as int, end as int)) == trimmed_back(
                trimmed_front(text@),
            ),
        decreases end - start,
    {
        assert(text@.subrange(start as int, end as int).drop_last() =~= text@.subrange(
            start as int,
            end - 1,
        ));
        end = end - 1;
    }
    let ghost inner = text@.subrange(start as int, end as int);
    assert(trimmed_back(trimmed_front(text@)) == inner);
    assert(normal_form(text@) =~= Seq::new((end - start) as nat, |i: int| ascii_lower(inner[i])));
    is_word(&chars, start, end, "1") || is_word(&chars, start, end, "true") || is_word(
        &chars,
        start,
        end,
        "yes",
    ) || is_word(&chars, start, end, "on")
}

/// White space is what Unicode lists as such: twenty-five characters and no other.
pub proof fn white_space_is_listed(c: char)
    ensures
        white_space(c) <==> {
            ||| c as u32 == 0x09
            ||| c as u32 == 0x0a
            ||| c as u32 == 0x0b
            ||| c as u32 == 0x0c
            ||| c as u32 == 0x0d
            ||| c as u32 == 0x20
            ||| c as u32 == 0x85
            ||| c as u32 == 0xa0
            ||| c as u32 == 0x1680
            ||| c as u32 == 0x2000
            ||| c as u32 == 0x2001
            ||| c as u32 == 0x2002
            ||| c as u32 == 0x2003
            ||| c as u32 == 0x2004
            ||| c as u32 == 0x2005
            ||| c as u32 == 0x2006
            ||| c as u32 == 0x2007
            ||| c as u32 == 0x2008
            ||| c as u32 == 0x2009
            ||| c as u32 == 0x200a
            ||| c as u32 == 0x2028
            ||| c as u32 == 0x2029
            ||| c as u32 == 0x202f
            ||| c as u32 == 0x205f
            ||| c as u32 == 0x3000
        },
{
}

/// Whether a text is a word in lower case up to the case of its ASCII letters.
pub open spec fn says(text: Seq<char>, word: Seq<char>) -> bool {
    &&& text.len() == word.len()
    &&& forall|i: int|
        0 <= i < text.len() ==> #[trigger] text[i] == word[i] || ('a' <= word[i] <= 'z'
            && text[i] as u32 + 32 == word[i] as u32)
}

/// Whether a text is another one with white space around it.
pub open spec fn padded(
    text: Seq<char>,
    front: Seq<char>,
    inner: Seq<char>,
    back: Seq<char>,
) -> bool {
    text == front + inner + back && blank(front) && blank(back)
}

proof fn lemma_front_is_blank(text: Seq<char>) -> (n: int)
    ensures
        0 <= n <= text.len(),
        trimmed_front(text) == text.skip(n),
        blank(text.take(n)),
    decreases text.len(),
{
    if text.len() > 0 && white_space(text[0]) {
        let k = lemma_front_is_blank(text.drop_first());
        assert(text.drop_first().skip(k) =~= text.skip(k + 1));
        assert forall|i: int| 0 <= i < text.take(k + 1).len() implies white_space(
            #[trigger] text.take(k + 1)[i],
        ) by {
            if i > 0 {
                assert(text.take(k + 1)[i] == text.drop_first().take(k)[i - 1]);
            }
        }
        k + 1
    } else {
        assert(text.skip(0) =~= text);
        0
    }
}

proof fn lemma_back_is_blank(text: Seq<char>) -> (n: int)
    ensures
        0 <= n <= text.len(),
        trimmed_back(text) == text.take(n),
        blank(text.skip(n)),
    decreases text.len(),
{
    if text.len() > 0 && white_space(text.last()) {
        let shorter = text.drop_last();
        let k = lemma_back_is_blank(shorter);
        assert(shorter.take(k) =~= text.take(k));
        assert forall|i: int| 0 <= i < text.skip(k).len() implies white_space(
            #[trigger] text.skip(k)[i],
        ) by {
            if i < text.skip(k).len() - 1 {
                assert(text.skip(k)[i] == shorter.skip(k)[i]);
            }
        }
        k
    } else {
        assert(text.take(text.len() as int) =~= text);
        text.len() as int
    }
}

proof fn lemma_word_is_normal(text: Seq<char>, word: Seq<char>)
    requires
        says(text, word),
        word.len() > 0,
        forall|i: int|
            0 <= i < word.len() ==> 'a' <= #[trigger] word[i] <= 'z' || '0' <= word[i] <= '9',
    ensures
        normal_form(text) == word,
{
    assert(text[0] == word[0] || text[0] as u32 + 32 == word[0] as u32);
    assert('a' <= word[0] <= 'z' || '0' <= word[0] <= '9');
    let n = word.len() - 1;
    assert(text[n] == word[n] || text[n] as u32 + 32 == word[n] as u32);
    assert('a' <= word[n] <= 'z' || '0' <= word[n] <= '9');
    assert(trimmed_front(text) == text);
    assert(trimmed_back(text) == text);
    assert forall|i: int| 0 <= i < text.len() implies #[trigger] normal_form(text)[i]
        == word[i] by {
        assert(text[i] == word[i] || text[i] as u32 + 32 == word[i] as u32);
        assert('a' <= word[i] <= 'z' || '0' <= word[i] <= '9');
        char_u32_cast(word[i], word[i] as u32);
    }
    assert(normal_form(text) =~= word);
}

proof fn lemma_normal_form_says(text: Seq<char>, word: Seq<char>)
    requires
        normal_form(text) == word,
    ensures
        says(trimmed_back(trimmed_front(text)), word),
{
    let inner = trimmed_back(trimmed_front(text));
    assert forall|i: int| 0 <= i < inner.len() implies #[trigger] inner[i] == word[i] || ('a'
        <= word[i] <= 'z' && inner[i] as u32 + 32 == word[i] as u32) by {
        assert(word[i] == ascii_lower(inner[i]));
        if 'A' <= inner[i] <= 'Z' {
            char_u32_cast(word[i], (inner[i] as u32 + 32) as u32);
        }
    }
}

/// Whether a text is one of the words that switch something on, in whatever case.
pub open spec fn says_on(text: Seq<char>) -> bool {
    says(text, "1"@) || says(text, "true"@) || says(text, "yes"@) || says(text, "on"@)
}

proof fn lemma_word_switches_on(text: Seq<char>)
    requires
        says_on(text),
    ensures
        switches_on(text),
{
    reveal_strlit("1");
    reveal_strlit("true");
    reveal_strlit("yes");
    reveal_strlit("on");
    if says(text, "1"@) {
        lemma_word_is_normal(text, "1"@);
    } else if says(text, "true"@) {
        lemma_word_is_normal(text, "true"@);
    } else if says(text, "yes"@) {
        lemma_word_is_normal(text, "yes"@);
    } else {
        lemma_word_is_normal(text, "on"@);
    }
}

/// A setting switches on exactly when it is `1`, `true`, `yes` or `on` in whatever case, with
/// nothing but white space around it.
pub proof fn settings_switch_on_by_word(text: Seq<char>)
    ensures
        switches_on(text) <==> exists|front: Seq<char>, inner: Seq<char>, back: Seq<char>| #[trigger]
            padded(text, front, inner, back) && says_on(inner),
{
    if switches_on(text) {
        let a = lemma_front_is_blank(text);
        let b = lemma_back_is_blank(text.skip(a));
        let inner = text.skip(a).take(b);
        let front = text.take(a);
        let back = text.skip(a).skip(b);
        assert(text =~= front + inner + back);
        lemma_normal_form_says(text, normal_form(text));
        assert(padded(text, front, inner, back) && says_on(inner));
    }
    assert forall|front: Seq<char>, inner: Seq<char>, back: Seq<char>| #[trigger]
        padded(text, front, inner, back) && says_on(inner) implies switches_on(text) by {
        padding_does_not_matter(front, inner, back);
        lemma_word_switches_on(inner);
    }
}

/// The setting and the records have these names.
pub proof fn diagnostics_are_found_by_name()
    ensures
        DIAGNOSTICS_ENV@ == "CODEX_WS_TRANSPORT_DIAGNOSTICS"@,
        TARGET@ == "codex_websocket_client::transport"@,
{
}

} // verus!
