//! Strings as sequences of characters together with the UTF-8 bytes that encode them.
use vstd::prelude::*;
use vstd::string::*;
use vstd::utf8::*;

verus! {

/// The number of bytes that `text` takes in UTF-8.
pub open spec fn utf8_len(text: Seq<char>) -> nat {
    encode_utf8(text).len()
}

/// The number of bytes that one character takes in UTF-8.
pub open spec fn utf8_width(c: char) -> nat {
    if c as u32 <= 0x7f {
        1
    } else if c as u32 <= 0x7ff {
        2
    } else if c as u32 <= 0xffff {
        3
    } else {
        4
    }
}

/// The texts of a sequence of strings.
pub open spec fn texts(strings: Seq<String>) -> Seq<Seq<char>> {
    Seq::new(strings.len(), |i: int| strings[i]@)
}

/// The text of an optional string.
pub open spec fn optional_text(text: Option<String>) -> Option<Seq<char>> {
    match text {
        Some(text) => Some(text@),
        None => None,
    }
}

/// Encoding distributes over concatenation.
pub proof fn lemma_encode_concat(a: Seq<char>, b: Seq<char>)
    ensures
        encode_utf8(a + b) == encode_utf8(a) + encode_utf8(b),
        utf8_len(a + b) == utf8_len(a) + utf8_len(b),
    decreases a.len(),
{
    if a.len() == 0 {
        assert(a + b =~= b);
    } else {
        assert((a + b).drop_first() =~= a.drop_first() + b);
        lemma_encode_concat(a.drop_first(), b);
        assert(encode_utf8(a + b) =~= encode_utf8(a) + encode_utf8(b));
    }
}

/// A single character takes [`utf8_width`] bytes.
pub proof fn lemma_width(c: char)
    ensures
        utf8_len(seq![c]) == utf8_width(c),
{
    let one = seq![c];
    char_is_scalar(c);
    assert(one.drop_first() =~= Seq::<char>::empty());
    assert(encode_utf8(one.drop_first()) =~= Seq::<u8>::empty());
    assert(encode_utf8(one) == encode_scalar(c as u32) + encode_utf8(one.drop_first()));
}

/// The empty text takes no bytes, and any other text takes at least one.
pub proof fn lemma_len_zero(text: Seq<char>)
    ensures
        utf8_len(text) == 0 <==> text.len() == 0,
{
    if text.len() > 0 {
        lemma_split(text, 1);
        assert(text.take(1) =~= seq![text[0]]);
        lemma_width(text[0]);
    }
}

/// Cutting a text in two cuts its bytes in two.
pub proof fn lemma_split(text: Seq<char>, k: int)
    requires
        0 <= k <= text.len(),
    ensures
        encode_utf8(text) == encode_utf8(text.take(k)) + encode_utf8(text.skip(k)),
        utf8_len(text) == utf8_len(text.take(k)) + utf8_len(text.skip(k)),
{
    assert(text =~= text.take(k) + text.skip(k));
    lemma_encode_concat(text.take(k), text.skip(k));
}

/// One more character makes a prefix longer by that character's width.
pub proof fn lemma_prefix_step(text: Seq<char>, k: int)
    requires
        0 <= k < text.len(),
    ensures
        utf8_len(text.take(k + 1)) == utf8_len(text.take(k)) + utf8_width(text[k]),
{
    assert(text.take(k + 1) =~= text.take(k) + seq![text[k]]);
    lemma_encode_concat(text.take(k), seq![text[k]]);
    lemma_width(text[k]);
}

/// The bytes of a prefix never outnumber those of a longer prefix.
pub proof fn lemma_prefix_monotone(text: Seq<char>, i: int, j: int)
    requires
        0 <= i <= j <= text.len(),
    ensures
        utf8_len(text.take(i)) <= utf8_len(text.take(j)),
{
    assert(text.take(j).take(i) =~= text.take(i));
    lemma_split(text.take(j), i);
}

/// The end of every prefix is a character boundary of the encoded text.
proof fn lemma_prefix_boundary(text: Seq<char>, k: int)
    requires
        0 <= k <= text.len(),
    ensures
        is_char_boundary(encode_utf8(text), utf8_len(text.take(k)) as int),
    decreases k,
{
    encode_utf8_valid_utf8(text);
    let bytes = encode_utf8(text);
    if k == 0 {
        lemma_len_zero(text.take(0));
        is_char_boundary_start_end_of_seq(bytes);
    } else {
        let rest = text.drop_first();
        encode_utf8_first_scalar(text);
        lemma_prefix_boundary(rest, k - 1);
        assert(pop_first_scalar(bytes) =~= encode_utf8(rest));
        let prefix = text.take(k);
        assert(prefix.drop_first() =~= rest.take(k - 1));
        assert(encode_utf8(prefix) == encode_scalar(prefix[0] as u32) + encode_utf8(
            prefix.drop_first(),
        ));
        lemma_split(text, k);
        lemma_len_zero(prefix);
    }
}

/// Two texts with the same bytes are the same text.
proof fn lemma_encode_injective(a: Seq<char>, b: Seq<char>)
    requires
        encode_utf8(a) == encode_utf8(b),
    ensures
        a == b,
{
    encode_utf8_decode_utf8(a);
    encode_utf8_decode_utf8(b);
}

/// The number of bytes of a string slice.
pub fn byte_len(text: &str) -> (n: usize)
    ensures
        n as nat == utf8_len(text@),
{
    text.as_bytes().len()
}

/// The number of bytes of one character.
pub fn char_width(c: char) -> (n: usize)
    ensures
        n as nat == utf8_width(c),
{
    let code: u32 = c as u32;
    if code <= 0x7f {
        1
    } else if code <= 0x7ff {
        2
    } else if code <= 0xffff {
        3
    } else {
        4
    }
}

/// The characters of a string slice, one by one.
pub fn collect_chars(text: &str) -> (chars: Vec<char>)
    ensures
        chars@ == text@,
{
    let mut chars: Vec<char> = Vec::new();
    for c in it: text.chars()
        invariant
            it.seq() == text@,
            chars@ == text@.take(it.index() as int),
    {
        chars.push(c);
        assert(chars@ =~= text@.take(it.index() + 1));
    }
    assert(text@.take(text@.len() as int) =~= text@);
    chars
}

/// Cuts `text` behind its first `k` characters, which take `mid` bytes.
pub(crate) fn split_chars<'a>(text: &'a str, mid: usize, Ghost(k): Ghost<int>) -> (parts: (
    &'a str,
    &'a str,
))
    requires
        0 <= k <= text@.len(),
        mid as nat == utf8_len(text@.take(k)),
    ensures
        parts.0@ == text@.take(k),
        parts.1@ == text@.skip(k),
{
    proof {
        lemma_prefix_boundary(text@, k);
        lemma_split(text@, k);
    }
    let parts = text.split_at(mid);
    proof {
        assert(parts.0.spec_bytes() =~= encode_utf8(text@.take(k)));
        assert(parts.1.spec_bytes() =~= encode_utf8(text@.skip(k)));
        lemma_encode_injective(parts.0@, text@.take(k));
        lemma_encode_injective(parts.1@, text@.skip(k));
    }
    parts
}

/// Whether two string slices hold the same text.
pub fn text_eq(a: &str, b: &str) -> (same: bool)
    ensures
        same == (a@ == b@),
{
    let left = a.as_bytes();
    let right = b.as_bytes();
    if left.len() != right.len() {
        return false;
    }
    let mut i: usize = 0;
    while i < left.len()
        invariant
            left@ == encode_utf8(a@),
            right@ == encode_utf8(b@),
            left@.len() == right@.len(),
            i <= left@.len(),
            forall|j: int| 0 <= j < i ==> left@[j] == right@[j],
        decreases left@.len() - i,
    {
        if left[i] != right[i] {
            return false;
        }
        i = i + 1;
    }
    proof {
        assert(left@ =~= right@);
        lemma_encode_injective(a@, b@);
    }
    true
}

/// The texts of strings are those of the strings one by one, and an optional string has a text
/// exactly when it is there.
pub proof fn texts_keep_their_strings(strings: Seq<String>, i: int, optional: Option<String>)
    ensures
        texts(strings).len() == strings.len(),
        0 <= i < strings.len() ==> texts(strings)[i] == strings[i]@,
        optional is None <==> optional_text(optional) is None,
        optional matches Some(text) ==> optional_text(optional) == Some(text@),
{
}

} // verus!
