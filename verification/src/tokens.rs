//! The rough size of a text in model tokens, estimated from its bytes.
use vstd::prelude::*;
use crate::utf8_text::byte_len;
use crate::utf8_text::utf8_len;

verus! {

/// How many bytes of text are taken for one token.
pub const APPROX_BYTES_PER_TOKEN: usize = 4;

/// The tokens that `text` is taken for: its bytes divided by the bytes of one token, rounded up.
/// A text too long for the rounding to be computed is taken for the largest count.
pub open spec fn token_count(text: Seq<char>) -> nat {
    if utf8_len(text) + (APPROX_BYTES_PER_TOKEN - 1) <= usize::MAX {
        ((utf8_len(text) + (APPROX_BYTES_PER_TOKEN - 1)) / (APPROX_BYTES_PER_TOKEN as int)) as nat
    } else {
        (usize::MAX / APPROX_BYTES_PER_TOKEN) as nat
    }
}

/// The bytes that stand for `tokens` tokens, as far as they can be counted.
pub open spec fn token_bytes(tokens: nat) -> nat {
    if tokens * APPROX_BYTES_PER_TOKEN <= usize::MAX {
        tokens * (APPROX_BYTES_PER_TOKEN as nat)
    } else {
        usize::MAX as nat
    }
}

/// Estimates how many tokens `text` takes.
pub fn approx_token_count(text: &str) -> (count: usize)
    ensures
        count as nat == token_count(text@),
        utf8_len(text@) + 3 <= usize::MAX ==> utf8_len(text@) <= 4 * count < utf8_len(text@) + 4,
        utf8_len(text@) + 3 > usize::MAX ==> count == usize::MAX / 4,
{
    byte_len(text).saturating_add(APPROX_BYTES_PER_TOKEN - 1) / APPROX_BYTES_PER_TOKEN
}

/// Estimates how many bytes `tokens` tokens take.
pub fn approx_bytes_for_tokens(tokens: usize) -> (bytes: usize)
    ensures
        bytes as nat == token_bytes(tokens as nat),
        4 * tokens <= usize::MAX ==> bytes == 4 * tokens,
        4 * tokens > usize::MAX ==> bytes == usize::MAX,
{
    match tokens.checked_mul(APPROX_BYTES_PER_TOKEN) {
        Some(bytes) => bytes,
        None => usize::MAX,
    }
}

/// A text of at most as many bytes as stand for `tokens` tokens is taken for at most `tokens`
/// tokens, and one of more bytes for more.
pub proof fn bytes_bound_tokens(text: Seq<char>, tokens: nat)
    requires
        tokens * APPROX_BYTES_PER_TOKEN + APPROX_BYTES_PER_TOKEN <= usize::MAX,
    ensures
        token_count(text) <= tokens <==> utf8_len(text) <= token_bytes(tokens),
{
}

/// Tokens are counted as bytes divided by four, rounded up, as far as that can be computed.
pub proof fn tokens_are_bytes_by_four(text: Seq<char>)
    ensures
        utf8_len(text) + 3 <= usize::MAX ==> utf8_len(text) <= 4 * token_count(text) < utf8_len(text)
            + 4,
{
}

} // verus!
