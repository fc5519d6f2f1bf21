//! Cuts the body of the skills context into fragments of a bounded size.
use vstd::prelude::*;
use vstd::string::*;
use vstd::utf8::*;
use crate::tokens::approx_bytes_for_tokens;
use crate::tokens::approx_token_count;
use crate::tokens::bytes_bound_tokens;
use crate::tokens::token_bytes;
use crate::tokens::token_count;
use crate::utf8_text::byte_len;
use crate::utf8_text::char_width;
use crate::utf8_text::lemma_encode_concat;
use crate::utf8_text::lemma_len_zero;
use crate::utf8_text::lemma_prefix_monotone;
use crate::utf8_text::lemma_prefix_step;
use crate::utf8_text::split_chars;
use crate::utf8_text::texts;
use crate::utf8_text::utf8_len;

verus! {

/// The marker in front of every skills context fragment.
pub const SKILLS_INSTRUCTIONS_OPEN_TAG: &'static str = "<skills_instructions>";

/// The marker behind every skills context fragment.
pub const SKILLS_INSTRUCTIONS_CLOSE_TAG: &'static str = "</skills_instructions>";

/// The most tokens that one skills context fragment may take, its markers included.
pub const MAX_SKILLS_CONTEXT_FRAGMENT_TOKENS: usize = 9_000;

/// A body between the two markers.
pub open spec fn enclosed(body: Seq<char>) -> Seq<char> {
    SKILLS_INSTRUCTIONS_OPEN_TAG@ + body + SKILLS_INSTRUCTIONS_CLOSE_TAG@
}

/// Whether a body makes a fragment of allowed size.
pub open spec fn fits(body: Seq<char>) -> bool {
    token_count(enclosed(body)) <= MAX_SKILLS_CONTEXT_FRAGMENT_TOKENS
}

/// The bytes that the markers leave for a body.
pub open spec fn body_limit() -> nat {
    (token_bytes(MAX_SKILLS_CONTEXT_FRAGMENT_TOKENS as nat) - (utf8_len(
        SKILLS_INSTRUCTIONS_OPEN_TAG@,
    ) + utf8_len(SKILLS_INSTRUCTIONS_CLOSE_TAG@))) as nat
}

/// Where the line that holds position `k` ends, its line feed included.
pub open spec fn line_end(text: Seq<char>, k: int) -> int
    decreases text.len() - k,
{
    if k >= text.len() {
        text.len() as int
    } else if text[k] == '\n' {
        k + 1
    } else {
        line_end(text, k + 1)
    }
}

/// The lines of a text, each with its line feed.
pub open spec fn lines(text: Seq<char>) -> Seq<Seq<char>>
    decreases text.len(),
{
    if text.len() == 0 {
        Seq::empty()
    } else {
        let end = line_end(text, 0);
        proof {
            lemma_line_end(text, 0);
        }
        seq![text.take(end)] + lines(text.skip(end))
    }
}

/// The largest number of characters, `k` or more, that take at most `limit` bytes.
pub open spec fn longest_prefix(text: Seq<char>, k: int, limit: nat) -> int
    decreases text.len() - k,
{
    if k < text.len() && utf8_len(text.take(k + 1)) <= limit {
        longest_prefix(text, k + 1, limit)
    } else {
        k
    }
}

/// Where a line that does not fit is cut: behind as many characters as fit.
pub open spec fn cut(line: Seq<char>) -> int {
    longest_prefix(line, 0, body_limit())
}

/// The bodies of full size that are cut off the front of a line until the rest fits.
pub open spec fn full_parts(line: Seq<char>) -> Seq<Seq<char>>
    decreases line.len(),
{
    if fits(line) {
        Seq::empty()
    } else {
        proof {
            lemma_cut(line);
        }
        seq![line.take(cut(line))] + full_parts(line.skip(cut(line)))
    }
}

/// What is left of a line once its full parts are cut off.
pub open spec fn last_part(line: Seq<char>) -> Seq<char>
    decreases line.len(),
{
    if fits(line) {
        line
    } else {
        proof {
            lemma_cut(line);
        }
        last_part(line.skip(cut(line)))
    }
}

/// Gathers lines into bodies: a line joins the body at hand unless the two together do not fit,
/// in which case a new body begins with it.
pub open spec fn packed(lines: Seq<Seq<char>>, current: Seq<char>) -> Seq<Seq<char>>
    decreases lines.len(),
{
    if lines.len() == 0 {
        if current.len() == 0 {
            Seq::empty()
        } else {
            seq![current]
        }
    } else {
        let line = lines[0];
        if current.len() != 0 && !fits(current + line) {
            seq![current] + full_parts(line) + packed(lines.drop_first(), last_part(line))
        } else {
            full_parts(line) + packed(lines.drop_first(), current + last_part(line))
        }
    }
}

/// The bodies of the fragments that stand for `body`.
pub open spec fn chunk_bodies(body: Seq<char>) -> Seq<Seq<char>> {
    if fits(body) {
        seq![body]
    } else {
        packed(lines(body), Seq::empty())
    }
}

/// Each of a sequence of bodies between the two markers.
pub open spec fn all_enclosed(bodies: Seq<Seq<char>>) -> Seq<Seq<char>> {
    Seq::new(bodies.len(), |i: int| enclosed(bodies[i]))
}

/// All texts of a sequence one behind the other.
pub open spec fn joined(parts: Seq<Seq<char>>) -> Seq<char>
    decreases parts.len(),
{
    if parts.len() == 0 {
        Seq::empty()
    } else {
        parts[0] + joined(parts.drop_first())
    }
}

proof fn lemma_markers()
    ensures
        utf8_len(SKILLS_INSTRUCTIONS_OPEN_TAG@) == 21,
        utf8_len(SKILLS_INSTRUCTIONS_CLOSE_TAG@) == 22,
        token_bytes(MAX_SKILLS_CONTEXT_FRAGMENT_TOKENS as nat) == 36000,
        body_limit() == 35957,
{
    reveal_strlit("<skills_instructions>");
    reveal_strlit("</skills_instructions>");
    is_ascii_chars_encode_utf8(SKILLS_INSTRUCTIONS_OPEN_TAG@);
    is_ascii_chars_encode_utf8(SKILLS_INSTRUCTIONS_CLOSE_TAG@);
}

/// A body fits exactly when the markers leave room for its bytes.
pub proof fn fits_by_bytes(body: Seq<char>)
    ensures
        fits(body) <==> utf8_len(body) <= body_limit(),
{
    lemma_markers();
    lemma_encode_concat(SKILLS_INSTRUCTIONS_OPEN_TAG@, body);
    lemma_encode_concat(SKILLS_INSTRUCTIONS_OPEN_TAG@ + body, SKILLS_INSTRUCTIONS_CLOSE_TAG@);
    bytes_bound_tokens(enclosed(body), MAX_SKILLS_CONTEXT_FRAGMENT_TOKENS as nat);
}

/// A line is not empty and ends inside the text.
pub proof fn lemma_line_end(text: Seq<char>, k: int)
    requires
        0 <= k < text.len(),
    ensures
        k < line_end(text, k) <= text.len(),
    decreases text.len() - k,
{
    reveal_with_fuel(line_end, 2);
    if text[k] != '\n' && k + 1 < text.len() {
        lemma_line_end(text, k + 1);
    }
}

/// A prefix found by [`longest_prefix`] keeps to the limit, and one more character would not.
pub proof fn longest_prefix_is_longest(text: Seq<char>, k: int, limit: nat)
    requires
        0 <= k <= text.len(),
        utf8_len(text.take(k)) <= limit,
    ensures
        ({
            let n = longest_prefix(text, k, limit);
            &&& k <= n <= text.len()
            &&& utf8_len(text.take(n)) <= limit
            &&& n < text.len() ==> utf8_len(text.take(n + 1)) > limit
        }),
    decreases text.len() - k,
{
    if k < text.len() && utf8_len(text.take(k + 1)) <= limit {
        longest_prefix_is_longest(text, k + 1, limit);
    }
}

/// A line that does not fit is cut inside: neither side of the cut is empty, and the front fits.
pub proof fn lemma_cut(line: Seq<char>)
    requires
        !fits(line),
    ensures
        0 < cut(line) < line.len(),
        fits(line.take(cut(line))),
{
    lemma_markers();
    fits_by_bytes(line);
    lemma_len_zero(line);
    lemma_len_zero(line.take(0));
    lemma_prefix_step(line, 0);
    longest_prefix_is_longest(line, 0, body_limit());
    assert(line.take(line.len() as int) =~= line);
    fits_by_bytes(line.take(cut(line)));
}

/// The lines of a text, one behind the other, are the text.
pub proof fn lines_join_to_text(text: Seq<char>)
    ensures
        joined(lines(text)) == text,
    decreases text.len(),
{
    if text.len() > 0 {
        let end = line_end(text, 0);
        lemma_line_end(text, 0);
        lines_join_to_text(text.skip(end));
        assert(lines(text).drop_first() =~= lines(text.skip(end)));
        assert(text =~= text.take(end) + text.skip(end));
    }
}

proof fn lemma_joined_concat(a: Seq<Seq<char>>, b: Seq<Seq<char>>)
    ensures
        joined(a + b) == joined(a) + joined(b),
    decreases a.len(),
{
    if a.len() == 0 {
        assert(a + b =~= b);
        assert(joined(a) + joined(b) =~= joined(b));
    } else {
        assert((a + b).drop_first() =~= a.drop_first() + b);
        lemma_joined_concat(a.drop_first(), b);
        assert(joined(a + b) =~= joined(a) + joined(b));
    }
}

proof fn lemma_joined_one(part: Seq<char>)
    ensures
        joined(seq![part]) == part,
{
    reveal_with_fuel(joined, 2);
    assert(seq![part].drop_first() =~= Seq::<Seq<char>>::empty());
    assert(part + Seq::<char>::empty() =~= part);
}

/// The parts of a line, one behind the other, are the line; each full part fits and holds a
/// character, and the rest fits.
proof fn lemma_parts(line: Seq<char>)
    ensures
        joined(full_parts(line)) + last_part(line) == line,
        forall|i: int| 0 <= i < full_parts(line).len() ==> fits(#[trigger] full_parts(line)[i]),
        forall|i: int| 0 <= i < full_parts(line).len() ==> (#[trigger] full_parts(line)[i]).len() > 0,
        fits(last_part(line)),
        line.len() > 0 ==> last_part(line).len() > 0,
    decreases line.len(),
{
    if fits(line) {
        assert(joined(full_parts(line)) + last_part(line) =~= line);
    } else {
        lemma_cut(line);
        let k = cut(line);
        let rest = line.skip(k);
        lemma_parts(rest);
        lemma_joined_one(line.take(k));
        lemma_joined_concat(seq![line.take(k)], full_parts(rest));
        assert(joined(full_parts(line)) + last_part(line) =~= line.take(k) + (joined(
            full_parts(rest),
        ) + last_part(rest)));
        assert(line =~= line.take(k) + rest);
        assert forall|i: int| 0 <= i < full_parts(line).len() implies fits(
            #[trigger] full_parts(line)[i],
        ) && full_parts(line)[i].len() > 0 by {
            if i > 0 {
                assert(full_parts(line)[i] == full_parts(rest)[i - 1]);
            }
        }
    }
}

proof fn lemma_packed(lines: Seq<Seq<char>>, current: Seq<char>)
    requires
        fits(current),
    ensures
        joined(packed(lines, current)) == current + joined(lines),
        forall|i: int|
            0 <= i < packed(lines, current).len() ==> fits(#[trigger] packed(lines, current)[i]),
        forall|i: int|
            0 <= i < packed(lines, current).len() ==> (#[trigger] packed(lines, current)[i]).len()
                > 0,
    decreases lines.len(),
{
    let whole = packed(lines, current);
    if lines.len() == 0 {
        if current.len() == 0 {
            assert(joined(whole) =~= current + joined(lines));
        } else {
            lemma_joined_one(current);
            assert(current + joined(lines) =~= current);
        }
    } else {
        let line = lines[0];
        let tail = lines.drop_first();
        lemma_parts(line);
        if current.len() != 0 && !fits(current + line) {
            lemma_packed(tail, last_part(line));
            let head = seq![current] + full_parts(line);
            let end = packed(tail, last_part(line));
            lemma_joined_one(current);
            lemma_joined_concat(seq![current], full_parts(line));
            lemma_joined_concat(head, end);
            assert(joined(whole) =~= current + ((joined(full_parts(line)) + last_part(line))
                + joined(tail)));
            assert forall|i: int| 0 <= i < whole.len() implies fits(#[trigger] whole[i])
                && whole[i].len() > 0 by {
                if 0 < i < head.len() {
                    assert(whole[i] == full_parts(line)[i - 1]);
                } else if i >= head.len() {
                    assert(whole[i] == end[i - head.len()]);
                }
            }
        } else {
            assert(fits(current + last_part(line)) && current + joined(full_parts(line))
                + last_part(line) == current + line && (current.len() == 0 || full_parts(line).len()
                == 0)) by {
                lemma_encode_concat(current, line);
                fits_by_bytes(current + line);
                fits_by_bytes(line);
                assert(current + joined(full_parts(line)) + last_part(line) =~= current + (joined(
                    full_parts(line),
                ) + last_part(line)));
                if current.len() == 0 {
                    assert(current + last_part(line) =~= last_part(line));
                }
            }
            let next = current + last_part(line);
            let end = packed(tail, next);
            lemma_packed(tail, next);
            lemma_joined_concat(full_parts(line), end);
            if current.len() == 0 {
                assert(next =~= last_part(line));
                assert(joined(whole) =~= current + ((joined(full_parts(line)) + last_part(line))
                    + joined(tail)));
            } else {
                assert(joined(full_parts(line)) =~= Seq::<char>::empty());
                assert(last_part(line) =~= line);
                assert(joined(whole) =~= current + (line + joined(tail)));
            }
            assert forall|i: int| 0 <= i < whole.len() implies fits(#[trigger] whole[i])
                && whole[i].len() > 0 by {
                if i < full_parts(line).len() {
                    assert(whole[i] == full_parts(line)[i]);
                } else {
                    assert(whole[i] == end[i - full_parts(line).len()]);
                }
            }
        }
    }
}

/// The bodies of the fragments, one behind the other, are the body: nothing is lost, added or
/// reordered.
pub proof fn chunks_preserve_body(body: Seq<char>)
    ensures
        joined(chunk_bodies(body)) == body,
{
    if fits(body) {
        lemma_joined_one(body);
    } else {
        lemma_empty_fits();
        lemma_packed(lines(body), Seq::empty());
        lines_join_to_text(body);
        assert(Seq::<char>::empty() + joined(lines(body)) =~= body);
    }
}

/// No fragment takes more tokens than a skills context fragment may take.
pub proof fn chunks_stay_bounded(body: Seq<char>, i: int)
    requires
        0 <= i < chunk_bodies(body).len(),
    ensures
        token_count(all_enclosed(chunk_bodies(body))[i]) <= MAX_SKILLS_CONTEXT_FRAGMENT_TOKENS,
{
    if !fits(body) {
        lemma_empty_fits();
        lemma_packed(lines(body), Seq::empty());
    }
    assert(fits(chunk_bodies(body)[i]));
}

/// There is always a fragment, one alone exactly when the whole body fits into it, and none is
/// empty unless the body is.
pub proof fn chunks_are_needed(body: Seq<char>)
    ensures
        chunk_bodies(body).len() >= 1,
        chunk_bodies(body).len() == 1 <==> fits(body),
        body.len() > 0 ==> forall|i: int|
            0 <= i < chunk_bodies(body).len() ==> (#[trigger] chunk_bodies(body)[i]).len() > 0,
{
    if !fits(body) {
        let bodies = chunk_bodies(body);
        chunks_preserve_body(body);
        lemma_empty_fits();
        lemma_packed(lines(body), Seq::empty());
        if bodies.len() == 0 {
            assert(body =~= Seq::<char>::empty());
        } else if bodies.len() == 1 {
            assert(bodies =~= seq![bodies[0]]);
            lemma_joined_one(bodies[0]);
        }
    }
}

proof fn lemma_empty_fits()
    ensures
        fits(Seq::empty()),
{
    lemma_markers();
    lemma_len_zero(Seq::empty());
    fits_by_bytes(Seq::empty());
}

proof fn lemma_texts_push(strings: Seq<String>, bodies: Seq<Seq<char>>, body: Seq<char>)
    requires
        strings.len() > 0,
        texts(strings.drop_last()) == all_enclosed(bodies),
        strings.last()@ == enclosed(body),
    ensures
        texts(strings) == all_enclosed(bodies.push(body)),
{
    let front = strings.drop_last();
    assert(front.len() == strings.len() - 1);
    assert(texts(front).len() == front.len());
    assert(all_enclosed(bodies).len() == bodies.len());
    assert forall|i: int| 0 <= i < strings.len() implies texts(strings)[i] == all_enclosed(
        bodies.push(body),
    )[i] by {
        if i < bodies.len() {
            assert(texts(front)[i] == all_enclosed(bodies)[i]);
            assert(front[i] == strings[i]);
        }
    }
    assert(texts(strings) =~= all_enclosed(bodies.push(body)));
}

proof fn lemma_chunk_texts(strings: Seq<String>, bodies: Seq<Seq<char>>)
    requires
        texts(strings) == all_enclosed(bodies),
    ensures
        strings.len() == bodies.len(),
        forall|i: int|
            0 <= i < strings.len() ==> (#[trigger] strings[i])@ == "<skills_instructions>"@
                + bodies[i] + "</skills_instructions>"@,
{
    assert(texts(strings).len() == strings.len());
    assert(all_enclosed(bodies).len() == bodies.len());
    assert forall|i: int| 0 <= i < strings.len() implies (#[trigger] strings[i])@
        == "<skills_instructions>"@ + bodies[i] + "</skills_instructions>"@ by {
        assert(texts(strings)[i] == all_enclosed(bodies)[i]);
    }
}

/// What stands between the markers of a fragment.
pub open spec fn stripped(chunk: Seq<char>) -> Seq<char> {
    chunk.subrange(
        SKILLS_INSTRUCTIONS_OPEN_TAG@.len() as int,
        chunk.len() - SKILLS_INSTRUCTIONS_CLOSE_TAG@.len(),
    )
}

/// Taking the markers off the fragments and joining what is left gives back the body.
pub proof fn stripped_chunks_join_to_body(body: Seq<char>)
    ensures
        joined(
            Seq::new(
                chunk_bodies(body).len(),
                |i: int| stripped(all_enclosed(chunk_bodies(body))[i]),
            ),
        ) == body,
{
    let bodies = chunk_bodies(body);
    assert forall|i: int| 0 <= i < bodies.len() implies stripped(all_enclosed(bodies)[i])
        == bodies[i] by {
        assert(stripped(enclosed(bodies[i])) =~= bodies[i]);
    }
    assert(Seq::new(bodies.len(), |i: int| stripped(all_enclosed(bodies)[i])) =~= bodies);
    chunks_preserve_body(body);
}

/// Whether a text is empty or its last line is complete.
pub open spec fn ends_line(text: Seq<char>) -> bool {
    text.len() == 0 || text.last() == '\n'
}

proof fn lemma_line_is_complete(text: Seq<char>, k: int)
    requires
        0 <= k < text.len(),
        line_end(text, k) < text.len(),
    ensures
        text[line_end(text, k) - 1] == '\n',
    decreases text.len() - k,
{
    if text[k] != '\n' {
        if k + 1 < text.len() {
            lemma_line_is_complete(text, k + 1);
        } else {
            reveal_with_fuel(line_end, 2);
        }
    }
}

proof fn lemma_lines_are_complete(text: Seq<char>)
    ensures
        forall|i: int| 0 <= i < lines(text).len() - 1 ==> ends_line(#[trigger] lines(text)[i]),
        forall|i: int| 0 <= i < lines(text).len() ==> (#[trigger] lines(text)[i]).len() > 0,
    decreases text.len(),
{
    if text.len() > 0 {
        let end = line_end(text, 0);
        lemma_line_end(text, 0);
        let later = lines(text.skip(end));
        lemma_lines_are_complete(text.skip(end));
        assert forall|i: int| 0 <= i < lines(text).len() implies (#[trigger] lines(text)[i]).len()
            > 0 && (i < lines(text).len() - 1 ==> ends_line(lines(text)[i])) by {
            if i == 0 {
                if end < text.len() {
                    lemma_line_is_complete(text, 0);
                }
            } else {
                assert(lines(text)[i] == later[i - 1]);
            }
        }
    }
}

/// Where the part with index `k` begins once all parts are joined.
pub open spec fn offset(parts: Seq<Seq<char>>, k: int) -> int {
    joined(parts.take(k)).len() as int
}

/// Whether a body that ends at `end` is cut off in front of the line that begins at `start`: the
/// body ends with a whole line, and the next line as a whole does not fit behind it.
pub open spec fn cut_between(body: Seq<char>, end: int, line: Seq<char>, start: int) -> bool {
    end == start && body.len() > 0 && ends_line(body) && !fits(body + line)
}

/// Whether a body that ends at `end` is cut off inside the line that begins at `start`: the line
/// does not fit by itself, and the next character does not fit behind the body.
pub open spec fn cut_inside(body: Seq<char>, end: int, line: Seq<char>, start: int) -> bool {
    start < end < start + line.len() && !fits(line) && !fits(body.push(line[end - start]))
}

/// Whether the end of a body is forced by a line: as much was taken as the line allows.
pub open spec fn forced_cut(body: Seq<char>, end: int, line: Seq<char>, start: int) -> bool {
    cut_between(body, end, line, start) || cut_inside(body, end, line, start)
}

/// Whether some line, of lines that begin at `base`, forces the end of a body.
pub open spec fn forced_by_some(
    body: Seq<char>,
    end: int,
    lines: Seq<Seq<char>>,
    base: int,
) -> bool {
    exists|j: int|
        0 <= j < lines.len() && forced_cut(
            body,
            end,
            #[trigger] lines[j],
            base + offset(lines, j),
        )
}

proof fn lemma_offset_front(a: Seq<Seq<char>>, b: Seq<Seq<char>>, k: int)
    requires
        0 <= k <= a.len(),
    ensures
        offset(a + b, k) == offset(a, k),
{
    assert((a + b).take(k) =~= a.take(k));
}

proof fn lemma_offset_back(a: Seq<Seq<char>>, b: Seq<Seq<char>>, k: int)
    requires
        0 <= k <= b.len(),
    ensures
        offset(a + b, a.len() + k) == joined(a).len() + offset(b, k),
{
    assert((a + b).take(a.len() + k) =~= a + b.take(k));
    lemma_joined_concat(a, b.take(k));
}

proof fn lemma_offset_step(parts: Seq<Seq<char>>, k: int)
    requires
        0 <= k < parts.len(),
    ensures
        offset(parts, k + 1) == offset(parts, k) + parts[k].len(),
{
    assert(parts.take(k + 1) =~= parts.take(k) + seq![parts[k]]);
    lemma_joined_concat(parts.take(k), seq![parts[k]]);
    lemma_joined_one(parts[k]);
}

proof fn lemma_line_offset(lines: Seq<Seq<char>>, j: int)
    requires
        0 <= j < lines.len(),
    ensures
        offset(lines, 0) == 0,
        j > 0 ==> offset(lines, j) == lines[0].len() + offset(lines.drop_first(), j - 1),
{
    assert(lines.take(0) =~= Seq::<Seq<char>>::empty());
    if j > 0 {
        assert(seq![lines[0]] + lines.drop_first() =~= lines);
        lemma_offset_back(seq![lines[0]], lines.drop_first(), j - 1);
        lemma_joined_one(lines[0]);
    }
}

proof fn lemma_parts_are_cut_inside(line: Seq<char>, k: int)
    requires
        0 <= k < full_parts(line).len(),
    ensures
        cut_inside(full_parts(line)[k], offset(full_parts(line), k + 1), line, 0),
    decreases line.len(),
{
    lemma_cut(line);
    let n = cut(line);
    let rest = line.skip(n);
    let first = line.take(n);
    let later = full_parts(rest);
    let parts = full_parts(line);
    assert(parts == seq![first] + later);
    lemma_joined_one(first);
    if k == 0 {
        lemma_offset_back(seq![first], later, 0);
        assert(later.take(0) =~= Seq::<Seq<char>>::empty());
        lemma_len_zero(line.take(0));
        longest_prefix_is_longest(line, 0, body_limit());
        assert(first.push(line[n]) =~= line.take(n + 1));
        fits_by_bytes(line.take(n + 1));
    } else {
        lemma_parts_are_cut_inside(rest, k - 1);
        lemma_offset_back(seq![first], later, k);
        assert(rest[offset(later, k)] == line[offset(parts, k + 1)]);
    }
}

/// One line more in front, or bodies in front, shift all ends and all lines alike.
proof fn lemma_forced_by_later(
    body: Seq<char>,
    end: int,
    lines: Seq<Seq<char>>,
    base: int,
    shift: int,
    earlier_base: int,
)
    requires
        lines.len() > 0,
        forced_by_some(body, end, lines.drop_first(), base),
        base + shift == earlier_base + lines[0].len(),
    ensures
        forced_by_some(body, end + shift, lines, earlier_base),
{
    let tail = lines.drop_first();
    let j = choose|j: int|
        0 <= j < tail.len() && forced_cut(body, end, #[trigger] tail[j], base + offset(tail, j));
    lemma_line_offset(lines, j + 1);
    assert(lines[j + 1] == tail[j]);
    let start = earlier_base + offset(lines, j + 1);
    assert(start == base + offset(tail, j) + shift);
    assert(forced_cut(body, end + shift, lines[j + 1], start));
}

proof fn lemma_packed_cuts(lines: Seq<Seq<char>>, current: Seq<char>, i: int)
    requires
        forall|k: int| 0 <= k < lines.len() - 1 ==> ends_line(#[trigger] lines[k]),
        forall|k: int| 0 <= k < lines.len() ==> (#[trigger] lines[k]).len() > 0,
        lines.len() > 0 ==> ends_line(current),
        0 <= i < packed(lines, current).len() - 1,
    ensures
        forced_by_some(
            packed(lines, current)[i],
            offset(packed(lines, current), i + 1),
            lines,
            current.len() as int,
        ),
    decreases lines.len(),
{
    let whole = packed(lines, current);
    let base = current.len() as int;
    let line = lines[0];
    let tail = lines.drop_first();
    let parts = full_parts(line);
    let rest = last_part(line);
    assert(lines.len() > 0);
    assert forall|k: int| 0 <= k < tail.len() implies (#[trigger] tail[k]).len() > 0 && (k
        < tail.len() - 1 ==> ends_line(tail[k])) by {
        assert(tail[k] == lines[k + 1]);
    }
    lemma_parts(line);
    assert(rest.last() == line.last());
    if tail.len() > 0 {
        assert(ends_line(lines[0]));
    }
    lemma_line_offset(lines, 0);
    let flushed = current.len() != 0 && !fits(current + line);
    let front: Seq<Seq<char>> = if flushed {
        seq![current]
    } else {
        Seq::empty()
    };
    let next = if flushed {
        rest
    } else {
        current + rest
    };
    let end = packed(tail, next);
    let head = front + parts;
    assert(whole =~= head + end);
    lemma_joined_one(current);
    assert(joined(Seq::<Seq<char>>::empty()).len() == 0);
    lemma_joined_concat(front, parts);
    if i < front.len() {
        lemma_offset_front(front, parts + end, 1);
        assert(front + (parts + end) =~= whole);
        assert(front.take(1) =~= front);
        assert(cut_between(whole[i], offset(whole, i + 1), lines[0], base));
    } else if i < head.len() {
        let k = i - front.len();
        lemma_parts_are_cut_inside(line, k);
        lemma_offset_front(head, end, i + 1);
        lemma_offset_back(front, parts, k + 1);
        assert(whole[i] == parts[k]);
        if !flushed && current.len() != 0 {
            lemma_encode_concat(current, line);
            fits_by_bytes(current + line);
            fits_by_bytes(line);
        }
        assert(offset(whole, i + 1) == base + offset(parts, k + 1));
        assert(forced_cut(whole[i], offset(whole, i + 1), lines[0], base + offset(lines, 0)));
    } else {
        let k = i - head.len();
        lemma_packed_cuts(tail, next, k);
        lemma_offset_back(head, end, k + 1);
        assert(whole[i] == end[k]);
        lemma_forced_by_later(
            end[k],
            offset(end, k + 1),
            lines,
            next.len() as int,
            joined(head).len() as int,
            base,
        );
    }
}

proof fn lemma_packed_begins_long_lines(lines: Seq<Seq<char>>, current: Seq<char>, j: int) -> (i:
    int)
    requires
        0 <= j < lines.len(),
        !fits(lines[j]),
    ensures
        0 <= i < packed(lines, current).len(),
        offset(packed(lines, current), i) == current.len() + offset(lines, j),
    decreases lines.len(),
{
    let whole = packed(lines, current);
    let line = lines[0];
    let tail = lines.drop_first();
    let parts = full_parts(line);
    let rest = last_part(line);
    let flushed = current.len() != 0 && !fits(current + line);
    let front: Seq<Seq<char>> = if flushed {
        seq![current]
    } else {
        Seq::empty()
    };
    let next = if flushed {
        rest
    } else {
        current + rest
    };
    let end = packed(tail, next);
    let head = front + parts;
    assert(whole =~= head + end);
    lemma_parts(line);
    lemma_joined_one(current);
    assert(joined(Seq::<Seq<char>>::empty()).len() == 0);
    lemma_joined_concat(front, parts);
    lemma_line_offset(lines, j);
    if j == 0 {
        lemma_encode_concat(current, line);
        fits_by_bytes(current + line);
        fits_by_bytes(line);
        lemma_offset_front(front, parts + end, front.len() as int);
        assert(front + (parts + end) =~= whole);
        assert(front.take(front.len() as int) =~= front);
        front.len() as int
    } else {
        assert(tail[j - 1] == lines[j]);
        let k = lemma_packed_begins_long_lines(tail, next, j - 1);
        lemma_offset_back(head, end, k);
        head.len() + k
    }
}

proof fn lemma_part_fits(parts: Seq<Seq<char>>, j: int)
    requires
        0 <= j < parts.len(),
        fits(joined(parts)),
    ensures
        fits(parts[j]),
    decreases parts.len(),
{
    let later = parts.drop_first();
    lemma_encode_concat(parts[0], joined(later));
    fits_by_bytes(joined(parts));
    fits_by_bytes(joined(later));
    fits_by_bytes(parts[0]);
    if j > 0 {
        lemma_part_fits(later, j - 1);
    }
}

/// Every fragment but the last is filled as far as what follows allows: it ends with a whole line
/// and the next line does not fit behind it, or it ends inside a line that does not fit by itself
/// and the next character does not fit behind it.
pub proof fn fragments_are_filled(body: Seq<char>, i: int)
    requires
        0 <= i < chunk_bodies(body).len() - 1,
    ensures
        forced_by_some(
            chunk_bodies(body)[i],
            offset(chunk_bodies(body), i + 1),
            lines(body),
            0,
        ),
{
    lemma_lines_are_complete(body);
    lemma_packed_cuts(lines(body), Seq::empty(), i);
}

/// No line is cut that fits: every fragment but the last ends with a line feed, or strictly inside
/// a line that does not fit by itself.
pub proof fn lines_that_fit_stay_whole(body: Seq<char>, i: int)
    requires
        0 <= i < chunk_bodies(body).len() - 1,
    ensures
        ({
            let end = offset(chunk_bodies(body), i + 1);
            ||| chunk_bodies(body)[i].len() > 0 && chunk_bodies(body)[i].last() == '\n'
            ||| exists|j: int|
                0 <= j < lines(body).len() && !fits(#[trigger] lines(body)[j]) && offset(
                    lines(body),
                    j,
                ) < end < offset(lines(body), j + 1)
        }),
{
    fragments_are_filled(body, i);
    let end = offset(chunk_bodies(body), i + 1);
    let j = choose|j: int|
        0 <= j < lines(body).len() && forced_cut(
            chunk_bodies(body)[i],
            end,
            #[trigger] lines(body)[j],
            0 + offset(lines(body), j),
        );
    lemma_offset_step(lines(body), j);
}

/// A line that does not fit by itself begins a fragment.
pub proof fn long_lines_begin_fragments(body: Seq<char>, j: int)
    requires
        0 <= j < lines(body).len(),
        !fits(lines(body)[j]),
    ensures
        exists|i: int|
            0 <= i < chunk_bodies(body).len() && #[trigger] offset(chunk_bodies(body), i)
                == offset(lines(body), j),
{
    lines_join_to_text(body);
    if fits(body) {
        lemma_part_fits(lines(body), j);
    }
    let i = lemma_packed_begins_long_lines(lines(body), Seq::empty(), j);
    assert(offset(chunk_bodies(body), i) == offset(lines(body), j));
}

/// Whether every two neighbours of a sequence of bodies together take more bytes than there is room
/// for in one fragment, up to the three bytes that may be left free behind the last whole character.
pub open spec fn filled(bodies: Seq<Seq<char>>) -> bool {
    forall|i: int, j: int|
        0 <= i && j == i + 1 && j < bodies.len() ==> utf8_len(#[trigger] bodies[i]) + utf8_len(
            #[trigger] bodies[j],
        ) + 3 > body_limit()
}

proof fn lemma_full_parts_are_full(line: Seq<char>)
    ensures
        forall|i: int|
            0 <= i < full_parts(line).len() ==> utf8_len(#[trigger] full_parts(line)[i]) + 3
                >= body_limit(),
    decreases line.len(),
{
    if !fits(line) {
        lemma_markers();
        lemma_cut(line);
        let k = cut(line);
        let rest = line.skip(k);
        lemma_len_zero(line.take(0));
        longest_prefix_is_longest(line, 0, body_limit());
        lemma_prefix_step(line, k);
        lemma_full_parts_are_full(rest);
        assert forall|i: int| 0 <= i < full_parts(line).len() implies utf8_len(
            #[trigger] full_parts(line)[i],
        ) + 3 >= body_limit() by {
            if i > 0 {
                assert(full_parts(line)[i] == full_parts(rest)[i - 1]);
            }
        }
    }
}

proof fn lemma_packed_begins(lines: Seq<Seq<char>>, current: Seq<char>)
    requires
        current.len() > 0,
    ensures
        packed(lines, current).len() > 0,
        utf8_len(packed(lines, current)[0]) >= utf8_len(current),
    decreases lines.len(),
{
    if lines.len() > 0 {
        let line = lines[0];
        if fits(current + line) {
            lemma_encode_concat(current, line);
            fits_by_bytes(current + line);
            fits_by_bytes(line);
            lemma_packed_begins(lines.drop_first(), current + line);
            assert(packed(lines, current) =~= packed(lines.drop_first(), current + line));
        }
    }
}

proof fn lemma_filled_concat(a: Seq<Seq<char>>, b: Seq<Seq<char>>)
    requires
        filled(a),
        filled(b),
        a.len() > 0 && b.len() > 0 ==> utf8_len(a.last()) + utf8_len(b[0]) + 3 > body_limit(),
    ensures
        filled(a + b),
{
    assert forall|i: int, j: int| 0 <= i && j == i + 1 && j < (a + b).len() implies utf8_len(
        #[trigger] (a + b)[i],
    ) + utf8_len(#[trigger] (a + b)[j]) + 3 > body_limit() by {
        if j < a.len() {
            assert((a + b)[i] == a[i] && (a + b)[j] == a[j]);
        } else if i < a.len() {
            assert((a + b)[i] == a.last() && (a + b)[j] == b[0]);
        } else {
            assert((a + b)[i] == b[i - a.len()] && (a + b)[j] == b[j - a.len()]);
        }
    }
}

proof fn lemma_parts_are_filled(line: Seq<char>)
    ensures
        filled(full_parts(line)),
{
    lemma_parts(line);
    lemma_full_parts_are_full(line);
    let parts = full_parts(line);
    assert forall|i: int, j: int| 0 <= i && j == i + 1 && j < parts.len() implies utf8_len(
        #[trigger] parts[i],
    ) + utf8_len(#[trigger] parts[j]) + 3 > body_limit() by {
        lemma_len_zero(parts[j]);
    }
}

proof fn lemma_packed_is_filled(lines: Seq<Seq<char>>, current: Seq<char>)
    requires
        forall|i: int| 0 <= i < lines.len() ==> (#[trigger] lines[i]).len() > 0,
    ensures
        filled(packed(lines, current)),
    decreases lines.len(),
{
    if lines.len() > 0 {
        let line = lines[0];
        let tail = lines.drop_first();
        let parts = full_parts(line);
        let rest = last_part(line);
        assert forall|i: int| 0 <= i < tail.len() implies (#[trigger] tail[i]).len() > 0 by {
            assert(tail[i] == lines[i + 1]);
        }
        lemma_parts(line);
        lemma_parts_are_filled(line);
        lemma_full_parts_are_full(line);
        lemma_len_zero(rest);
        if current.len() != 0 && !fits(current + line) {
            let end = packed(tail, rest);
            lemma_packed_is_filled(tail, rest);
            lemma_packed_begins(tail, rest);
            lemma_len_zero(current);
            lemma_encode_concat(current, line);
            fits_by_bytes(current + line);
            lemma_filled_concat(seq![current], parts);
            lemma_filled_concat(seq![current] + parts, end);
        } else {
            let next = current + rest;
            lemma_packed_is_filled(tail, next);
            lemma_packed_begins(tail, next);
            lemma_encode_concat(current, rest);
            lemma_filled_concat(parts, packed(tail, next));
        }
    }
}

/// No fragment is wasted: any two neighbouring fragments hold more than one could, up to the three
/// bytes that a cut between characters may leave free.
pub proof fn neighbours_fill_a_fragment(body: Seq<char>)
    ensures
        filled(chunk_bodies(body)),
{
    if !fits(body) {
        lemma_lines_are_complete(body);
        lemma_packed_is_filled(lines(body), Seq::empty());
    }
}

/// Texts one behind the other are what flattening the sequence gives.
pub proof fn joined_is_flat(parts: Seq<Seq<char>>)
    ensures
        joined(parts) == parts.flatten(),
    decreases parts.len(),
{
    if parts.len() > 0 {
        joined_is_flat(parts.drop_first());
    }
}

/// A fragment is its body between the two markers, and a body fits exactly when it takes at most
/// 35,957 bytes, so that no more than 36,000 bytes are taken with the markers.
pub proof fn markers_take_their_bytes(bodies: Seq<Seq<char>>, i: int)
    requires
        0 <= i < bodies.len(),
    ensures
        all_enclosed(bodies).len() == bodies.len(),
        all_enclosed(bodies)[i] == "<skills_instructions>"@ + bodies[i]
            + "</skills_instructions>"@,
        encode_utf8(all_enclosed(bodies)[i]).len() == encode_utf8(bodies[i]).len() + 43,
        fits(bodies[i]) <==> encode_utf8(bodies[i]).len() <= 35957,
{
    lemma_markers();
    fits_by_bytes(bodies[i]);
    lemma_encode_concat(SKILLS_INSTRUCTIONS_OPEN_TAG@, bodies[i]);
    lemma_encode_concat(
        SKILLS_INSTRUCTIONS_OPEN_TAG@ + bodies[i],
        SKILLS_INSTRUCTIONS_CLOSE_TAG@,
    );
}

proof fn lemma_first_line_feed(text: Seq<char>, k: int)
    requires
        0 <= k < text.len(),
    ensures
        k < line_end(text, k) <= text.len(),
        line_end(text, k) < text.len() ==> text[line_end(text, k) - 1] == '\n',
        forall|j: int| k <= j < line_end(text, k) - 1 ==> #[trigger] text[j] != '\n',
    decreases text.len() - k,
{
    reveal_with_fuel(line_end, 2);
    if text[k] != '\n' && k + 1 < text.len() {
        lemma_first_line_feed(text, k + 1);
    }
}

/// The lines of a text make up the text; none is empty, each but the last ends with a line feed,
/// and no line holds a line feed anywhere but at its end.
pub proof fn lines_end_at_line_feeds(text: Seq<char>)
    ensures
        lines(text).flatten() == text,
        forall|i: int| 0 <= i < lines(text).len() ==> (#[trigger] lines(text)[i]).len() > 0,
        forall|i: int|
            0 <= i < lines(text).len() - 1 ==> (#[trigger] lines(text)[i]).last() == '\n',
        forall|i: int, j: int|
            0 <= i < lines(text).len() && 0 <= j < lines(text)[i].len() - 1
                ==> #[trigger] lines(text)[i][j] != '\n',
    decreases text.len(),
{
    lines_join_to_text(text);
    joined_is_flat(lines(text));
    if text.len() > 0 {
        let end = line_end(text, 0);
        lemma_first_line_feed(text, 0);
        let later = lines(text.skip(end));
        lines_end_at_line_feeds(text.skip(end));
        assert forall|i: int| 0 <= i < lines(text).len() implies (#[trigger] lines(text)[i]).len()
            > 0 && (i < lines(text).len() - 1 ==> lines(text)[i].last() == '\n') by {
            if i > 0 {
                assert(lines(text)[i] == later[i - 1]);
            }
        }
        assert forall|i: int, j: int|
            0 <= i < lines(text).len() && 0 <= j < lines(text)[i].len() - 1 implies #[trigger] lines(
            text,
        )[i][j] != '\n' by {
            if i > 0 {
                assert(lines(text)[i][j] == later[i - 1][j]);
            } else {
                assert(lines(text)[0][j] == text[j]);
            }
        }
    }
}

/// Whether the stretch of a text from `start` to `end` is one line, its line feed included.
pub open spec fn is_line(text: Seq<char>, start: int, end: int) -> bool {
    &&& 0 <= start < end <= text.len()
    &&& start == 0 || text[start - 1] == '\n'
    &&& end == text.len() || text[end - 1] == '\n'
    &&& forall|k: int| start <= k < end - 1 ==> #[trigger] text[k] != '\n'
}

proof fn lemma_line_at(text: Seq<char>, j: int)
    requires
        0 <= j < lines(text).len(),
    ensures
        is_line(text, offset(lines(text), j), offset(lines(text), j + 1)),
        text.subrange(offset(lines(text), j), offset(lines(text), j + 1)) == lines(text)[j],
{
    let all = lines(text);
    let start = offset(all, j);
    let end = offset(all, j + 1);
    lines_end_at_line_feeds(text);
    lines_join_to_text(text);
    lemma_offset_step(all, j);
    let back = all.skip(j + 1);
    assert(all =~= all.take(j) + (seq![all[j]] + back));
    lemma_joined_concat(all.take(j), seq![all[j]] + back);
    lemma_joined_concat(seq![all[j]], back);
    lemma_joined_one(all[j]);
    assert(text == joined(all.take(j)) + (all[j] + joined(back)));
    assert(text.subrange(start, end) =~= all[j]);
    assert forall|k: int| start <= k < end - 1 implies #[trigger] text[k] != '\n' by {
        assert(text[k] == all[j][k - start]);
    }
    if j > 0 {
        assert(all.take(j) =~= all.take(j - 1) + seq![all[j - 1]]);
        lemma_joined_concat(all.take(j - 1), seq![all[j - 1]]);
        lemma_joined_one(all[j - 1]);
        assert(all[j - 1].last() == '\n');
        assert(text[start - 1] == all[j - 1].last());
    } else {
        assert(all.take(0) =~= Seq::<Seq<char>>::empty());
    }
    if j + 1 < all.len() {
        assert(all[j].last() == '\n');
        assert(text[end - 1] == all[j].last());
    } else {
        assert(back =~= Seq::<Seq<char>>::empty());
    }
}

proof fn lemma_line_index(text: Seq<char>, start: int, end: int) -> (j: int)
    requires
        is_line(text, start, end),
    ensures
        0 <= j < lines(text).len(),
        offset(lines(text), j) == start,
        lines(text)[j] == text.subrange(start, end),
    decreases text.len(),
{
    let first = line_end(text, 0);
    lemma_first_line_feed(text, 0);
    let all = lines(text);
    if start == 0 {
        if end < first {
            assert(text[end - 1] != '\n');
        } else if first < end {
            assert(text[first - 1] == '\n');
        }
        lemma_line_offset(all, 0);
        assert(text.subrange(0, end) =~= text.take(first));
        0
    } else {
        assert(start >= first) by {
            if start < first {
                assert(text[start - 1] != '\n');
            }
        }
        let rest = text.skip(first);
        assert(is_line(rest, start - first, end - first)) by {
            if start > first {
                assert(rest[start - first - 1] == text[start - 1]);
            }
            assert(rest[end - first - 1] == text[end - 1]);
            assert forall|k: int| start - first <= k < end - first - 1 implies #[trigger] rest[k]
                != '\n' by {
                assert(rest[k] == text[k + first]);
            }
        }
        let k = lemma_line_index(rest, start - first, end - first);
        assert(all.drop_first() =~= lines(rest));
        lemma_line_offset(all, k + 1);
        assert(all[k + 1] == lines(rest)[k]);
        assert(rest.subrange(start - first, end - first) =~= text.subrange(start, end));
        k + 1
    }
}

/// The bodies of the fragments make up the body, and each takes at most 35,957 bytes; the body
/// stays in one fragment exactly when it takes no more itself.
pub proof fn fragments_make_up_the_body(body: Seq<char>)
    ensures
        chunk_bodies(body).flatten() == body,
        forall|i: int|
            0 <= i < chunk_bodies(body).len() ==> encode_utf8(
                #[trigger] chunk_bodies(body)[i],
            ).len() <= 35957,
        encode_utf8(body).len() <= 35957 <==> chunk_bodies(body) == seq![body],
        chunk_bodies(body).len() == 1 <==> chunk_bodies(body) == seq![body],
{
    lemma_markers();
    chunks_preserve_body(body);
    chunks_are_needed(body);
    joined_is_flat(chunk_bodies(body));
    fits_by_bytes(body);
    assert forall|i: int| 0 <= i < chunk_bodies(body).len() implies encode_utf8(
        #[trigger] chunk_bodies(body)[i],
    ).len() <= 35957 by {
        chunks_stay_bounded(body, i);
        assert(fits(chunk_bodies(body)[i]));
        fits_by_bytes(chunk_bodies(body)[i]);
    }
    if chunk_bodies(body).len() == 1 {
        assert(chunk_bodies(body) =~= seq![body]);
    }
}

/// Every fragment but the last ends where it must: with a line feed, when the whole next line of
/// the body would take it beyond 35,957 bytes, or inside a line of the body that takes more than
/// that by itself, when the next character would take it beyond.
pub proof fn fragments_end_where_they_must(body: Seq<char>, i: int)
    requires
        0 <= i < chunk_bodies(body).len() - 1,
    ensures
        ({
            let part = chunk_bodies(body)[i];
            let cut = chunk_bodies(body).take(i + 1).flatten().len() as int;
            exists|start: int, end: int| #[trigger]
                is_line(body, start, end) && ({
                    ||| cut == start && part.len() > 0 && part.last() == '\n' && encode_utf8(
                        part + body.subrange(start, end),
                    ).len() > 35957
                    ||| start < cut < end && encode_utf8(body.subrange(start, end)).len() > 35957
                        && encode_utf8(part.push(body[cut])).len() > 35957
                })
        }),
{
    lemma_markers();
    fragments_are_filled(body, i);
    let part = chunk_bodies(body)[i];
    let cut = offset(chunk_bodies(body), i + 1);
    joined_is_flat(chunk_bodies(body).take(i + 1));
    let all = lines(body);
    let j = choose|j: int|
        0 <= j < all.len() && forced_cut(part, cut, #[trigger] all[j], 0 + offset(all, j));
    lemma_line_at(body, j);
    lemma_offset_step(all, j);
    let start = offset(all, j);
    let end = offset(all, j + 1);
    fits_by_bytes(part + all[j]);
    fits_by_bytes(all[j]);
    if cut_inside(part, cut, all[j], start) {
        assert(all[j][cut - start] == body[cut]);
        fits_by_bytes(part.push(body[cut]));
    }
    assert(is_line(body, start, end));
}

/// A line of the body that takes more than 35,957 bytes begins a fragment.
pub proof fn overlong_lines_begin_fragments(body: Seq<char>, start: int, end: int)
    requires
        is_line(body, start, end),
        encode_utf8(body.subrange(start, end)).len() > 35957,
    ensures
        exists|i: int|
            0 <= i < chunk_bodies(body).len() && (#[trigger] chunk_bodies(body).take(
                i,
            )).flatten().len() == start,
{
    lemma_markers();
    let j = lemma_line_index(body, start, end);
    fits_by_bytes(lines(body)[j]);
    long_lines_begin_fragments(body, j);
    let i = choose|i: int|
        0 <= i < chunk_bodies(body).len() && #[trigger] offset(chunk_bodies(body), i) == offset(
            lines(body),
            j,
        );
    joined_is_flat(chunk_bodies(body).take(i));
    assert(chunk_bodies(body).take(i).flatten().len() == start);
}

/// Whenever a fragment but the last does not end with a line feed, the line of the body that it
/// ends in does not fit into a fragment.
pub proof fn only_overlong_lines_are_cut(body: Seq<char>, i: int, start: int, end: int)
    requires
        0 <= i < chunk_bodies(body).len() - 1,
        is_line(body, start, end),
        start < chunk_bodies(body).take(i + 1).flatten().len() < end,
    ensures
        encode_utf8(body.subrange(start, end)).len() > 35957,
{
    lemma_markers();
    lemma_lines_are_complete(body);
    fragments_are_filled(body, i);
    let part = chunk_bodies(body)[i];
    let cut = offset(chunk_bodies(body), i + 1);
    joined_is_flat(chunk_bodies(body).take(i + 1));
    let all = lines(body);
    let j = choose|j: int|
        0 <= j < all.len() && forced_cut(part, cut, #[trigger] all[j], 0 + offset(all, j));
    lemma_line_at(body, j);
    lemma_offset_step(all, j);
    fits_by_bytes(all[j]);
    let from = offset(all, j);
    let to = offset(all, j + 1);
    if cut == from {
        assert(body[from - 1] == '\n');
    } else {
        lemma_same_line(body, start, end, from, to, cut);
    }
}

proof fn lemma_same_line(text: Seq<char>, a: int, b: int, c: int, d: int, inside: int)
    requires
        is_line(text, a, b),
        is_line(text, c, d),
        a < inside < b,
        c < inside < d,
    ensures
        a == c,
        b == d,
{
    if a < c {
        assert(text[c - 1] == '\n');
    } else if c < a {
        assert(text[a - 1] == '\n');
    }
    if b < d {
        assert(text[b - 1] == '\n');
    } else if d < b {
        assert(text[d - 1] == '\n');
    }
}

/// Puts a body between the two markers.
pub fn render_chunk(body: &str) -> (chunk: String)
    ensures
        chunk@ == enclosed(body@),
        chunk@ == "<skills_instructions>"@ + body@ + "</skills_instructions>"@,
{
    let mut chunk = SKILLS_INSTRUCTIONS_OPEN_TAG.to_owned();
    chunk.append(body);
    chunk.append(SKILLS_INSTRUCTIONS_CLOSE_TAG);
    chunk
}

fn body_fits(body: &str) -> (yes: bool)
    ensures
        yes == fits(body@),
{
    approx_token_count(render_chunk(body).as_str()) <= MAX_SKILLS_CONTEXT_FRAGMENT_TOKENS
}

/// Cuts the first line off a text.
fn split_line<'a>(text: &'a str) -> (parts: (&'a str, &'a str))
    requires
        text@.len() > 0,
    ensures
        parts.0@ == text@.take(line_end(text@, 0)),
        parts.1@ == text@.skip(line_end(text@, 0)),
{
    let total: usize = byte_len(text);
    let mut end: usize = 0;
    let ghost mut k: int = 0;
    proof {
        lemma_len_zero(text@.take(0));
    }
    for c in it: text.chars()
        invariant
            it.seq() == text@,
            k == it.index(),
            end as nat == utf8_len(text@.take(k)),
            line_end(text@, 0) == line_end(text@, k),
            utf8_len(text@) == total as nat,
    {
        proof {
            lemma_prefix_step(text@, k);
            lemma_prefix_monotone(text@, k + 1, text@.len() as int);
            assert(text@.take(text@.len() as int) =~= text@);
        }
        end = end + char_width(c);
        if c == '\n' {
            return split_chars(text, end, Ghost(k + 1));
        }
        proof {
            k = k + 1;
        }
    }
    split_chars(text, end, Ghost(k))
}

/// Cuts a line that does not fit behind as many of its characters as fit.
fn split_full_part<'a>(line: &'a str) -> (parts: (&'a str, &'a str))
    requires
        !fits(line@),
    ensures
        parts.0@ == line@.take(cut(line@)),
        parts.1@ == line@.skip(cut(line@)),
{
    proof {
        lemma_markers();
        lemma_len_zero(line@.take(0));
    }
    let marker_bytes: usize = byte_len(SKILLS_INSTRUCTIONS_OPEN_TAG) + byte_len(
        SKILLS_INSTRUCTIONS_CLOSE_TAG,
    );
    let limit: usize = approx_bytes_for_tokens(MAX_SKILLS_CONTEXT_FRAGMENT_TOKENS).saturating_sub(
        marker_bytes,
    );
    let mut end: usize = 0;
    let ghost mut k: int = 0;
    for c in it: line.chars()
        invariant
            it.seq() == line@,
            k == it.index(),
            end as nat == utf8_len(line@.take(k)),
            limit as nat == body_limit(),
            body_limit() == 35957,
            end <= limit,
            cut(line@) == longest_prefix(line@, k, body_limit()),
    {
        proof {
            lemma_prefix_step(line@, k);
        }
        let next: usize = end.saturating_add(char_width(c));
        if next > limit {
            return split_chars(line, end, Ghost(k));
        }
        end = next;
        proof {
            k = k + 1;
        }
    }
    split_chars(line, end, Ghost(k))
}

/// Cuts `body` at line ends into fragments that each keep to the allowed size, and a line that is
/// too long for one fragment inside the line.
pub fn render_body_chunks(body: &str) -> (chunks: Vec<String>)
    ensures
        texts(chunks@) == all_enclosed(chunk_bodies(body@)),
        chunks@.len() == chunk_bodies(body@).len(),
        forall|i: int|
            0 <= i < chunks@.len() ==> (#[trigger] chunks@[i])@ == "<skills_instructions>"@
                + chunk_bodies(body@)[i] + "</skills_instructions>"@,
{
    let mut chunks: Vec<String> = Vec::new();
    if body_fits(body) {
        chunks.push(render_chunk(body));
        assert(texts(chunks@) =~= all_enclosed(chunk_bodies(body@)));
        proof {
            lemma_chunk_texts(chunks@, chunk_bodies(body@));
        }
        return chunks;
    }
    let ghost mut bodies: Seq<Seq<char>> = Seq::empty();
    let mut current = String::new();
    let mut rest: &str = body;
    assert(bodies + packed(lines(body@), Seq::empty()) =~= packed(lines(body@), Seq::empty()));
    while !rest.is_empty()
        invariant
            texts(chunks@) == all_enclosed(bodies),
            bodies + packed(lines(rest@), current@) == packed(lines(body@), Seq::empty()),
        decreases rest@.len(),
    {
        let ghost whole = packed(lines(rest@), current@);
        let ghost before = bodies;
        proof {
            lemma_line_end(rest@, 0);
        }
        let (line, tail) = split_line(rest);
        assert(lines(rest@)[0] == line@);
        assert(lines(rest@).drop_first() =~= lines(tail@));
        let mut candidate = current.clone();
        candidate.append(line);
        if !current.as_str().is_empty() && !body_fits(candidate.as_str()) {
            let ghost earlier = chunks@;
            chunks.push(render_chunk(current.as_str()));
            proof {
                assert(chunks@.drop_last() =~= earlier);
                lemma_texts_push(chunks@, bodies, current@);
                bodies = bodies.push(current@);
            }
            current = String::new();
        }
        let ghost flushed = bodies;
        let mut remaining: &str = line;
        assert(flushed + full_parts(line@) =~= bodies + full_parts(remaining@));
        while !body_fits(remaining)
            invariant
                texts(chunks@) == all_enclosed(bodies),
                bodies + full_parts(remaining@) == flushed + full_parts(line@),
                last_part(remaining@) == last_part(line@),
            decreases remaining@.len(),
        {
            proof {
                lemma_cut(remaining@);
            }
            let (prefix, suffix) = split_full_part(remaining);
            let ghost earlier = chunks@;
            chunks.push(render_chunk(prefix));
            proof {
                assert(chunks@.drop_last() =~= earlier);
                lemma_texts_push(chunks@, bodies, prefix@);
                bodies = bodies.push(prefix@);
                assert(bodies + full_parts(suffix@) =~= flushed + full_parts(line@));
            }
            remaining = suffix;
        }
        current.append(remaining);
        proof {
            assert(bodies =~= flushed + full_parts(line@));
            let later = packed(lines(tail@), current@);
            assert(before + whole =~= bodies + later) by {
                if flushed.len() > before.len() {
                    assert(current@ =~= last_part(line@));
                }
            }
        }
        rest = tail;
    }
    assert(lines(rest@) =~= Seq::<Seq<char>>::empty());
    if !current.as_str().is_empty() {
        let ghost earlier = chunks@;
        chunks.push(render_chunk(current.as_str()));
        proof {
            assert(chunks@.drop_last() =~= earlier);
            lemma_texts_push(chunks@, bodies, current@);
            bodies = bodies.push(current@);
        }
    }
    assert(bodies =~= chunk_bodies(body@));
    proof {
        lemma_chunk_texts(chunks@, bodies);
    }
    chunks
}

} // verus!
