//! What holds of every buffer: the spans account for every byte, plain text
//! decodes to itself, and a written-out escape decodes as the escape byte.

use vstd::prelude::*;
use crate::ansi::ElementView;
use crate::grammar::{
    decoded, expand_from, expanded, is_literal_escape, is_text_byte, lemma_span_bounds,
    lemma_text_end_run, span_at, spans_from, total_len, BACKSLASH, ESC,
};
use crate::text::{byte_char, text_of};

verus! {

/// The spans from `i` on take up what is left of the buffer.
pub proof fn lemma_spans_cover_from(buf: Seq<u8>, i: int)
    requires
        0 <= i <= buf.len(),
    ensures
        total_len(spans_from(buf, i)) == buf.len() - i,
    decreases buf.len() - i,
{
    if i < buf.len() {
        lemma_span_bounds(buf, i);
        let head = span_at(buf, i);
        let tail = spans_from(buf, i + head.len);
        lemma_spans_cover_from(buf, i + head.len);
        assert((seq![head] + tail).drop_first() =~= tail);
    }
}

/// Every span from `i` on takes at least one byte.
pub proof fn lemma_spans_positive(buf: Seq<u8>, i: int)
    requires
        0 <= i <= buf.len(),
    ensures
        forall|k: int|
            0 <= k < spans_from(buf, i).len() ==> (#[trigger] spans_from(buf, i)[k]).len >= 1,
    decreases buf.len() - i,
{
    if i < buf.len() {
        lemma_span_bounds(buf, i);
        let head = span_at(buf, i);
        lemma_spans_positive(buf, i + head.len);
        let tail = spans_from(buf, i + head.len);
        assert forall|k: int| 0 <= k < spans_from(buf, i).len() implies (#[trigger] spans_from(
            buf,
            i,
        )[k]).len >= 1 by {
            if k > 0 {
                assert(spans_from(buf, i)[k] == tail[k - 1]);
            }
        }
    }
}

/// Every byte is accounted for. The elements that a buffer decodes to are
/// those of its spans, one for one; each span takes at least one byte; and
/// together the spans take exactly as many bytes as the buffer holds once
/// its written-out escapes are replaced.
pub proof fn lemma_spans_cover(input: Seq<u8>)
    ensures
        decoded(input).len() == spans_from(expanded(input), 0).len(),
        forall|k: int|
            0 <= k < decoded(input).len() ==> decoded(input)[k] == (#[trigger] spans_from(
                expanded(input),
                0,
            )[k]).element,
        forall|k: int|
            0 <= k < spans_from(expanded(input), 0).len() ==> (#[trigger] spans_from(
                expanded(input),
                0,
            )[k]).len >= 1,
        total_len(spans_from(expanded(input), 0)) == expanded(input).len(),
{
    let buf = expanded(input);
    lemma_spans_cover_from(buf, 0);
    lemma_spans_positive(buf, 0);
}

/// A buffer that holds no written-out escape from `i` on is left as it is.
pub proof fn lemma_expand_unchanged(buf: Seq<u8>, i: int)
    requires
        0 <= i <= buf.len(),
        forall|k: int| i <= k < buf.len() ==> !is_literal_escape(buf, k),
    ensures
        expand_from(buf, i) == buf.skip(i),
    decreases buf.len() - i,
{
    if i < buf.len() {
        lemma_expand_unchanged(buf, i + 1);
        assert(seq![buf[i]] + buf.skip(i + 1) =~= buf.skip(i));
    } else {
        assert(buf.skip(i) =~= Seq::<u8>::empty());
    }
}

/// Plain text decodes to itself: a buffer without control bytes and without
/// written-out escapes decodes to one text element that holds the buffer,
/// byte for character, and to no element where it is empty.
pub proof fn lemma_plain_text(input: Seq<u8>)
    requires
        forall|k: int| 0 <= k < input.len() ==> is_text_byte(#[trigger] input[k]),
        forall|k: int| 0 <= k < input.len() ==> !is_literal_escape(input, k),
    ensures
        decoded(input) == if input.len() == 0 {
            Seq::<ElementView>::empty()
        } else {
            seq![ElementView::Text(text_of(input))]
        },
{
    lemma_expand_unchanged(input, 0);
    assert(input.skip(0) =~= input);
    if input.len() == 0 {
        assert(decoded(input) =~= Seq::<ElementView>::empty());
    } else {
        lemma_text_end_run(input, 0, input.len() as int);
        assert(input.subrange(0, input.len() as int) =~= input);
        assert(spans_from(input, input.len() as int) =~= Seq::empty());
        assert(decoded(input) =~= seq![ElementView::Text(text_of(input))]);
    }
}

/// Expansion reads a tail of the buffer without regard to what stands
/// before it.
pub proof fn lemma_expand_tail(head: Seq<u8>, tail: Seq<u8>, k: int)
    requires
        0 <= k <= tail.len(),
    ensures
        expand_from(head + tail, head.len() + k) == expand_from(tail, k),
    decreases tail.len() - k,
{
    let whole = head + tail;
    if k < tail.len() {
        assert(whole[head.len() + k] == tail[k]);
        if k + 1 < tail.len() {
            assert(whole[head.len() + k + 1] == tail[k + 1]);
        }
        assert(is_literal_escape(whole, head.len() + k) == is_literal_escape(tail, k));
        if is_literal_escape(tail, k) {
            lemma_expand_tail(head, tail, k + 2);
        } else {
            lemma_expand_tail(head, tail, k + 1);
        }
    }
}

/// Up to a written-out escape, expansion goes the same way whether the
/// escape is written out or stands as the escape byte.
proof fn lemma_expand_same_head(head: Seq<u8>, letter: u8, tail: Seq<u8>, i: int)
    requires
        byte_char(letter) == 'e' || byte_char(letter) == 'E',
        0 <= i <= head.len(),
    ensures
        expand_from(head + seq![BACKSLASH, letter] + tail, i) == expand_from(
            head + seq![ESC] + tail,
            i,
        ),
    decreases head.len() - i,
{
    let written = head + seq![BACKSLASH, letter] + tail;
    let byte = head + seq![ESC] + tail;
    if i < head.len() {
        assert(written[i] == head[i] && byte[i] == head[i]);
        if i + 1 < head.len() {
            assert(written[i + 1] == head[i + 1] && byte[i + 1] == head[i + 1]);
            if is_literal_escape(written, i) {
                lemma_expand_same_head(head, letter, tail, i + 2);
            } else {
                lemma_expand_same_head(head, letter, tail, i + 1);
            }
        } else {
            assert(written[i + 1] == BACKSLASH);
            assert(byte[i + 1] == ESC);
            lemma_expand_same_head(head, letter, tail, i + 1);
        }
    } else {
        assert(written[i] == BACKSLASH && written[i + 1] == letter);
        assert(byte[i] == ESC);
        assert(is_literal_escape(written, i));
        assert(!is_literal_escape(byte, i));
        lemma_expand_tail(head + seq![BACKSLASH, letter], tail, 0);
        lemma_expand_tail(head + seq![ESC], tail, 0);
    }
}

/// A written-out escape decodes as the escape byte does: a backslash with
/// `e` or `E` behind it, wherever it stands in a buffer, can be exchanged for
/// the escape byte without a change in what the buffer decodes to.
pub proof fn lemma_literal_escape_decodes_as_escape(head: Seq<u8>, letter: u8, tail: Seq<u8>)
    requires
        byte_char(letter) == 'e' || byte_char(letter) == 'E',
    ensures
        expanded(head + seq![BACKSLASH, letter] + tail) == expanded(head + seq![ESC] + tail),
        decoded(head + seq![BACKSLASH, letter] + tail) == decoded(head + seq![ESC] + tail),
{
    lemma_expand_same_head(head, letter, tail, 0);
}

} // verus!
