//! What a byte stream means.
//!
//! The decoder's grammar as functions on sequences of bytes: the rewriting of
//! written-out escapes, the parameter fields of a CSI sequence, the command
//! that a final byte selects, and the division of a buffer into spans.

use vstd::prelude::*;
use crate::ansi::ElementView;
use crate::ansi::csi::CsiView;
use crate::ansi::ctrl::ControlCharacter;
use crate::text::{byte_char, decimals16, hex_pair, joined, semicolon, text_of};

verus! {

/// The escape byte.
pub const ESC: u8 = 0x1B;

/// The backslash, which opens a written-out escape.
pub const BACKSLASH: u8 = 0x5C;

/// Whether a backslash stands at `i` with the letter `e` or `E` behind it.
pub open spec fn is_literal_escape(buf: Seq<u8>, i: int) -> bool {
    &&& 0 <= i
    &&& i + 1 < buf.len()
    &&& buf[i] == BACKSLASH
    &&& (byte_char(buf[i + 1]) == 'e' || byte_char(buf[i + 1]) == 'E')
}

/// The bytes from `i` on, with every written-out escape, read from left to
/// right, replaced by the escape byte. No other byte changes.
pub open spec fn expand_from(buf: Seq<u8>, i: int) -> Seq<u8>
    decreases buf.len() - i,
{
    if i < 0 || i >= buf.len() {
        Seq::empty()
    } else if is_literal_escape(buf, i) {
        seq![ESC] + expand_from(buf, i + 2)
    } else {
        seq![buf[i]] + expand_from(buf, i + 1)
    }
}

/// The buffer with every written-out escape replaced by the escape byte.
pub open spec fn expanded(buf: Seq<u8>) -> Seq<u8> {
    expand_from(buf, 0)
}

/// An ASCII digit.
pub open spec fn is_digit(b: u8) -> bool {
    0x30 <= b <= 0x39
}

/// A byte of a parameter run: a digit or a semicolon.
pub open spec fn is_param_byte(b: u8) -> bool {
    is_digit(b) || byte_char(b) == ';'
}

/// Where the run of digits that starts at `i` ends.
pub open spec fn digits_end(buf: Seq<u8>, i: int) -> int
    decreases buf.len() - i,
{
    if 0 <= i < buf.len() && is_digit(buf[i]) {
        digits_end(buf, i + 1)
    } else {
        i
    }
}

/// Where the run of parameter bytes that starts at `i` ends.
pub open spec fn params_end(buf: Seq<u8>, i: int) -> int
    decreases buf.len() - i,
{
    if 0 <= i < buf.len() && is_param_byte(buf[i]) {
        params_end(buf, i + 1)
    } else {
        i
    }
}

/// The number that the digits from `i` up to `j` write in decimal notation;
/// no digits write 0.
pub open spec fn digits_value(buf: Seq<u8>, i: int, j: int) -> nat
    decreases j - i,
{
    if j <= i {
        0
    } else {
        digits_value(buf, i, j - 1) * 10 + (buf[j - 1] - 0x30) as nat
    }
}

/// The value of the parameter field from `i` up to `j`: the number it writes
/// where that fits in 16 bits, and 0 where it does not or the field is empty.
pub open spec fn field_value(buf: Seq<u8>, i: int, j: int) -> u16 {
    let number = digits_value(buf, i, j);
    if number <= 0xFFFF {
        number as u16
    } else {
        0
    }
}

/// The values of the parameter fields from `i` on. A field is a run of
/// digits; a semicolon behind it opens the next field, which may be empty.
/// A semicolon that is the last byte of the buffer opens no field: the list
/// ends with the field before it.
pub open spec fn fields_from(buf: Seq<u8>, i: int) -> Seq<u16>
    decreases buf.len() - i,
{
    let j = digits_end(buf, i);
    if 0 <= i && j + 1 < buf.len() && byte_char(buf[j]) == ';' {
        proof {
            lemma_digits_end_bounds(buf, i);
        }
        seq![field_value(buf, i, j)] + fields_from(buf, j + 1)
    } else {
        seq![field_value(buf, i, j)]
    }
}

/// The parameters of the run that starts at `start`: none where the run is
/// empty, else the values of its fields.
pub open spec fn params_at(buf: Seq<u8>, start: int) -> Seq<u16> {
    if params_end(buf, start) > start {
        fields_from(buf, start)
    } else {
        Seq::empty()
    }
}

/// A parameter in 8 bits: itself up to 255, and 0 above.
pub open spec fn narrow(p: u16) -> u8 {
    if p <= 255 {
        p as u8
    } else {
        0
    }
}

/// A parameter list in 8 bits.
pub open spec fn narrowed(params: Seq<u16>) -> Seq<u8> {
    Seq::new(params.len(), |k: int| narrow(params[k]))
}

/// The parameter at place `k`, or `default` where the list is too short.
pub open spec fn param_or(params: Seq<u16>, k: int, default: u16) -> u16 {
    if 0 <= k < params.len() {
        params[k]
    } else {
        default
    }
}

/// The parameter at place `k` in 8 bits, or `default` where the list is too
/// short.
pub open spec fn narrow_or(params: Seq<u16>, k: int, default: u8) -> u8 {
    if 0 <= k < params.len() {
        narrow(params[k])
    } else {
        default
    }
}

/// The text that an unrecognized sequence carries up to its final byte: the
/// private marker, if any, and the parameters joined by semicolons.
pub open spec fn unknown_text(private: bool, params: Seq<u16>) -> Seq<char> {
    let marker = if private {
        seq!['?']
    } else {
        Seq::empty()
    };
    marker + joined(decimals16(params), semicolon())
}

/// Whether the parameters, read in 8 bits, are at least three and begin with
/// `first` and `second`.
pub open spec fn begins_with(params: Seq<u16>, first: u8, second: u8) -> bool {
    params.len() >= 3 && narrow(params[0]) == first && narrow(params[1]) == second
}

/// The command of a sequence that ends in `m`: a colour where the list
/// begins with 38 or 48 and then 2 or 5, a reset where it is empty, and the
/// list itself otherwise.
pub open spec fn graphics_command(params: Seq<u16>) -> CsiView {
    if params.len() == 0 {
        CsiView::ResetAttributes
    } else if begins_with(params, 38, 2) {
        CsiView::SetForegroundColor(
            narrow_or(params, 2, 0),
            narrow_or(params, 3, 0),
            narrow_or(params, 4, 0),
        )
    } else if begins_with(params, 48, 2) {
        CsiView::SetBackgroundColor(
            narrow_or(params, 2, 0),
            narrow_or(params, 3, 0),
            narrow_or(params, 4, 0),
        )
    } else if begins_with(params, 38, 5) {
        CsiView::SetForegroundColor256(narrow_or(params, 2, 0))
    } else if begins_with(params, 48, 5) {
        CsiView::SetBackgroundColor256(narrow_or(params, 2, 0))
    } else {
        CsiView::SetGraphicsMode(narrowed(params))
    }
}

/// The command of a sequence that ends in `n`: a report request where the
/// first parameter is 6, and unknown otherwise.
pub open spec fn report_command(private: bool, params: Seq<u16>) -> CsiView {
    if params.len() > 0 && params[0] == 6 {
        if private {
            CsiView::CursorPositionReport
        } else {
            CsiView::DeviceStatusReport
        }
    } else {
        CsiView::Unknown(unknown_text(private, params).push('n'))
    }
}

/// The command that the final byte `cmd` selects, given the private marker
/// and the parameters before it. A final byte outside the table gives an
/// unknown command that carries marker, parameters and that byte.
pub open spec fn csi_dispatch(private: bool, params: Seq<u16>, cmd: u8) -> CsiView {
    let letter = byte_char(cmd);
    if letter == 'A' {
        CsiView::CursorUp(param_or(params, 0, 1) as u32)
    } else if letter == 'B' {
        CsiView::CursorDown(param_or(params, 0, 1) as u32)
    } else if letter == 'C' {
        CsiView::CursorForward(param_or(params, 0, 1) as u32)
    } else if letter == 'D' {
        CsiView::CursorBackward(param_or(params, 0, 1) as u32)
    } else if letter == 'E' {
        CsiView::CursorNextLine(param_or(params, 0, 1) as u32)
    } else if letter == 'F' {
        CsiView::CursorPreviousLine(param_or(params, 0, 1) as u32)
    } else if letter == 'G' {
        CsiView::CursorToColumn(param_or(params, 0, 1) as u32)
    } else if letter == 'H' || letter == 'f' {
        CsiView::CursorPosition(param_or(params, 0, 1) as u32, param_or(params, 1, 1) as u32)
    } else if letter == 'J' {
        CsiView::EraseInDisplay(narrow_or(params, 0, 0))
    } else if letter == 'K' {
        CsiView::EraseInLine(narrow_or(params, 0, 0))
    } else if letter == 'S' {
        CsiView::ScrollUp(param_or(params, 0, 1) as u32)
    } else if letter == 'T' {
        CsiView::ScrollDown(param_or(params, 0, 1) as u32)
    } else if letter == 's' {
        CsiView::CursorSavePosition
    } else if letter == 'u' {
        CsiView::CursorRestorePosition
    } else if letter == 'h' {
        CsiView::SetMode(params)
    } else if letter == 'l' {
        CsiView::ResetMode(params)
    } else if letter == 't' {
        CsiView::WindowManipulation(params)
    } else if letter == 'n' {
        report_command(private, params)
    } else if letter == 'm' {
        graphics_command(params)
    } else {
        CsiView::Unknown(unknown_text(private, params).push(letter))
    }
}

/// Whether `buf` begins with the two bytes that introduce a CSI sequence.
pub open spec fn is_csi_start(buf: Seq<u8>) -> bool {
    buf.len() >= 2 && buf[0] == ESC && byte_char(buf[1]) == '['
}

/// Whether the private marker `?` follows the introducer.
pub open spec fn csi_private(buf: Seq<u8>) -> bool {
    buf.len() > 2 && byte_char(buf[2]) == '?'
}

/// Where the parameter run of a CSI sequence begins.
pub open spec fn csi_params_start(buf: Seq<u8>) -> int {
    if csi_private(buf) {
        3
    } else {
        2
    }
}

/// The place of the final byte of a CSI sequence: behind its parameter run.
/// It is the length of `buf` where the buffer ends before a final byte.
pub open spec fn csi_final(buf: Seq<u8>) -> int {
    params_end(buf, csi_params_start(buf))
}

/// The parameters of the CSI sequence at the head of `buf`.
pub open spec fn csi_params(buf: Seq<u8>) -> Seq<u16> {
    params_at(buf, csi_params_start(buf))
}

/// The command of the CSI sequence at the head of `buf`. Where the buffer
/// ends before a final byte, the command is unknown and carries the marker
/// and the parameters that were read.
pub open spec fn csi_command(buf: Seq<u8>) -> CsiView {
    let end = csi_final(buf);
    if end < buf.len() {
        csi_dispatch(csi_private(buf), csi_params(buf), buf[end])
    } else {
        CsiView::Unknown(unknown_text(csi_private(buf), csi_params(buf)))
    }
}

/// The number of bytes of the CSI sequence at the head of `buf`: introducer,
/// marker, parameters and final byte, as far as they are there.
pub open spec fn csi_len(buf: Seq<u8>) -> int {
    let end = csi_final(buf);
    if end < buf.len() {
        end + 1
    } else {
        end
    }
}

/// One element of the stream and the number of bytes that it takes up.
pub struct Span {
    pub element: ElementView,
    pub len: int,
}

/// A byte that belongs to a text run: any byte that is no control character.
pub open spec fn is_text_byte(b: u8) -> bool {
    ControlCharacter::of_byte(b) is None
}

/// Where the run of text bytes that starts at `i` ends.
pub open spec fn text_end(buf: Seq<u8>, i: int) -> int
    decreases buf.len() - i,
{
    if 0 <= i < buf.len() && is_text_byte(buf[i]) {
        text_end(buf, i + 1)
    } else {
        i
    }
}

/// A command with the number of bytes that it takes up.
pub open spec fn command_span(command: CsiView, len: int) -> Span {
    Span { element: ElementView::Csi(command), len }
}

/// The span of an escape sequence: the escape byte stands at `i` and is not
/// the last byte. A sequence that is not recognized becomes an unknown
/// command; one that the end of the buffer cuts short takes what is there.
pub open spec fn escape_span(buf: Seq<u8>, i: int) -> Span {
    let next = buf[i + 1];
    let letter = byte_char(next);
    if letter == '[' {
        let rest = buf.skip(i);
        command_span(csi_command(rest), csi_len(rest))
    } else if letter == '7' {
        command_span(CsiView::CursorSavePosition, 2)
    } else if letter == '8' {
        command_span(CsiView::CursorRestorePosition, 2)
    } else if letter == '=' {
        command_span(CsiView::ApplicationKeypadMode, 2)
    } else if letter == '>' {
        command_span(CsiView::NumericKeypadMode, 2)
    } else if letter == '(' {
        if i + 2 < buf.len() {
            let set = byte_char(buf[i + 2]);
            if set == '0' {
                command_span(CsiView::SetG0SpecialChars, 3)
            } else if set == 'B' {
                command_span(CsiView::SetG0NormalChars, 3)
            } else {
                command_span(CsiView::Unknown(seq!['(', set]), 3)
            }
        } else {
            command_span(CsiView::Unknown(seq!['(']), 2)
        }
    } else if next < 128 {
        command_span(CsiView::Unknown(seq![letter]), 2)
    } else {
        command_span(CsiView::Unknown("0x"@ + hex_pair(next)), 2)
    }
}

/// The span that begins at `i` with a byte that is no text byte: an escape
/// sequence where the escape byte stands there and is not the last byte,
/// else a control character of one byte.
pub open spec fn control_span(buf: Seq<u8>, i: int) -> Span {
    if buf[i] == ESC && i + 1 < buf.len() {
        escape_span(buf, i)
    } else {
        Span { element: ElementView::Ctrl(ControlCharacter::of_byte(buf[i]).unwrap()), len: 1 }
    }
}

/// The span that begins at `i` with a text byte: the whole run of text
/// bytes, each byte one character.
pub open spec fn text_span(buf: Seq<u8>, i: int) -> Span {
    let end = text_end(buf, i);
    Span { element: ElementView::Text(text_of(buf.subrange(i, end))), len: end - i }
}

/// The span that begins at `i`.
pub open spec fn span_at(buf: Seq<u8>, i: int) -> Span {
    if is_text_byte(buf[i]) {
        text_span(buf, i)
    } else {
        control_span(buf, i)
    }
}

/// The spans of the buffer from `i` on, each beginning where the one before
/// it ends.
pub open spec fn spans_from(buf: Seq<u8>, i: int) -> Seq<Span>
    decreases buf.len() - i,
{
    if i < 0 || i >= buf.len() {
        Seq::empty()
    } else {
        proof {
            lemma_span_bounds(buf, i);
        }
        seq![span_at(buf, i)] + spans_from(buf, i + span_at(buf, i).len)
    }
}

/// The elements of a list of spans, in order.
pub open spec fn elements_of(spans: Seq<Span>) -> Seq<ElementView> {
    Seq::new(spans.len(), |k: int| spans[k].element)
}

/// The number of bytes that a list of spans takes up.
pub open spec fn total_len(spans: Seq<Span>) -> int
    decreases spans.len(),
{
    if spans.len() == 0 {
        0
    } else {
        spans.first().len + total_len(spans.drop_first())
    }
}

/// The elements that a buffer decodes to, once its written-out escapes are
/// replaced.
pub open spec fn decoded(input: Seq<u8>) -> Seq<ElementView> {
    elements_of(spans_from(expanded(input), 0))
}

/// A run of digits ends at or behind its start, and within the buffer where
/// it starts there.
pub proof fn lemma_digits_end_bounds(buf: Seq<u8>, i: int)
    ensures
        i <= digits_end(buf, i),
        0 <= i <= buf.len() ==> digits_end(buf, i) <= buf.len(),
    decreases buf.len() - i,
{
    if 0 <= i < buf.len() && is_digit(buf[i]) {
        lemma_digits_end_bounds(buf, i + 1);
    }
}

/// A run of parameter bytes ends at or behind its start, and within the
/// buffer where it starts there.
pub proof fn lemma_params_end_bounds(buf: Seq<u8>, i: int)
    ensures
        i <= params_end(buf, i),
        0 <= i <= buf.len() ==> params_end(buf, i) <= buf.len(),
    decreases buf.len() - i,
{
    if 0 <= i < buf.len() && is_param_byte(buf[i]) {
        lemma_params_end_bounds(buf, i + 1);
    }
}

/// The run of parameter bytes from `i` on ends where it does once the field
/// that starts at `i` has been read: behind the field, or, where a semicolon
/// follows the field, where the run from behind that semicolon ends.
pub proof fn lemma_params_end_field(buf: Seq<u8>, i: int)
    requires
        0 <= i <= buf.len(),
    ensures
        params_end(buf, i) == ({
            let j = digits_end(buf, i);
            if j < buf.len() && byte_char(buf[j]) == ';' {
                params_end(buf, j + 1)
            } else {
                j
            }
        }),
    decreases buf.len() - i,
{
    if i < buf.len() && is_digit(buf[i]) {
        lemma_params_end_field(buf, i + 1);
    }
}

/// A run of text bytes ends at or behind its start, and within the buffer
/// where it starts there.
pub proof fn lemma_text_end_bounds(buf: Seq<u8>, i: int)
    ensures
        i <= text_end(buf, i),
        0 <= i <= buf.len() ==> text_end(buf, i) <= buf.len(),
    decreases buf.len() - i,
{
    if 0 <= i < buf.len() && is_text_byte(buf[i]) {
        lemma_text_end_bounds(buf, i + 1);
    }
}

/// Text bytes from `from` up to `to`, where either the buffer ends or a byte
/// stands that is no text byte, are one run.
pub proof fn lemma_text_end_run(buf: Seq<u8>, from: int, to: int)
    requires
        0 <= from <= to <= buf.len(),
        forall|k: int| from <= k < to ==> is_text_byte(#[trigger] buf[k]),
        to < buf.len() ==> !is_text_byte(buf[to]),
    ensures
        text_end(buf, from) == to,
    decreases to - from,
{
    if from < to {
        lemma_text_end_run(buf, from + 1, to);
    }
}

/// A CSI sequence takes at least its two introducer bytes and no more than
/// the buffer holds.
pub proof fn lemma_csi_len_bounds(buf: Seq<u8>)
    requires
        buf.len() >= 2,
    ensures
        2 <= csi_len(buf) <= buf.len(),
        csi_params_start(buf) <= csi_final(buf) <= buf.len(),
{
    lemma_params_end_bounds(buf, csi_params_start(buf));
}

/// Every span takes at least one byte and ends within the buffer.
pub proof fn lemma_span_bounds(buf: Seq<u8>, i: int)
    requires
        0 <= i < buf.len(),
    ensures
        1 <= span_at(buf, i).len <= buf.len() - i,
{
    if is_text_byte(buf[i]) {
        lemma_text_end_bounds(buf, i + 1);
    } else if buf[i] == ESC && i + 1 < buf.len() && byte_char(buf[i + 1]) == '[' {
        lemma_csi_len_bounds(buf.skip(i));
    }
}

/// The elements of two lists of spans, one behind the other.
pub proof fn lemma_elements_of_add(first: Seq<Span>, second: Seq<Span>)
    ensures
        elements_of(first + second) == elements_of(first) + elements_of(second),
{
    assert(elements_of(first + second) =~= elements_of(first) + elements_of(second));
}

} // verus!
