//! The decoder: from a byte buffer to the list of its elements.

use vstd::prelude::*;
use vstd::slice::slice_subrange;
use crate::ansi::{views, AnsiElement, ElementView};
use crate::ansi::csi::{CsiView, CSI};
use crate::ansi::ctrl::ControlCharacter;
use crate::grammar::{
    csi_command, csi_dispatch, csi_len, decoded, digits_end, digits_value, elements_of,
    escape_span, expand_from, expanded, field_value, fields_from, graphics_command,
    is_csi_start, is_text_byte, lemma_digits_end_bounds, lemma_elements_of_add,
    lemma_params_end_bounds, lemma_params_end_field, lemma_span_bounds, lemma_text_end_run,
    narrow, narrow_or, narrowed, param_or, params_at, params_end, report_command, span_at,
    spans_from, unknown_text, BACKSLASH, ESC,
};
use crate::text::{byte_char, push_decimals16, push_hex_pair, text_of};

verus! {

/// `std::io::Error`, the error of a failed read. It is carried through as it
/// came; nothing is stated of what it holds.
#[verifier::external_type_specification]
#[verifier::external_body]
pub struct ExIoError(std::io::Error);

/// Why bytes could not be turned into elements.
#[derive(Debug)]
pub enum ParserError {
    /// The input could not be read.
    IoError(std::io::Error),
    /// The input holds a sequence that a strict reading refuses.
    InvalidSequence(String),
}

impl ParserError {
    /// Says what went wrong: `I/O error: ` and what the read reported, or
    /// `Invalid sequence: ` and the sequence.
    pub fn message(&self) -> (out: String)
        ensures
            self matches ParserError::InvalidSequence(text) ==> out@ == "Invalid sequence: "@
                + text@,
            self matches ParserError::IoError(error) ==> exists|reported: String|
                vstd::string::to_string_from_display_ensures::<std::io::Error>(&error, reported)
                    && out@ == "I/O error: "@ + reported@,
    {
        match self {
            ParserError::IoError(error) => {
                let mut out = "I/O error: ".to_string();
                let reported = error.to_string();
                out.append(reported.as_str());
                out
            },
            ParserError::InvalidSequence(text) => {
                let mut out = "Invalid sequence: ".to_string();
                out.append(text.as_str());
                out
            },
        }
    }
}

impl From<std::io::Error> for ParserError {
    /// A failed read as a parser error.
    fn from(error: std::io::Error) -> (out: ParserError) {
        ParserError::IoError(error)
    }
}

impl vstd::std_specs::convert::FromSpecImpl<std::io::Error> for ParserError {
    open spec fn obeys_from_spec() -> bool {
        true
    }

    open spec fn from_spec(error: std::io::Error) -> ParserError {
        ParserError::IoError(error)
    }
}

/// The decoder of terminal control sequences.
pub struct AnsiParser;

/// Whether the byte is an ASCII digit.
fn is_digit(b: u8) -> (yes: bool)
    ensures
        yes == crate::grammar::is_digit(b),
{
    0x30 <= b && b <= 0x39
}

/// Reads one parameter field: the digits from `start` on. The number is kept
/// up to 16 bits; once it has grown beyond them it stays beyond.
fn read_field(buf: &[u8], start: usize) -> (found: (u16, usize))
    requires
        start <= buf@.len(),
    ensures
        found.1 == digits_end(buf@, start as int),
        found.0 == field_value(buf@, start as int, found.1 as int),
{
    let mut i: usize = start;
    let mut value: u32 = 0;
    while i < buf.len() && is_digit(buf[i])
        invariant
            start <= i <= buf@.len(),
            digits_end(buf@, i as int) == digits_end(buf@, start as int),
            value <= 0x10000,
            value <= 0xFFFF ==> value == digits_value(buf@, start as int, i as int),
            value == 0x10000 ==> digits_value(buf@, start as int, i as int) > 0xFFFF,
        decreases buf@.len() - i,
    {
        let digit: u32 = (buf[i] - 0x30) as u32;
        if value <= 0xFFFF {
            let next: u32 = value * 10 + digit;
            value = if next > 0xFFFF {
                0x10000
            } else {
                next
            };
        }
        i += 1;
    }
    let number: u16 = if value <= 0xFFFF {
        value as u16
    } else {
        0
    };
    (number, i)
}

/// Reads the parameter run that starts at `start`.
fn read_params(buf: &[u8], start: usize) -> (found: (Vec<u16>, usize))
    requires
        start <= buf@.len(),
    ensures
        found.1 == params_end(buf@, start as int),
        found.0@ == params_at(buf@, start as int),
{
    let mut params: Vec<u16> = Vec::new();
    if start >= buf.len() || !(is_digit(buf[start]) || buf[start] as char == ';') {
        return (params, start);
    }
    proof {
        lemma_params_end_bounds(buf@, start as int + 1);
    }
    let mut i: usize = start;
    loop
        invariant_except_break
            start <= i <= buf@.len(),
            params@ + fields_from(buf@, i as int) == fields_from(buf@, start as int),
            params_end(buf@, i as int) == params_end(buf@, start as int),
        ensures
            params@ == fields_from(buf@, start as int),
            i == params_end(buf@, start as int),
        decreases buf@.len() - i,
    {
        let (value, end) = read_field(buf, i);
        proof {
            lemma_digits_end_bounds(buf@, i as int);
            lemma_params_end_field(buf@, i as int);
        }
        let ghost before = params@;
        params.push(value);
        proof {
            assert(before + seq![value] =~= params@);
        }
        if end < buf.len() && buf[end] as char == ';' {
            i = end + 1;
            if i < buf.len() {
                proof {
                    assert(before + (seq![value] + fields_from(buf@, i as int)) =~= params@
                        + fields_from(buf@, i as int));
                }
            } else {
                // The buffer ends with this semicolon: no field follows it.
                break ;
            }
        } else {
            i = end;
            break ;
        }
    }
    (params, i)
}

/// The parameter at place `k`, or `default` where the list is too short.
fn param_at(params: &Vec<u16>, k: usize, default: u16) -> (p: u32)
    ensures
        p == param_or(params@, k as int, default) as u32,
{
    if k < params.len() {
        params[k] as u32
    } else {
        default as u32
    }
}

/// One parameter in 8 bits.
fn narrow_param(p: u16) -> (b: u8)
    ensures
        b == narrow(p),
{
    if p <= 255 {
        p as u8
    } else {
        0
    }
}

/// The parameter at place `k` in 8 bits, or `default` where the list is too
/// short.
fn narrow_at(params: &Vec<u16>, k: usize, default: u8) -> (b: u8)
    ensures
        b == narrow_or(params@, k as int, default),
{
    if k < params.len() {
        narrow_param(params[k])
    } else {
        default
    }
}

/// The whole parameter list in 8 bits.
fn narrow_all(params: &Vec<u16>) -> (bytes: Vec<u8>)
    ensures
        bytes@ == narrowed(params@),
{
    let mut bytes: Vec<u8> = Vec::new();
    let mut i: usize = 0;
    while i < params.len()
        invariant
            i <= params.len(),
            bytes@.len() == i,
            forall|k: int| 0 <= k < i ==> #[trigger] bytes@[k] == narrow(params@[k]),
        decreases params.len() - i,
    {
        bytes.push(narrow_param(params[i]));
        i += 1;
    }
    proof {
        assert(bytes@ =~= narrowed(params@));
    }
    bytes
}

/// Whether the list, read in 8 bits, has at least three parameters and
/// begins with `first` and `second`.
fn begins_with(params: &Vec<u16>, first: u8, second: u8) -> (yes: bool)
    ensures
        yes == crate::grammar::begins_with(params@, first, second),
{
    params.len() >= 3 && narrow_param(params[0]) == first && narrow_param(params[1]) == second
}

/// Writes the marker and the parameters of a sequence that is not
/// recognized.
fn unknown_string(private: bool, params: &Vec<u16>) -> (out: String)
    ensures
        out@ == unknown_text(private, params@),
{
    let mut out = String::new();
    if private {
        out.push('?');
    }
    proof {
        assert(out@ =~= if private {
            seq!['?']
        } else {
            Seq::<char>::empty()
        });
    }
    push_decimals16(&mut out, params);
    out
}

/// The unknown command that carries marker, parameters and final byte.
fn unknown_command(private: bool, params: &Vec<u16>, last: char) -> (command: CSI)
    ensures
        command@ == CsiView::Unknown(unknown_text(private, params@).push(last)),
{
    let mut text = unknown_string(private, params);
    text.push(last);
    CSI::Unknown(text)
}

/// The command of a sequence that ends in `m`.
fn graphics(params: &Vec<u16>) -> (command: CSI)
    ensures
        command@ == graphics_command(params@),
{
    if params.len() == 0 {
        CSI::ResetAttributes
    } else if begins_with(params, 38, 2) {
        CSI::SetForegroundColor(
            narrow_at(params, 2, 0),
            narrow_at(params, 3, 0),
            narrow_at(params, 4, 0),
        )
    } else if begins_with(params, 48, 2) {
        CSI::SetBackgroundColor(
            narrow_at(params, 2, 0),
            narrow_at(params, 3, 0),
            narrow_at(params, 4, 0),
        )
    } else if begins_with(params, 38, 5) {
        CSI::SetForegroundColor256(narrow_at(params, 2, 0))
    } else if begins_with(params, 48, 5) {
        CSI::SetBackgroundColor256(narrow_at(params, 2, 0))
    } else {
        CSI::SetGraphicsMode(narrow_all(params))
    }
}

/// The command of a sequence that ends in `n`.
fn report(private: bool, params: &Vec<u16>) -> (command: CSI)
    ensures
        command@ == report_command(private, params@),
{
    if params.len() > 0 && params[0] == 6 {
        if private {
            CSI::CursorPositionReport
        } else {
            CSI::DeviceStatusReport
        }
    } else {
        unknown_command(private, params, 'n')
    }
}

/// The command that the final byte selects.
fn dispatch(private: bool, params: Vec<u16>, cmd: u8) -> (command: CSI)
    ensures
        command@ == csi_dispatch(private, params@, cmd),
{
    let letter = cmd as char;
    match letter {
        'A' => CSI::CursorUp(param_at(&params, 0, 1)),
        'B' => CSI::CursorDown(param_at(&params, 0, 1)),
        'C' => CSI::CursorForward(param_at(&params, 0, 1)),
        'D' => CSI::CursorBackward(param_at(&params, 0, 1)),
        'E' => CSI::CursorNextLine(param_at(&params, 0, 1)),
        'F' => CSI::CursorPreviousLine(param_at(&params, 0, 1)),
        'G' => CSI::CursorToColumn(param_at(&params, 0, 1)),
        'H' | 'f' => CSI::CursorPosition(param_at(&params, 0, 1), param_at(&params, 1, 1)),
        'J' => CSI::EraseInDisplay(narrow_at(&params, 0, 0)),
        'K' => CSI::EraseInLine(narrow_at(&params, 0, 0)),
        'S' => CSI::ScrollUp(param_at(&params, 0, 1)),
        'T' => CSI::ScrollDown(param_at(&params, 0, 1)),
        's' => CSI::CursorSavePosition,
        'u' => CSI::CursorRestorePosition,
        'h' => CSI::SetMode(params),
        'l' => CSI::ResetMode(params),
        't' => CSI::WindowManipulation(params),
        'n' => report(private, &params),
        'm' => graphics(&params),
        _ => unknown_command(private, &params, letter),
    }
}

/// An unknown command that carries the given characters.
fn unknown_of(first: char, second: Option<char>) -> (element: AnsiElement)
    ensures
        element@ == ElementView::Csi(
            CsiView::Unknown(
                match second {
                    Some(c) => seq![first, c],
                    None => seq![first],
                },
            ),
        ),
{
    let mut text = String::new();
    text.push(first);
    match second {
        Some(c) => {
            text.push(c);
            proof {
                assert(text@ =~= seq![first, c]);
            }
        },
        None => {
            proof {
                assert(text@ =~= seq![first]);
            }
        },
    }
    AnsiElement::Csi(CSI::Unknown(text))
}

/// Decodes the escape sequence whose escape byte stands at `i` and is not
/// the last byte of the buffer.
fn escape_element(buf: &[u8], i: usize) -> (found: (AnsiElement, usize))
    requires
        i + 1 < buf.len(),
        buf@[i as int] == ESC,
    ensures
        found.0@ == escape_span(buf@, i as int).element,
        found.1 == escape_span(buf@, i as int).len,
{
    let next: u8 = buf[i + 1];
    match next as char {
        '[' => AnsiParser::parse_csi(slice_subrange(buf, i, buf.len())),
        '7' => (AnsiElement::Csi(CSI::CursorSavePosition), 2),
        '8' => (AnsiElement::Csi(CSI::CursorRestorePosition), 2),
        '=' => (AnsiElement::Csi(CSI::ApplicationKeypadMode), 2),
        '>' => (AnsiElement::Csi(CSI::NumericKeypadMode), 2),
        '(' => {
            if i + 2 < buf.len() {
                let set = buf[i + 2] as char;
                match set {
                    '0' => (AnsiElement::Csi(CSI::SetG0SpecialChars), 3),
                    'B' => (AnsiElement::Csi(CSI::SetG0NormalChars), 3),
                    _ => (unknown_of('(', Some(set)), 3),
                }
            } else {
                (unknown_of('(', None), 2)
            }
        },
        _ => {
            if next < 128 {
                (unknown_of(next as char, None), 2)
            } else {
                let mut text = "0x".to_string();
                push_hex_pair(&mut text, next);
                (AnsiElement::Csi(CSI::Unknown(text)), 2)
            }
        },
    }
}

impl AnsiParser {
    /// Decodes a buffer into its elements. Written-out escapes are replaced
    /// first; then the buffer is read once from left to right. Every buffer
    /// decodes: what is not recognized becomes an unknown command, a control
    /// character or text.
    pub fn parse(input: &[u8]) -> (result: Result<Vec<AnsiElement>, ParserError>)
        ensures
            result is Ok,
            views(result->Ok_0@) == decoded(input@),
    {
        let expanded_buf = Self::expand_literal_escapes(input);
        let buf = expanded_buf.as_slice();
        let mut elements: Vec<AnsiElement> = Vec::new();
        let mut text_buf = String::new();
        let mut i: usize = 0;
        // Where the pending text began.
        let ghost mut run_start: int = 0;
        proof {
            assert(views(elements@) + elements_of(spans_from(buf@, 0)) =~= elements_of(
                spans_from(buf@, 0),
            ));
        }
        while i < buf.len()
            invariant
                0 <= run_start <= i <= buf@.len(),
                forall|k: int| run_start <= k < i ==> is_text_byte(#[trigger] buf@[k]),
                text_buf@ == text_of(buf@.subrange(run_start, i as int)),
                views(elements@) + elements_of(spans_from(buf@, run_start)) == elements_of(
                    spans_from(buf@, 0),
                ),
            decreases buf@.len() - i,
        {
            let byte: u8 = buf[i];
            match ControlCharacter::from_byte(byte) {
                None => {
                    text_buf.push(byte as char);
                    proof {
                        assert(text_buf@ =~= text_of(buf@.subrange(run_start, i + 1)));
                    }
                    i += 1;
                },
                Some(character) => {
                    if !text_buf.as_str().is_empty() {
                        proof {
                            lemma_text_end_run(buf@, run_start, i as int);
                            lemma_elements_of_add(
                                seq![span_at(buf@, run_start)],
                                spans_from(buf@, i as int),
                            );
                            assert(views(elements@.push(AnsiElement::Text(text_buf))) + elements_of(
                                spans_from(buf@, i as int),
                            ) =~= views(elements@) + elements_of(spans_from(buf@, run_start)));
                        }
                        elements.push(AnsiElement::Text(text_buf));
                        text_buf = String::new();
                    }
                    proof {
                        run_start = i as int;
                        lemma_span_bounds(buf@, i as int);
                    }
                    let ghost before = elements@;
                    let mut consumed: usize = 1;
                    if byte == ESC && i + 1 < buf.len() {
                        let (element, len) = escape_element(buf, i);
                        elements.push(element);
                        consumed = len;
                    } else {
                        elements.push(AnsiElement::Ctrl(character));
                    }
                    proof {
                        let next = i as int + consumed as int;
                        lemma_elements_of_add(seq![span_at(buf@, i as int)], spans_from(buf@, next));
                        assert(views(elements@) + elements_of(spans_from(buf@, next)) =~= views(
                            before,
                        ) + elements_of(spans_from(buf@, i as int)));
                        run_start = next;
                        assert(text_buf@ =~= text_of(buf@.subrange(next, next)));
                    }
                    i += consumed;
                },
            }
        }
        if !text_buf.as_str().is_empty() {
            proof {
                lemma_text_end_run(buf@, run_start, i as int);
                lemma_elements_of_add(seq![span_at(buf@, run_start)], spans_from(buf@, i as int));
                assert(views(elements@.push(AnsiElement::Text(text_buf))) =~= views(elements@)
                    + elements_of(spans_from(buf@, run_start)));
            }
            elements.push(AnsiElement::Text(text_buf));
        } else {
            proof {
                assert(views(elements@) =~= views(elements@) + elements_of(
                    spans_from(buf@, run_start),
                ));
            }
        }
        Ok(elements)
    }

    /// Replaces every written-out escape, a backslash with `e` or `E` behind
    /// it, by the escape byte. No other byte changes, so the result is never
    /// longer than the buffer.
    pub fn expand_literal_escapes(buf: &[u8]) -> (out: Vec<u8>)
        ensures
            out@ == expanded(buf@),
            out@.len() <= buf@.len(),
    {
        let mut out: Vec<u8> = Vec::new();
        let mut i: usize = 0;
        while i < buf.len()
            invariant
                i <= buf@.len(),
                out@.len() <= i,
                out@ + expand_from(buf@, i as int) == expanded(buf@),
            decreases buf@.len() - i,
        {
            let ghost before = out@;
            if i + 1 < buf.len() && buf[i] == BACKSLASH && (buf[i + 1] as char == 'e' || buf[i
                + 1] as char == 'E') {
                out.push(ESC);
                proof {
                    assert(out@ + expand_from(buf@, i + 2) =~= before + expand_from(
                        buf@,
                        i as int,
                    ));
                }
                i += 2;
            } else {
                out.push(buf[i]);
                proof {
                    assert(out@ + expand_from(buf@, i + 1) =~= before + expand_from(
                        buf@,
                        i as int,
                    ));
                }
                i += 1;
            }
        }
        proof {
            assert(out@ =~= out@ + expand_from(buf@, i as int));
        }
        out
    }

    /// Decodes the CSI sequence at the head of `buf` and says how many bytes
    /// it takes up, introducer and final byte included. Where the buffer ends
    /// before a final byte, the sequence takes all of it and the command is
    /// unknown.
    pub fn parse_csi(buf: &[u8]) -> (found: (AnsiElement, usize))
        requires
            is_csi_start(buf@),
        ensures
            found.0@ == ElementView::Csi(csi_command(buf@)),
            found.1 == csi_len(buf@),
            2 <= found.1 <= buf@.len(),
    {
        let private = buf.len() > 2 && buf[2] as char == '?';
        let start: usize = if private {
            3
        } else {
            2
        };
        let (params, end) = read_params(buf, start);
        proof {
            lemma_params_end_bounds(buf@, start as int);
        }
        if end < buf.len() {
            let cmd: u8 = buf[end];
            (AnsiElement::Csi(dispatch(private, params, cmd)), end + 1)
        } else {
            (AnsiElement::Csi(CSI::Unknown(unknown_string(private, &params))), end)
        }
    }
}

} // verus!
