//! Escape and CSI commands: their escape notation and their meaning.

use vstd::prelude::*;
use crate::text::{
    decimal, decimals16, decimals8, join_strings, joined, push_decimal, push_decimals16,
    push_decimals8, semicolon, texts,
};

verus! {

/// A decoded escape or CSI command.
#[derive(Debug, Clone, PartialEq, Eq)]
pub enum CSI {
    CursorUp(u32),
    CursorDown(u32),
    CursorForward(u32),
    CursorBackward(u32),
    CursorPosition(u32, u32),
    CursorSavePosition,
    CursorRestorePosition,
    CursorToColumn(u32),
    CursorNextLine(u32),
    CursorPreviousLine(u32),
    EraseInDisplay(u8),
    EraseInLine(u8),
    SetGraphicsMode(Vec<u8>),
    SetForegroundColor(u8, u8, u8),
    SetBackgroundColor(u8, u8, u8),
    SetForegroundColor256(u8),
    SetBackgroundColor256(u8),
    ResetAttributes,
    SetMode(Vec<u16>),
    ResetMode(Vec<u16>),
    ApplicationKeypadMode,
    NumericKeypadMode,
    SetG0SpecialChars,
    SetG0NormalChars,
    ScrollUp(u32),
    ScrollDown(u32),
    WindowManipulation(Vec<u16>),
    DeviceStatusReport,
    CursorPositionReport,
    Unknown(String),
}

/// The mathematical value of a command: parameter lists are sequences, the
/// text of an unrecognized sequence is a sequence of characters.
pub enum CsiView {
    CursorUp(u32),
    CursorDown(u32),
    CursorForward(u32),
    CursorBackward(u32),
    CursorPosition(u32, u32),
    CursorSavePosition,
    CursorRestorePosition,
    CursorToColumn(u32),
    CursorNextLine(u32),
    CursorPreviousLine(u32),
    EraseInDisplay(u8),
    EraseInLine(u8),
    SetGraphicsMode(Seq<u8>),
    SetForegroundColor(u8, u8, u8),
    SetBackgroundColor(u8, u8, u8),
    SetForegroundColor256(u8),
    SetBackgroundColor256(u8),
    ResetAttributes,
    SetMode(Seq<u16>),
    ResetMode(Seq<u16>),
    ApplicationKeypadMode,
    NumericKeypadMode,
    SetG0SpecialChars,
    SetG0NormalChars,
    ScrollUp(u32),
    ScrollDown(u32),
    WindowManipulation(Seq<u16>),
    DeviceStatusReport,
    CursorPositionReport,
    Unknown(Seq<char>),
}

impl View for CSI {
    type V = CsiView;

    open spec fn view(&self) -> CsiView {
        match self {
            CSI::CursorUp(n) => CsiView::CursorUp(*n),
            CSI::CursorDown(n) => CsiView::CursorDown(*n),
            CSI::CursorForward(n) => CsiView::CursorForward(*n),
            CSI::CursorBackward(n) => CsiView::CursorBackward(*n),
            CSI::CursorPosition(row, col) => CsiView::CursorPosition(*row, *col),
            CSI::CursorSavePosition => CsiView::CursorSavePosition,
            CSI::CursorRestorePosition => CsiView::CursorRestorePosition,
            CSI::CursorToColumn(n) => CsiView::CursorToColumn(*n),
            CSI::CursorNextLine(n) => CsiView::CursorNextLine(*n),
            CSI::CursorPreviousLine(n) => CsiView::CursorPreviousLine(*n),
            CSI::EraseInDisplay(n) => CsiView::EraseInDisplay(*n),
            CSI::EraseInLine(n) => CsiView::EraseInLine(*n),
            CSI::SetGraphicsMode(params) => CsiView::SetGraphicsMode(params@),
            CSI::SetForegroundColor(r, g, b) => CsiView::SetForegroundColor(*r, *g, *b),
            CSI::SetBackgroundColor(r, g, b) => CsiView::SetBackgroundColor(*r, *g, *b),
            CSI::SetForegroundColor256(n) => CsiView::SetForegroundColor256(*n),
            CSI::SetBackgroundColor256(n) => CsiView::SetBackgroundColor256(*n),
            CSI::ResetAttributes => CsiView::ResetAttributes,
            CSI::SetMode(params) => CsiView::SetMode(params@),
            CSI::ResetMode(params) => CsiView::ResetMode(params@),
            CSI::ApplicationKeypadMode => CsiView::ApplicationKeypadMode,
            CSI::NumericKeypadMode => CsiView::NumericKeypadMode,
            CSI::SetG0SpecialChars => CsiView::SetG0SpecialChars,
            CSI::SetG0NormalChars => CsiView::SetG0NormalChars,
            CSI::ScrollUp(n) => CsiView::ScrollUp(*n),
            CSI::ScrollDown(n) => CsiView::ScrollDown(*n),
            CSI::WindowManipulation(params) => CsiView::WindowManipulation(params@),
            CSI::DeviceStatusReport => CsiView::DeviceStatusReport,
            CSI::CursorPositionReport => CsiView::CursorPositionReport,
            CSI::Unknown(seq) => CsiView::Unknown(seq@),
        }
    }
}

/// What an erase-in-display parameter asks for.
pub open spec fn erase_display_text(n: u8) -> Seq<char> {
    if n == 0 {
        "Erase from cursor to end of screen"@
    } else if n == 1 {
        "Erase from cursor to beginning of screen"@
    } else if n == 2 {
        "Erase entire screen"@
    } else if n == 3 {
        "Erase saved lines"@
    } else {
        "Unknown erase display mode: "@ + decimal(n as nat)
    }
}

/// What an erase-in-line parameter asks for.
pub open spec fn erase_line_text(n: u8) -> Seq<char> {
    if n == 0 {
        "Erase from cursor to end of line"@
    } else if n == 1 {
        "Erase from cursor to beginning of line"@
    } else if n == 2 {
        "Erase entire line"@
    } else {
        "Unknown erase line mode: "@ + decimal(n as nat)
    }
}

/// The name of one graphics-mode parameter.
pub open spec fn graphics_label(p: u8) -> Seq<char> {
    if p == 0 {
        "Reset all"@
    } else if p == 1 {
        "Bold"@
    } else if p == 2 {
        "Faint"@
    } else if p == 3 {
        "Italic"@
    } else if p == 4 {
        "Underline"@
    } else if p == 5 {
        "Slow blink"@
    } else if p == 6 {
        "Rapid blink"@
    } else if p == 7 {
        "Reverse"@
    } else if p == 8 {
        "Conceal"@
    } else if p == 9 {
        "Crossed-out"@
    } else if p == 21 {
        "Double underline"@
    } else if p == 22 {
        "Normal intensity"@
    } else if p == 23 {
        "Not italic"@
    } else if p == 24 {
        "Not underlined"@
    } else if p == 25 {
        "Not blinking"@
    } else if p == 27 {
        "Not reversed"@
    } else if p == 28 {
        "Reveal"@
    } else if p == 29 {
        "Not crossed out"@
    } else if 30 <= p <= 37 {
        "Foreground color: "@ + decimal((p - 30) as nat)
    } else if p == 38 {
        "Set foreground color"@
    } else if p == 39 {
        "Reset foreground color"@
    } else if 40 <= p <= 47 {
        "Background color: "@ + decimal((p - 40) as nat)
    } else if p == 48 {
        "Set background color"@
    } else if p == 49 {
        "Reset background color"@
    } else if 90 <= p <= 97 {
        "Bright foreground color: "@ + decimal((p - 90) as nat)
    } else if 100 <= p <= 107 {
        "Bright background color: "@ + decimal((p - 100) as nat)
    } else {
        "Unknown parameter: "@ + decimal(p as nat)
    }
}

/// The name of one mode that a set-mode command switches on.
pub open spec fn set_mode_label(p: u16) -> Seq<char> {
    if p == 1 {
        "Application cursor keys"@
    } else if p == 2 {
        "Designate US G0 character set"@
    } else if p == 3 {
        "132 column mode"@
    } else if p == 4 {
        "Smooth scroll"@
    } else if p == 6 {
        "Origin mode"@
    } else if p == 7 {
        "Auto-wrap mode"@
    } else if p == 12 {
        "Start blinking cursor"@
    } else if p == 20 {
        "Automatic newline"@
    } else if p == 25 {
        "Show cursor"@
    } else if p == 47 {
        "Use alternate screen buffer"@
    } else if p == 1000 {
        "Send mouse X/Y on button press and release"@
    } else if p == 1001 {
        "Use hilite mouse tracking"@
    } else if p == 1002 {
        "Use cell motion mouse tracking"@
    } else if p == 1003 {
        "Use all motion mouse tracking"@
    } else if p == 1004 {
        "Send focus events to tty"@
    } else if p == 1005 {
        "Enable UTF-8 mouse mode"@
    } else if p == 1006 {
        "Enable SGR mouse mode"@
    } else if p == 1007 {
        "Enable alternate scroll mode"@
    } else if p == 1049 {
        "Save cursor as in DECSC and use alternate screen buffer"@
    } else {
        "Unknown mode: "@ + decimal(p as nat)
    }
}

/// The name of one mode that a reset-mode command switches off.
pub open spec fn reset_mode_label(p: u16) -> Seq<char> {
    if p == 1 {
        "Normal cursor keys"@
    } else if p == 3 {
        "80 column mode"@
    } else if p == 4 {
        "Jump scroll"@
    } else if p == 6 {
        "Normal cursor mode"@
    } else if p == 7 {
        "No auto-wrap mode"@
    } else if p == 12 {
        "Stop blinking cursor"@
    } else if p == 20 {
        "No automatic newline"@
    } else if p == 25 {
        "Hide cursor"@
    } else if p == 47 {
        "Use normal screen buffer"@
    } else if 1000 <= p <= 1003 {
        "Turn off mouse tracking"@
    } else if p == 1004 {
        "Don't send focus events to tty"@
    } else if p == 1005 {
        "Disable UTF-8 mouse mode"@
    } else if p == 1006 {
        "Disable SGR mouse mode"@
    } else if p == 1007 {
        "Disable alternate scroll mode"@
    } else if p == 1049 {
        "Use normal screen buffer and restore cursor as in DECRC"@
    } else {
        "Unknown mode: "@ + decimal(p as nat)
    }
}

/// The names of a list of graphics-mode parameters.
pub open spec fn graphics_labels(params: Seq<u8>) -> Seq<Seq<char>> {
    Seq::new(params.len(), |k: int| graphics_label(params[k]))
}

/// The names of the modes of a set-mode command.
pub open spec fn set_mode_labels(params: Seq<u16>) -> Seq<Seq<char>> {
    Seq::new(params.len(), |k: int| set_mode_label(params[k]))
}

/// The names of the modes of a reset-mode command.
pub open spec fn reset_mode_labels(params: Seq<u16>) -> Seq<Seq<char>> {
    Seq::new(params.len(), |k: int| reset_mode_label(params[k]))
}

/// A window operation that takes two numbers: `with` says what it does with
/// them, `without` what is written when they are missing.
pub open spec fn window_pair_text(
    params: Seq<u16>,
    lead: Seq<char>,
    between: Seq<char>,
    close: Seq<char>,
    without: Seq<char>,
) -> Seq<char> {
    if params.len() >= 3 {
        lead + decimal(params[1] as nat) + between + decimal(params[2] as nat) + close
    } else {
        without
    }
}

/// A window operation with a sub-code out of 0, 1, 2 and, where `three` says
/// so, 3.
pub open spec fn window_choice_text(
    params: Seq<u16>,
    zero: Seq<char>,
    one: Seq<char>,
    two: Seq<char>,
    three: Option<Seq<char>>,
    other: Seq<char>,
    without: Seq<char>,
) -> Seq<char> {
    if params.len() >= 2 {
        let sub = params[1];
        if sub == 0 {
            zero
        } else if sub == 1 {
            one
        } else if sub == 2 {
            two
        } else if sub == 3 && three is Some {
            three->Some_0
        } else {
            other + decimal(sub as nat)
        }
    } else {
        without
    }
}

/// What a window-manipulation parameter list asks for. The first parameter is
/// the operation; some operations read one or two more.
pub open spec fn window_text(params: Seq<u16>) -> Seq<char> {
    if params.len() == 0 {
        "Unknown window manipulation"@
    } else {
        let operation = params[0];
        if operation == 1 {
            "De-iconify window"@
        } else if operation == 2 {
            "Iconify window"@
        } else if operation == 3 {
            window_pair_text(
                params,
                "Move window to ("@,
                ", "@,
                ")"@,
                "Move window (incomplete parameters)"@,
            )
        } else if operation == 4 || operation == 8 {
            window_pair_text(
                params,
                "Resize window to "@,
                " rows, "@,
                " columns"@,
                "Resize window (incomplete parameters)"@,
            )
        } else if operation == 5 {
            "Raise window to front"@
        } else if operation == 6 {
            "Lower window to bottom"@
        } else if operation == 7 {
            "Refresh window"@
        } else if operation == 9 {
            window_choice_text(
                params,
                "Restore maximized window"@,
                "Maximize window"@,
                "Maximize window vertically"@,
                Some("Maximize window horizontally"@),
                "Unknown window manipulation: "@,
                "Maximize window (incomplete parameters)"@,
            )
        } else if operation == 10 {
            window_choice_text(
                params,
                "Undo full-screen mode"@,
                "Change to full-screen mode"@,
                "Toggle full-screen mode"@,
                None,
                "Unknown full-screen operation: "@,
                "Full-screen manipulation (incomplete parameters)"@,
            )
        } else if operation == 11 {
            "Report window state"@
        } else if operation == 13 {
            "Report window position"@
        } else if operation == 14 {
            "Report window size in pixels"@
        } else if operation == 18 {
            "Report window size in characters"@
        } else if operation == 19 {
            "Report screen size in characters"@
        } else if operation == 20 {
            "Report icon label"@
        } else if operation == 21 {
            "Report window title"@
        } else if operation == 22 {
            window_choice_text(
                params,
                "Save icon and window title"@,
                "Save icon title"@,
                "Save window title"@,
                None,
                "Unknown title saving operation: "@,
                "Save window/icon title (incomplete parameters)"@,
            )
        } else if operation == 23 {
            window_choice_text(
                params,
                "Restore icon and window title"@,
                "Restore icon title"@,
                "Restore window title"@,
                None,
                "Unknown title restoring operation: "@,
                "Restore window/icon title (incomplete parameters)"@,
            )
        } else {
            "Unknown window manipulation code: "@ + decimal(operation as nat)
        }
    }
}

impl CsiView {
    /// The canonical escape notation of the command, with the escape byte
    /// written as `\x1b`.
    pub open spec fn escape_text(self) -> Seq<char> {
        match self {
            CsiView::CursorUp(n) => "\\x1b["@ + decimal(n as nat) + "A"@,
            CsiView::CursorDown(n) => "\\x1b["@ + decimal(n as nat) + "B"@,
            CsiView::CursorForward(n) => "\\x1b["@ + decimal(n as nat) + "C"@,
            CsiView::CursorBackward(n) => "\\x1b["@ + decimal(n as nat) + "D"@,
            CsiView::CursorPosition(row, col) => "\\x1b["@ + decimal(row as nat) + ";"@ + decimal(
                col as nat,
            ) + "H"@,
            CsiView::CursorSavePosition => "\\x1b[s"@,
            CsiView::CursorRestorePosition => "\\x1b[u"@,
            CsiView::CursorToColumn(n) => "\\x1b["@ + decimal(n as nat) + "G"@,
            CsiView::CursorNextLine(n) => "\\x1b["@ + decimal(n as nat) + "E"@,
            CsiView::CursorPreviousLine(n) => "\\x1b["@ + decimal(n as nat) + "F"@,
            CsiView::EraseInDisplay(n) => "\\x1b["@ + decimal(n as nat) + "J"@,
            CsiView::EraseInLine(n) => "\\x1b["@ + decimal(n as nat) + "K"@,
            CsiView::SetGraphicsMode(params) => "\\x1b["@ + joined(decimals8(params), semicolon())
                + "m"@,
            CsiView::SetForegroundColor(r, g, b) => "\\x1b[38;2;"@ + decimal(r as nat) + ";"@
                + decimal(g as nat) + ";"@ + decimal(b as nat) + "m"@,
            CsiView::SetBackgroundColor(r, g, b) => "\\x1b[48;2;"@ + decimal(r as nat) + ";"@
                + decimal(g as nat) + ";"@ + decimal(b as nat) + "m"@,
            CsiView::SetForegroundColor256(n) => "\\x1b[38;5;"@ + decimal(n as nat) + "m"@,
            CsiView::SetBackgroundColor256(n) => "\\x1b[48;5;"@ + decimal(n as nat) + "m"@,
            CsiView::ResetAttributes => "\\x1b[0m"@,
            CsiView::SetMode(params) => "\\x1b["@ + joined(decimals16(params), semicolon()) + "h"@,
            CsiView::ResetMode(params) => "\\x1b["@ + joined(decimals16(params), semicolon())
                + "l"@,
            CsiView::ApplicationKeypadMode => "\\x1b="@,
            CsiView::NumericKeypadMode => "\\x1b>"@,
            CsiView::SetG0SpecialChars => "\\x1b(0"@,
            CsiView::SetG0NormalChars => "\\x1b(B"@,
            CsiView::ScrollUp(n) => "\\x1b["@ + decimal(n as nat) + "S"@,
            CsiView::ScrollDown(n) => "\\x1b["@ + decimal(n as nat) + "T"@,
            CsiView::WindowManipulation(params) => "\\x1b["@ + joined(
                decimals16(params),
                semicolon(),
            ) + "t"@,
            CsiView::DeviceStatusReport => "\\x1b[6n"@,
            CsiView::CursorPositionReport => "\\x1b[?6n"@,
            CsiView::Unknown(seq) => "\\x1b["@ + seq,
        }
    }

    /// What the command does, in words. Numbers outside the known tables are
    /// named as unknown, with their value.
    pub open spec fn description_text(self) -> Seq<char> {
        match self {
            CsiView::CursorUp(n) => "Move cursor up "@ + decimal(n as nat) + " lines"@,
            CsiView::CursorDown(n) => "Move cursor down "@ + decimal(n as nat) + " lines"@,
            CsiView::CursorForward(n) => "Move cursor forward "@ + decimal(n as nat)
                + " columns"@,
            CsiView::CursorBackward(n) => "Move cursor backward "@ + decimal(n as nat)
                + " columns"@,
            CsiView::CursorPosition(row, col) => "Move cursor to position ("@ + decimal(
                row as nat,
            ) + ", "@ + decimal(col as nat) + ")"@,
            CsiView::CursorSavePosition => "Save cursor position"@,
            CsiView::CursorRestorePosition => "Restore cursor position"@,
            CsiView::CursorToColumn(n) => "Move cursor to column "@ + decimal(n as nat),
            CsiView::CursorNextLine(n) => "Move cursor to beginning of line "@ + decimal(
                n as nat,
            ) + " lines down"@,
            CsiView::CursorPreviousLine(n) => "Move cursor to beginning of line "@ + decimal(
                n as nat,
            ) + " lines up"@,
            CsiView::EraseInDisplay(n) => erase_display_text(n),
            CsiView::EraseInLine(n) => erase_line_text(n),
            CsiView::SetGraphicsMode(params) => if params.len() == 0 {
                "Reset all attributes"@
            } else {
                "Set mode: "@ + joined(graphics_labels(params), ", "@)
            },
            CsiView::SetForegroundColor(r, g, b) => "Set foreground color to RGB("@ + decimal(
                r as nat,
            ) + ","@ + decimal(g as nat) + ","@ + decimal(b as nat) + ")"@,
            CsiView::SetBackgroundColor(r, g, b) => "Set background color to RGB("@ + decimal(
                r as nat,
            ) + ","@ + decimal(g as nat) + ","@ + decimal(b as nat) + ")"@,
            CsiView::SetForegroundColor256(n) => "Set foreground color to 256-color: "@ + decimal(
                n as nat,
            ),
            CsiView::SetBackgroundColor256(n) => "Set background color to 256-color: "@ + decimal(
                n as nat,
            ),
            CsiView::ResetAttributes => "Reset all attributes"@,
            CsiView::SetMode(params) => "Set mode: "@ + joined(set_mode_labels(params), ", "@),
            CsiView::ResetMode(params) => "Reset mode: "@ + joined(
                reset_mode_labels(params),
                ", "@,
            ),
            CsiView::ApplicationKeypadMode => "Application keypad mode"@,
            CsiView::NumericKeypadMode => "Numeric keypad mode"@,
            CsiView::SetG0SpecialChars => "Set G0 special chars mode"@,
            CsiView::SetG0NormalChars => "Set G0 normal chars mode"@,
            CsiView::ScrollUp(n) => "Scroll up "@ + decimal(n as nat) + " lines"@,
            CsiView::ScrollDown(n) => "Scroll down "@ + decimal(n as nat) + " lines"@,
            CsiView::WindowManipulation(params) => window_text(params),
            CsiView::DeviceStatusReport => "Request cursor position"@,
            CsiView::CursorPositionReport => "Request extended cursor position"@,
            CsiView::Unknown(seq) => "Unknown CSI sequence: "@ + seq,
        }
    }
}

/// `lead`, then `n` in decimal notation, then `tail`.
fn numbered(lead: &str, n: u32, tail: &str) -> (out: String)
    ensures
        out@ == lead@ + decimal(n as nat) + tail@,
{
    let mut out = lead.to_string();
    push_decimal(&mut out, n);
    out.append(tail);
    out
}

/// `lead`, then `n` in decimal notation.
fn counted(lead: &str, n: u32) -> (out: String)
    ensures
        out@ == lead@ + decimal(n as nat),
{
    let mut out = lead.to_string();
    push_decimal(&mut out, n);
    out
}

/// Three numbers in decimal notation between `lead` and `close`, with `sep`
/// between each two.
fn triple(lead: &str, r: u8, g: u8, b: u8, sep: &str, close: &str) -> (out: String)
    ensures
        out@ == lead@ + decimal(r as nat) + sep@ + decimal(g as nat) + sep@ + decimal(b as nat)
            + close@,
{
    let mut out = lead.to_string();
    push_decimal(&mut out, r as u32);
    out.append(sep);
    push_decimal(&mut out, g as u32);
    out.append(sep);
    push_decimal(&mut out, b as u32);
    out.append(close);
    out
}

/// Two numbers in decimal notation: `lead`, the first, `between`, the second,
/// `close`.
fn paired(lead: &str, first: u32, between: &str, second: u32, close: &str) -> (out: String)
    ensures
        out@ == lead@ + decimal(first as nat) + between@ + decimal(second as nat) + close@,
{
    let mut out = lead.to_string();
    push_decimal(&mut out, first);
    out.append(between);
    push_decimal(&mut out, second);
    out.append(close);
    out
}

fn erase_display_string(n: u8) -> (out: String)
    ensures
        out@ == erase_display_text(n),
{
    match n {
        0 => "Erase from cursor to end of screen".to_string(),
        1 => "Erase from cursor to beginning of screen".to_string(),
        2 => "Erase entire screen".to_string(),
        3 => "Erase saved lines".to_string(),
        _ => counted("Unknown erase display mode: ", n as u32),
    }
}

fn erase_line_string(n: u8) -> (out: String)
    ensures
        out@ == erase_line_text(n),
{
    match n {
        0 => "Erase from cursor to end of line".to_string(),
        1 => "Erase from cursor to beginning of line".to_string(),
        2 => "Erase entire line".to_string(),
        _ => counted("Unknown erase line mode: ", n as u32),
    }
}

fn graphics_label_string(p: u8) -> (out: String)
    ensures
        out@ == graphics_label(p),
{
    match p {
        0 => "Reset all".to_string(),
        1 => "Bold".to_string(),
        2 => "Faint".to_string(),
        3 => "Italic".to_string(),
        4 => "Underline".to_string(),
        5 => "Slow blink".to_string(),
        6 => "Rapid blink".to_string(),
        7 => "Reverse".to_string(),
        8 => "Conceal".to_string(),
        9 => "Crossed-out".to_string(),
        21 => "Double underline".to_string(),
        22 => "Normal intensity".to_string(),
        23 => "Not italic".to_string(),
        24 => "Not underlined".to_string(),
        25 => "Not blinking".to_string(),
        27 => "Not reversed".to_string(),
        28 => "Reveal".to_string(),
        29 => "Not crossed out".to_string(),
        30..=37 => counted("Foreground color: ", (p - 30) as u32),
        38 => "Set foreground color".to_string(),
        39 => "Reset foreground color".to_string(),
        40..=47 => counted("Background color: ", (p - 40) as u32),
        48 => "Set background color".to_string(),
        49 => "Reset background color".to_string(),
        90..=97 => counted("Bright foreground color: ", (p - 90) as u32),
        100..=107 => counted("Bright background color: ", (p - 100) as u32),
        _ => counted("Unknown parameter: ", p as u32),
    }
}

fn set_mode_label_string(p: u16) -> (out: String)
    ensures
        out@ == set_mode_label(p),
{
    match p {
        1 => "Application cursor keys".to_string(),
        2 => "Designate US G0 character set".to_string(),
        3 => "132 column mode".to_string(),
        4 => "Smooth scroll".to_string(),
        6 => "Origin mode".to_string(),
        7 => "Auto-wrap mode".to_string(),
        12 => "Start blinking cursor".to_string(),
        20 => "Automatic newline".to_string(),
        25 => "Show cursor".to_string(),
        47 => "Use alternate screen buffer".to_string(),
        1000 => "Send mouse X/Y on button press and release".to_string(),
        1001 => "Use hilite mouse tracking".to_string(),
        1002 => "Use cell motion mouse tracking".to_string(),
        1003 => "Use all motion mouse tracking".to_string(),
        1004 => "Send focus events to tty".to_string(),
        1005 => "Enable UTF-8 mouse mode".to_string(),
        1006 => "Enable SGR mouse mode".to_string(),
        1007 => "Enable alternate scroll mode".to_string(),
        1049 => "Save cursor as in DECSC and use alternate screen buffer".to_string(),
        _ => counted("Unknown mode: ", p as u32),
    }
}

fn reset_mode_label_string(p: u16) -> (out: String)
    ensures
        out@ == reset_mode_label(p),
{
    match p {
        1 => "Normal cursor keys".to_string(),
        3 => "80 column mode".to_string(),
        4 => "Jump scroll".to_string(),
        6 => "Normal cursor mode".to_string(),
        7 => "No auto-wrap mode".to_string(),
        12 => "Stop blinking cursor".to_string(),
        20 => "No automatic newline".to_string(),
        25 => "Hide cursor".to_string(),
        47 => "Use normal screen buffer".to_string(),
        1000..=1003 => "Turn off mouse tracking".to_string(),
        1004 => "Don't send focus events to tty".to_string(),
        1005 => "Disable UTF-8 mouse mode".to_string(),
        1006 => "Disable SGR mouse mode".to_string(),
        1007 => "Disable alternate scroll mode".to_string(),
        1049 => "Use normal screen buffer and restore cursor as in DECRC".to_string(),
        _ => counted("Unknown mode: ", p as u32),
    }
}

fn graphics_description(params: &Vec<u8>) -> (out: String)
    ensures
        out@ == (CsiView::SetGraphicsMode(params@)).description_text(),
{
    if params.len() == 0 {
        return "Reset all attributes".to_string();
    }
    let mut labels: Vec<String> = Vec::new();
    let mut i: usize = 0;
    while i < params.len()
        invariant
            i <= params.len(),
            labels@.len() == i,
            forall|k: int| 0 <= k < i ==> (#[trigger] labels@[k])@ == graphics_label(params@[k]),
        decreases params.len() - i,
    {
        labels.push(graphics_label_string(params[i]));
        i += 1;
    }
    proof {
        assert(texts(labels@) =~= graphics_labels(params@));
    }
    let mut out = "Set mode: ".to_string();
    let list = join_strings(&labels, ", ");
    out.append(list.as_str());
    out
}

fn set_mode_description(params: &Vec<u16>) -> (out: String)
    ensures
        out@ == (CsiView::SetMode(params@)).description_text(),
{
    let mut labels: Vec<String> = Vec::new();
    let mut i: usize = 0;
    while i < params.len()
        invariant
            i <= params.len(),
            labels@.len() == i,
            forall|k: int| 0 <= k < i ==> (#[trigger] labels@[k])@ == set_mode_label(params@[k]),
        decreases params.len() - i,
    {
        labels.push(set_mode_label_string(params[i]));
        i += 1;
    }
    proof {
        assert(texts(labels@) =~= set_mode_labels(params@));
    }
    let mut out = "Set mode: ".to_string();
    let list = join_strings(&labels, ", ");
    out.append(list.as_str());
    out
}

fn reset_mode_description(params: &Vec<u16>) -> (out: String)
    ensures
        out@ == (CsiView::ResetMode(params@)).description_text(),
{
    let mut labels: Vec<String> = Vec::new();
    let mut i: usize = 0;
    while i < params.len()
        invariant
            i <= params.len(),
            labels@.len() == i,
            forall|k: int| 0 <= k < i ==> (#[trigger] labels@[k])@ == reset_mode_label(params@[k]),
        decreases params.len() - i,
    {
        labels.push(reset_mode_label_string(params[i]));
        i += 1;
    }
    proof {
        assert(texts(labels@) =~= reset_mode_labels(params@));
    }
    let mut out = "Reset mode: ".to_string();
    let list = join_strings(&labels, ", ");
    out.append(list.as_str());
    out
}

fn window_pair_string(params: &Vec<u16>, lead: &str, between: &str, close: &str, without: &str) -> (out:
    String)
    ensures
        out@ == window_pair_text(params@, lead@, between@, close@, without@),
{
    if params.len() >= 3 {
        paired(lead, params[1] as u32, between, params[2] as u32, close)
    } else {
        without.to_string()
    }
}

fn window_choice_string(
    params: &Vec<u16>,
    zero: &str,
    one: &str,
    two: &str,
    three: Option<&str>,
    other: &str,
    without: &str,
) -> (out: String)
    ensures
        out@ == window_choice_text(
            params@,
            zero@,
            one@,
            two@,
            match three {
                Some(t) => Some(t@),
                None => None,
            },
            other@,
            without@,
        ),
{
    if params.len() >= 2 {
        let sub: u16 = params[1];
        if sub == 0 {
            zero.to_string()
        } else if sub == 1 {
            one.to_string()
        } else if sub == 2 {
            two.to_string()
        } else {
            match three {
                Some(t) => if sub == 3 {
                    t.to_string()
                } else {
                    counted(other, sub as u32)
                },
                None => counted(other, sub as u32),
            }
        }
    } else {
        without.to_string()
    }
}

fn window_description(params: &Vec<u16>) -> (out: String)
    ensures
        out@ == window_text(params@),
{
    if params.len() == 0 {
        return "Unknown window manipulation".to_string();
    }
    let operation: u16 = params[0];
    match operation {
        1 => "De-iconify window".to_string(),
        2 => "Iconify window".to_string(),
        3 => window_pair_string(
            params,
            "Move window to (",
            ", ",
            ")",
            "Move window (incomplete parameters)",
        ),
        4 | 8 => window_pair_string(
            params,
            "Resize window to ",
            " rows, ",
            " columns",
            "Resize window (incomplete parameters)",
        ),
        5 => "Raise window to front".to_string(),
        6 => "Lower window to bottom".to_string(),
        7 => "Refresh window".to_string(),
        9 => window_choice_string(
            params,
            "Restore maximized window",
            "Maximize window",
            "Maximize window vertically",
            Some("Maximize window horizontally"),
            "Unknown window manipulation: ",
            "Maximize window (incomplete parameters)",
        ),
        10 => window_choice_string(
            params,
            "Undo full-screen mode",
            "Change to full-screen mode",
            "Toggle full-screen mode",
            None,
            "Unknown full-screen operation: ",
            "Full-screen manipulation (incomplete parameters)",
        ),
        11 => "Report window state".to_string(),
        13 => "Report window position".to_string(),
        14 => "Report window size in pixels".to_string(),
        18 => "Report window size in characters".to_string(),
        19 => "Report screen size in characters".to_string(),
        20 => "Report icon label".to_string(),
        21 => "Report window title".to_string(),
        22 => window_choice_string(
            params,
            "Save icon and window title",
            "Save icon title",
            "Save window title",
            None,
            "Unknown title saving operation: ",
            "Save window/icon title (incomplete parameters)",
        ),
        23 => window_choice_string(
            params,
            "Restore icon and window title",
            "Restore icon title",
            "Restore window title",
            None,
            "Unknown title restoring operation: ",
            "Restore window/icon title (incomplete parameters)",
        ),
        _ => counted("Unknown window manipulation code: ", operation as u32),
    }
}

impl CSI {
    /// Writes the command in its canonical escape notation.
    pub fn escape_repr(&self) -> (out: String)
        ensures
            out@ == self@.escape_text(),
    {
        match self {
            CSI::CursorUp(n) => numbered("\\x1b[", *n, "A"),
            CSI::CursorDown(n) => numbered("\\x1b[", *n, "B"),
            CSI::CursorForward(n) => numbered("\\x1b[", *n, "C"),
            CSI::CursorBackward(n) => numbered("\\x1b[", *n, "D"),
            CSI::CursorPosition(row, col) => paired("\\x1b[", *row, ";", *col, "H"),
            CSI::CursorSavePosition => "\\x1b[s".to_string(),
            CSI::CursorRestorePosition => "\\x1b[u".to_string(),
            CSI::CursorToColumn(n) => numbered("\\x1b[", *n, "G"),
            CSI::CursorNextLine(n) => numbered("\\x1b[", *n, "E"),
            CSI::CursorPreviousLine(n) => numbered("\\x1b[", *n, "F"),
            CSI::EraseInDisplay(n) => numbered("\\x1b[", *n as u32, "J"),
            CSI::EraseInLine(n) => numbered("\\x1b[", *n as u32, "K"),
            CSI::SetGraphicsMode(params) => {
                let mut out = "\\x1b[".to_string();
                push_decimals8(&mut out, params);
                out.append("m");
                out
            },
            CSI::SetForegroundColor(r, g, b) => triple("\\x1b[38;2;", *r, *g, *b, ";", "m"),
            CSI::SetBackgroundColor(r, g, b) => triple("\\x1b[48;2;", *r, *g, *b, ";", "m"),
            CSI::SetForegroundColor256(n) => numbered("\\x1b[38;5;", *n as u32, "m"),
            CSI::SetBackgroundColor256(n) => numbered("\\x1b[48;5;", *n as u32, "m"),
            CSI::ResetAttributes => "\\x1b[0m".to_string(),
            CSI::SetMode(params) => {
                let mut out = "\\x1b[".to_string();
                push_decimals16(&mut out, params);
                out.append("h");
                out
            },
            CSI::ResetMode(params) => {
                let mut out = "\\x1b[".to_string();
                push_decimals16(&mut out, params);
                out.append("l");
                out
            },
            CSI::ApplicationKeypadMode => "\\x1b=".to_string(),
            CSI::NumericKeypadMode => "\\x1b>".to_string(),
            CSI::SetG0SpecialChars => "\\x1b(0".to_string(),
            CSI::SetG0NormalChars => "\\x1b(B".to_string(),
            CSI::ScrollUp(n) => numbered("\\x1b[", *n, "S"),
            CSI::ScrollDown(n) => numbered("\\x1b[", *n, "T"),
            CSI::WindowManipulation(params) => {
                let mut out = "\\x1b[".to_string();
                push_decimals16(&mut out, params);
                out.append("t");
                out
            },
            CSI::DeviceStatusReport => "\\x1b[6n".to_string(),
            CSI::CursorPositionReport => "\\x1b[?6n".to_string(),
            CSI::Unknown(seq) => {
                let mut out = "\\x1b[".to_string();
                out.append(seq.as_str());
                out
            },
        }
    }

    /// Says in words what the command does.
    pub fn description(&self) -> (out: String)
        ensures
            out@ == self@.description_text(),
    {
        match self {
            CSI::CursorUp(n) => numbered("Move cursor up ", *n, " lines"),
            CSI::CursorDown(n) => numbered("Move cursor down ", *n, " lines"),
            CSI::CursorForward(n) => numbered("Move cursor forward ", *n, " columns"),
            CSI::CursorBackward(n) => numbered("Move cursor backward ", *n, " columns"),
            CSI::CursorPosition(row, col) => paired(
                "Move cursor to position (",
                *row,
                ", ",
                *col,
                ")",
            ),
            CSI::CursorSavePosition => "Save cursor position".to_string(),
            CSI::CursorRestorePosition => "Restore cursor position".to_string(),
            CSI::CursorToColumn(n) => counted("Move cursor to column ", *n),
            CSI::CursorNextLine(n) => numbered(
                "Move cursor to beginning of line ",
                *n,
                " lines down",
            ),
            CSI::CursorPreviousLine(n) => numbered(
                "Move cursor to beginning of line ",
                *n,
                " lines up",
            ),
            CSI::EraseInDisplay(n) => erase_display_string(*n),
            CSI::EraseInLine(n) => erase_line_string(*n),
            CSI::SetGraphicsMode(params) => graphics_description(params),
            CSI::SetForegroundColor(r, g, b) => triple(
                "Set foreground color to RGB(",
                *r,
                *g,
                *b,
                ",",
                ")",
            ),
            CSI::SetBackgroundColor(r, g, b) => triple(
                "Set background color to RGB(",
                *r,
                *g,
                *b,
                ",",
                ")",
            ),
            CSI::SetForegroundColor256(n) => counted(
                "Set foreground color to 256-color: ",
                *n as u32,
            ),
            CSI::SetBackgroundColor256(n) => counted(
                "Set background color to 256-color: ",
                *n as u32,
            ),
            CSI::ResetAttributes => "Reset all attributes".to_string(),
            CSI::SetMode(params) => set_mode_description(params),
            CSI::ResetMode(params) => reset_mode_description(params),
            CSI::ApplicationKeypadMode => "Application keypad mode".to_string(),
            CSI::NumericKeypadMode => "Numeric keypad mode".to_string(),
            CSI::SetG0SpecialChars => "Set G0 special chars mode".to_string(),
            CSI::SetG0NormalChars => "Set G0 normal chars mode".to_string(),
            CSI::ScrollUp(n) => numbered("Scroll up ", *n, " lines"),
            CSI::ScrollDown(n) => numbered("Scroll down ", *n, " lines"),
            CSI::WindowManipulation(params) => window_description(params),
            CSI::DeviceStatusReport => "Request cursor position".to_string(),
            CSI::CursorPositionReport => "Request extended cursor position".to_string(),
            CSI::Unknown(seq) => {
                let mut out = "Unknown CSI sequence: ".to_string();
                out.append(seq.as_str());
                out
            },
        }
    }
}

} // verus!
