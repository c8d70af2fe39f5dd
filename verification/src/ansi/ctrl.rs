//! Single control characters.

use vstd::prelude::*;
use crate::text::{byte_char, hex_pair, push_hex_pair};

verus! {

/// A control byte that stands alone in the stream.
#[derive(Debug, Clone, Copy, PartialEq, Eq, Structural)]
pub enum ControlCharacter {
    Null,
    Bell,
    Backspace,
    Tab,
    LineFeed,
    VerticalTab,
    FormFeed,
    CarriageReturn,
    Escape,
    Delete,
    Other(u8),
}

impl ControlCharacter {
    /// The control character that a byte stands for, if it is one: the bytes
    /// below 0x20 and the byte 0x7F.
    pub open spec fn of_byte(byte: u8) -> Option<ControlCharacter> {
        if byte == 0x00 {
            Some(ControlCharacter::Null)
        } else if byte == 0x07 {
            Some(ControlCharacter::Bell)
        } else if byte == 0x08 {
            Some(ControlCharacter::Backspace)
        } else if byte == 0x09 {
            Some(ControlCharacter::Tab)
        } else if byte == 0x0A {
            Some(ControlCharacter::LineFeed)
        } else if byte == 0x0B {
            Some(ControlCharacter::VerticalTab)
        } else if byte == 0x0C {
            Some(ControlCharacter::FormFeed)
        } else if byte == 0x0D {
            Some(ControlCharacter::CarriageReturn)
        } else if byte == 0x1B {
            Some(ControlCharacter::Escape)
        } else if byte == 0x7F {
            Some(ControlCharacter::Delete)
        } else if byte < 0x20 {
            Some(ControlCharacter::Other(byte))
        } else {
            None
        }
    }

    /// The escape notation of the character.
    pub open spec fn escape_text(self) -> Seq<char> {
        match self {
            ControlCharacter::Null => "\\0"@,
            ControlCharacter::Bell => "\\a"@,
            ControlCharacter::Backspace => "\\b"@,
            ControlCharacter::Tab => "\\t"@,
            ControlCharacter::LineFeed => "\\n"@,
            ControlCharacter::VerticalTab => "\\v"@,
            ControlCharacter::FormFeed => "\\f"@,
            ControlCharacter::CarriageReturn => "\\r"@,
            ControlCharacter::Escape => "\\x1b"@,
            ControlCharacter::Delete => "\\x7F"@,
            ControlCharacter::Other(byte) => "\\x"@ + hex_pair(byte),
        }
    }

    /// What the character does, in words.
    pub open spec fn description_text(self) -> Seq<char> {
        match self {
            ControlCharacter::Null => "Null character"@,
            ControlCharacter::Bell => "Bell (alert)"@,
            ControlCharacter::Backspace => "Backspace"@,
            ControlCharacter::Tab => "Horizontal tab"@,
            ControlCharacter::LineFeed => "Line feed (new line)"@,
            ControlCharacter::VerticalTab => "Vertical tab"@,
            ControlCharacter::FormFeed => "Form feed (new page)"@,
            ControlCharacter::CarriageReturn => "Carriage return"@,
            ControlCharacter::Escape => "Escape character"@,
            ControlCharacter::Delete => "Delete character"@,
            ControlCharacter::Other(byte) => "Control character: 0x"@ + hex_pair(byte),
        }
    }

    /// Classifies one byte.
    pub fn from_byte(byte: u8) -> (found: Option<Self>)
        ensures
            found == Self::of_byte(byte),
    {
        match byte {
            0x00 => Some(ControlCharacter::Null),
            0x07 => Some(ControlCharacter::Bell),
            0x08 => Some(ControlCharacter::Backspace),
            0x09 => Some(ControlCharacter::Tab),
            0x0A => Some(ControlCharacter::LineFeed),
            0x0B => Some(ControlCharacter::VerticalTab),
            0x0C => Some(ControlCharacter::FormFeed),
            0x0D => Some(ControlCharacter::CarriageReturn),
            0x1B => Some(ControlCharacter::Escape),
            0x7F => Some(ControlCharacter::Delete),
            0x01..=0x06 | 0x0E..=0x1A | 0x1C..=0x1F => Some(ControlCharacter::Other(byte)),
            _ => None,
        }
    }

    /// Writes the character in escape notation.
    pub fn escape_repr(&self) -> (out: String)
        ensures
            out@ == self.escape_text(),
    {
        match self {
            ControlCharacter::Null => "\\0".to_string(),
            ControlCharacter::Bell => "\\a".to_string(),
            ControlCharacter::Backspace => "\\b".to_string(),
            ControlCharacter::Tab => "\\t".to_string(),
            ControlCharacter::LineFeed => "\\n".to_string(),
            ControlCharacter::VerticalTab => "\\v".to_string(),
            ControlCharacter::FormFeed => "\\f".to_string(),
            ControlCharacter::CarriageReturn => "\\r".to_string(),
            ControlCharacter::Escape => "\\x1b".to_string(),
            ControlCharacter::Delete => "\\x7F".to_string(),
            ControlCharacter::Other(byte) => {
                let mut out = "\\x".to_string();
                push_hex_pair(&mut out, *byte);
                out
            },
        }
    }

    /// Says in words what the character does.
    pub fn description(&self) -> (out: String)
        ensures
            out@ == self.description_text(),
    {
        match self {
            ControlCharacter::Null => "Null character".to_string(),
            ControlCharacter::Bell => "Bell (alert)".to_string(),
            ControlCharacter::Backspace => "Backspace".to_string(),
            ControlCharacter::Tab => "Horizontal tab".to_string(),
            ControlCharacter::LineFeed => "Line feed (new line)".to_string(),
            ControlCharacter::VerticalTab => "Vertical tab".to_string(),
            ControlCharacter::FormFeed => "Form feed (new page)".to_string(),
            ControlCharacter::CarriageReturn => "Carriage return".to_string(),
            ControlCharacter::Escape => "Escape character".to_string(),
            ControlCharacter::Delete => "Delete character".to_string(),
            ControlCharacter::Other(byte) => {
                let mut out = "Control character: 0x".to_string();
                push_hex_pair(&mut out, *byte);
                out
            },
        }
    }
}

} // verus!
