//! The two ways of showing a decoded stream, and the choice between them.

use vstd::prelude::*;
use crate::formatter::FormatAnsi;
use crate::grammar::decoded;
use crate::output::raw::{raw_text, RawFormatter};
use crate::output::table::{table_text, TableFormatter};
use crate::parser::{AnsiParser, ParserError};

pub mod paint;
pub mod raw;
pub mod table;

verus! {

/// Decodes the input and writes it out: with `raw` set, as the stream itself
/// with its sequences in escape notation; otherwise as a table. `colorize`
/// asks for colour in either.
pub fn process_input(input: &[u8], raw: bool, colorize: bool) -> (result: Result<
    String,
    ParserError,
>)
    ensures
        result is Ok,
        result->Ok_0@ == if raw {
            raw_text(decoded(input@), colorize)
        } else {
            table_text(decoded(input@), colorize)
        },
{
    let elements = match AnsiParser::parse(input) {
        Ok(elements) => elements,
        Err(error) => {
            return Err(error);
        },
    };
    let output = if raw {
        let formatter = RawFormatter::new(colorize);
        formatter.format(elements.as_slice())
    } else {
        let formatter = TableFormatter::new(colorize);
        formatter.format(elements.as_slice())
    };
    Ok(output)
}

} // verus!
