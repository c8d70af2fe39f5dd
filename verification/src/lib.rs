//! Decoder for terminal control sequences.
//!
//! A byte stream is split into text runs, single control characters and
//! escape/CSI commands. Every element can be shown as its escape notation and
//! as a sentence that says what it does.

pub mod ansi;
pub mod formatter;
pub mod grammar;
pub mod output;
pub mod parser;
pub mod text;
pub mod theorems;
