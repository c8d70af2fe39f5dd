use seqsee::ansi::csi::CSI;
use seqsee::ansi::ctrl::ControlCharacter;
use seqsee::ansi::AnsiElement;
use seqsee::formatter::{FormatAnsi, SingleLineFormatter};
use seqsee::output::process_input;
use seqsee::output::raw::RawFormatter;
use seqsee::output::table::TableFormatter;

fn sample() -> Vec<AnsiElement> {
    vec![
        AnsiElement::Text("hi".to_string()),
        AnsiElement::Csi(CSI::CursorUp(1)),
        AnsiElement::Ctrl(ControlCharacter::LineFeed),
    ]
}

#[test]
fn single_line_brackets_every_element() {
    assert_eq!(
        SingleLineFormatter.format(&sample()),
        "[Text 'hi': hi] [CSI '\\x1b[1A': Move cursor up 1 lines] [Ctrl '\\n': Line feed (new line)] "
    );
}

#[test]
fn single_line_of_nothing_is_empty() {
    assert_eq!(SingleLineFormatter.format(&[]), "");
}

#[test]
fn raw_without_colour_writes_escape_notation() {
    assert_eq!(RawFormatter::new(false).format(&sample()), "hi\\x1b[1A\\n");
}

#[test]
fn raw_with_colour_paints_commands_blue_and_control_characters_yellow() {
    assert_eq!(
        RawFormatter::new(true).format(&sample()),
        "hi\x1b[34m\\x1b[1A\x1b[0m\x1b[0m\x1b[33m\\n\x1b[0m\x1b[0m"
    );
}

#[test]
fn raw_leaves_text_unpainted() {
    let elements = vec![AnsiElement::Text("only text".to_string())];
    assert_eq!(RawFormatter::new(true).format(&elements), "only text");
    assert_eq!(RawFormatter::new(false).format(&elements), "only text");
}

#[test]
fn raw_of_nothing_is_empty() {
    assert_eq!(RawFormatter::new(true).format(&[]), "");
    assert_eq!(RawFormatter::new(false).format(&[]), "");
}

#[test]
fn raw_formatter_keeps_its_setting() {
    assert!(RawFormatter::new(true).colorize);
    assert!(!RawFormatter::new(false).colorize);
    assert!(RawFormatter::default().colorize);
}

#[test]
fn table_formatter_keeps_its_setting() {
    assert!(TableFormatter::new(true).colorize);
    assert!(!TableFormatter::new(false).colorize);
    assert!(TableFormatter::default().colorize);
}

#[test]
fn table_of_nothing_is_empty() {
    assert_eq!(TableFormatter::new(true).format(&[]), "");
    assert_eq!(TableFormatter::new(false).format(&[]), "");
}

#[test]
fn table_without_colour_has_a_head_and_a_row_for_each_element() {
    let expected = [
        " Type  Esc      Desc                   ",
        " Text  hi       hi                     ",
        " CSI   \\x1b[1A  Move cursor up 1 lines ",
        " Ctrl  \\n       Line feed (new line)   ",
    ];
    assert_eq!(TableFormatter::new(false).format(&sample()), expected.join("\n"));
}

#[test]
fn table_with_colour_paints_the_first_two_columns() {
    let out = TableFormatter::new(true).format(&sample());
    let lines: Vec<&str> = out.split('\n').collect();
    assert_eq!(lines.len(), 4);
    assert!(lines[0].starts_with(" Type "));
    assert!(lines[0].contains(" Esc "));
    assert!(lines[0].contains(" Desc "));
    assert!(lines[1].starts_with(" \x1b[90mText\x1b[0m\x1b[0m "));
    assert!(lines[1].contains(" \x1b[95mhi\x1b[0m\x1b[0m "));
    assert!(lines[2].starts_with(" \x1b[34m\x1b[1mCSI\x1b[0m\x1b[0m "));
    assert!(lines[2].contains(" \x1b[95m\\x1b[1A\x1b[0m\x1b[0m "));
    assert!(lines[2].contains(" Move cursor up 1 lines "));
    assert!(lines[3].starts_with(" \x1b[33m\x1b[1mCtrl\x1b[0m\x1b[0m "));
    assert!(lines[3].contains(" \x1b[95m\\n\x1b[0m\x1b[0m "));
    assert!(lines[3].contains(" Line feed (new line) "));
}

#[test]
fn table_columns_are_as_wide_as_their_widest_cell() {
    let elements = vec![AnsiElement::Csi(CSI::SetMode(vec![1049]))];
    let expected = [
        " Type  Esc         Desc                                                              ",
        " CSI   \\x1b[1049h  Set mode: Save cursor as in DECSC and use alternate screen buffer ",
    ];
    assert_eq!(TableFormatter::new(false).format(&elements), expected.join("\n"));
}

#[test]
fn process_input_writes_a_table_by_default() {
    let expected = [
        " Type  Esc      Desc           ",
        " Text  a        a              ",
        " CSI   \\x1b[1m  Set mode: Bold ",
        " Text  b        b              ",
    ];
    let out = process_input(b"a\\e[1mb", false, false);
    assert_eq!(out.ok(), Some(expected.join("\n")));
}

#[test]
fn process_input_writes_the_stream_when_raw_is_asked_for() {
    let plain = process_input(b"a\x1b[1mb\n", true, false);
    assert_eq!(plain.ok(), Some("a\\x1b[1mb\\n".to_string()));
    let painted = process_input(b"a\x1b[1mb\n", true, true);
    assert_eq!(
        painted.ok(),
        Some("a\x1b[34m\\x1b[1m\x1b[0m\x1b[0mb\x1b[33m\\n\x1b[0m\x1b[0m".to_string())
    );
}

#[test]
fn process_input_of_nothing_is_empty() {
    assert_eq!(process_input(b"", false, true).ok(), Some(String::new()));
    assert_eq!(process_input(b"", true, true).ok(), Some(String::new()));
}

#[test]
fn formatters_work_through_the_trait() {
    fn through(formatter: &dyn FormatAnsi, elements: &[AnsiElement]) -> String {
        formatter.format(elements)
    }
    let elements = vec![AnsiElement::Ctrl(ControlCharacter::Bell)];
    assert_eq!(through(&RawFormatter::new(false), &elements), "\\a");
    assert_eq!(through(&SingleLineFormatter, &elements), "[Ctrl '\\a': Bell (alert)] ");
    assert_eq!(
        through(&TableFormatter::new(false), &elements),
        " Type  Esc  Desc         \n Ctrl  \\a   Bell (alert) "
    );
}
