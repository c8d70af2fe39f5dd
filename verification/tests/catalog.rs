use seqsee::ansi::csi::CSI;
use seqsee::ansi::ctrl::ControlCharacter;
use seqsee::ansi::AnsiElement;

fn described(command: CSI) -> String {
    command.description()
}

fn escaped(command: CSI) -> String {
    command.escape_repr()
}

#[test]
fn control_characters_from_bytes() {
    assert_eq!(ControlCharacter::from_byte(0x00), Some(ControlCharacter::Null));
    assert_eq!(ControlCharacter::from_byte(0x07), Some(ControlCharacter::Bell));
    assert_eq!(ControlCharacter::from_byte(0x08), Some(ControlCharacter::Backspace));
    assert_eq!(ControlCharacter::from_byte(0x09), Some(ControlCharacter::Tab));
    assert_eq!(ControlCharacter::from_byte(0x0A), Some(ControlCharacter::LineFeed));
    assert_eq!(ControlCharacter::from_byte(0x0B), Some(ControlCharacter::VerticalTab));
    assert_eq!(ControlCharacter::from_byte(0x0C), Some(ControlCharacter::FormFeed));
    assert_eq!(ControlCharacter::from_byte(0x0D), Some(ControlCharacter::CarriageReturn));
    assert_eq!(ControlCharacter::from_byte(0x1B), Some(ControlCharacter::Escape));
    assert_eq!(ControlCharacter::from_byte(0x7F), Some(ControlCharacter::Delete));
}

#[test]
fn other_control_bytes_keep_their_number() {
    for byte in (0x01..=0x06u8).chain(0x0E..=0x1A).chain(0x1C..=0x1F) {
        assert_eq!(ControlCharacter::from_byte(byte), Some(ControlCharacter::Other(byte)));
    }
}

#[test]
fn bytes_from_space_on_are_no_control_characters() {
    for byte in 0x20..=0xFFu8 {
        if byte != 0x7F {
            assert_eq!(ControlCharacter::from_byte(byte), None);
        }
    }
}

#[test]
fn control_character_escape_notation() {
    assert_eq!(ControlCharacter::Null.escape_repr(), "\\0");
    assert_eq!(ControlCharacter::Bell.escape_repr(), "\\a");
    assert_eq!(ControlCharacter::Backspace.escape_repr(), "\\b");
    assert_eq!(ControlCharacter::Tab.escape_repr(), "\\t");
    assert_eq!(ControlCharacter::LineFeed.escape_repr(), "\\n");
    assert_eq!(ControlCharacter::VerticalTab.escape_repr(), "\\v");
    assert_eq!(ControlCharacter::FormFeed.escape_repr(), "\\f");
    assert_eq!(ControlCharacter::CarriageReturn.escape_repr(), "\\r");
    assert_eq!(ControlCharacter::Escape.escape_repr(), "\\x1b");
    assert_eq!(ControlCharacter::Delete.escape_repr(), "\\x7F");
}

#[test]
fn other_control_character_is_written_in_hex() {
    assert_eq!(ControlCharacter::Other(0x01).escape_repr(), "\\x01");
    assert_eq!(ControlCharacter::Other(0x1A).escape_repr(), "\\x1A");
    assert_eq!(ControlCharacter::Other(0x0E).escape_repr(), "\\x0E");
    assert_eq!(ControlCharacter::Other(0xFF).escape_repr(), "\\xFF");
    assert_eq!(ControlCharacter::Other(0x9C).escape_repr(), "\\x9C");
    assert_eq!(ControlCharacter::Other(0x1F).description(), "Control character: 0x1F");
    assert_eq!(ControlCharacter::Other(0x02).description(), "Control character: 0x02");
    assert_eq!(ControlCharacter::Other(0xA0).description(), "Control character: 0xA0");
}

#[test]
fn control_character_descriptions() {
    assert_eq!(ControlCharacter::Null.description(), "Null character");
    assert_eq!(ControlCharacter::Bell.description(), "Bell (alert)");
    assert_eq!(ControlCharacter::Backspace.description(), "Backspace");
    assert_eq!(ControlCharacter::Tab.description(), "Horizontal tab");
    assert_eq!(ControlCharacter::LineFeed.description(), "Line feed (new line)");
    assert_eq!(ControlCharacter::VerticalTab.description(), "Vertical tab");
    assert_eq!(ControlCharacter::FormFeed.description(), "Form feed (new page)");
    assert_eq!(ControlCharacter::CarriageReturn.description(), "Carriage return");
    assert_eq!(ControlCharacter::Escape.description(), "Escape character");
    assert_eq!(ControlCharacter::Delete.description(), "Delete character");
}

#[test]
fn cursor_commands_in_escape_notation() {
    assert_eq!(escaped(CSI::CursorUp(1)), "\\x1b[1A");
    assert_eq!(escaped(CSI::CursorDown(22)), "\\x1b[22B");
    assert_eq!(escaped(CSI::CursorForward(333)), "\\x1b[333C");
    assert_eq!(escaped(CSI::CursorBackward(0)), "\\x1b[0D");
    assert_eq!(escaped(CSI::CursorPosition(12, 40)), "\\x1b[12;40H");
    assert_eq!(escaped(CSI::CursorSavePosition), "\\x1b[s");
    assert_eq!(escaped(CSI::CursorRestorePosition), "\\x1b[u");
    assert_eq!(escaped(CSI::CursorToColumn(7)), "\\x1b[7G");
    assert_eq!(escaped(CSI::CursorNextLine(2)), "\\x1b[2E");
    assert_eq!(escaped(CSI::CursorPreviousLine(3)), "\\x1b[3F");
}

#[test]
fn largest_numbers_in_escape_notation() {
    assert_eq!(escaped(CSI::CursorUp(u32::MAX)), "\\x1b[4294967295A");
    assert_eq!(escaped(CSI::CursorUp(65535)), "\\x1b[65535A");
    assert_eq!(escaped(CSI::CursorUp(10)), "\\x1b[10A");
    assert_eq!(escaped(CSI::CursorUp(9)), "\\x1b[9A");
    assert_eq!(escaped(CSI::CursorUp(100)), "\\x1b[100A");
    assert_eq!(escaped(CSI::EraseInDisplay(255)), "\\x1b[255J");
}

#[test]
fn erase_and_scroll_in_escape_notation() {
    assert_eq!(escaped(CSI::EraseInDisplay(2)), "\\x1b[2J");
    assert_eq!(escaped(CSI::EraseInLine(0)), "\\x1b[0K");
    assert_eq!(escaped(CSI::ScrollUp(5)), "\\x1b[5S");
    assert_eq!(escaped(CSI::ScrollDown(6)), "\\x1b[6T");
}

#[test]
fn graphics_in_escape_notation() {
    assert_eq!(escaped(CSI::SetGraphicsMode(vec![1, 31, 42])), "\\x1b[1;31;42m");
    assert_eq!(escaped(CSI::SetGraphicsMode(vec![0])), "\\x1b[0m");
    assert_eq!(escaped(CSI::SetGraphicsMode(vec![])), "\\x1b[m");
    assert_eq!(escaped(CSI::SetForegroundColor(10, 20, 30)), "\\x1b[38;2;10;20;30m");
    assert_eq!(escaped(CSI::SetBackgroundColor(255, 0, 128)), "\\x1b[48;2;255;0;128m");
    assert_eq!(escaped(CSI::SetForegroundColor256(200)), "\\x1b[38;5;200m");
    assert_eq!(escaped(CSI::SetBackgroundColor256(7)), "\\x1b[48;5;7m");
    assert_eq!(escaped(CSI::ResetAttributes), "\\x1b[0m");
}

#[test]
fn modes_in_escape_notation() {
    assert_eq!(escaped(CSI::SetMode(vec![25])), "\\x1b[25h");
    assert_eq!(escaped(CSI::SetMode(vec![1000, 1006])), "\\x1b[1000;1006h");
    assert_eq!(escaped(CSI::ResetMode(vec![1049])), "\\x1b[1049l");
    assert_eq!(escaped(CSI::ResetMode(vec![])), "\\x1b[l");
    assert_eq!(escaped(CSI::WindowManipulation(vec![8, 24, 80])), "\\x1b[8;24;80t");
    assert_eq!(escaped(CSI::WindowManipulation(vec![65535, 0])), "\\x1b[65535;0t");
}

#[test]
fn short_escapes_in_escape_notation() {
    assert_eq!(escaped(CSI::ApplicationKeypadMode), "\\x1b=");
    assert_eq!(escaped(CSI::NumericKeypadMode), "\\x1b>");
    assert_eq!(escaped(CSI::SetG0SpecialChars), "\\x1b(0");
    assert_eq!(escaped(CSI::SetG0NormalChars), "\\x1b(B");
    assert_eq!(escaped(CSI::DeviceStatusReport), "\\x1b[6n");
    assert_eq!(escaped(CSI::CursorPositionReport), "\\x1b[?6n");
}

#[test]
fn unknown_in_escape_notation() {
    assert_eq!(escaped(CSI::Unknown("5;9q".to_string())), "\\x1b[5;9q");
    assert_eq!(escaped(CSI::Unknown(String::new())), "\\x1b[");
    assert_eq!(described(CSI::Unknown("5;9q".to_string())), "Unknown CSI sequence: 5;9q");
    assert_eq!(described(CSI::Unknown(String::new())), "Unknown CSI sequence: ");
}

#[test]
fn cursor_commands_described() {
    assert_eq!(described(CSI::CursorUp(1)), "Move cursor up 1 lines");
    assert_eq!(described(CSI::CursorDown(2)), "Move cursor down 2 lines");
    assert_eq!(described(CSI::CursorForward(3)), "Move cursor forward 3 columns");
    assert_eq!(described(CSI::CursorBackward(4)), "Move cursor backward 4 columns");
    assert_eq!(described(CSI::CursorPosition(5, 6)), "Move cursor to position (5, 6)");
    assert_eq!(described(CSI::CursorSavePosition), "Save cursor position");
    assert_eq!(described(CSI::CursorRestorePosition), "Restore cursor position");
    assert_eq!(described(CSI::CursorToColumn(7)), "Move cursor to column 7");
    assert_eq!(described(CSI::CursorNextLine(8)), "Move cursor to beginning of line 8 lines down");
    assert_eq!(
        described(CSI::CursorPreviousLine(9)),
        "Move cursor to beginning of line 9 lines up"
    );
    assert_eq!(described(CSI::ScrollUp(10)), "Scroll up 10 lines");
    assert_eq!(described(CSI::ScrollDown(11)), "Scroll down 11 lines");
}

#[test]
fn erase_commands_described() {
    assert_eq!(described(CSI::EraseInDisplay(0)), "Erase from cursor to end of screen");
    assert_eq!(described(CSI::EraseInDisplay(1)), "Erase from cursor to beginning of screen");
    assert_eq!(described(CSI::EraseInDisplay(2)), "Erase entire screen");
    assert_eq!(described(CSI::EraseInDisplay(3)), "Erase saved lines");
    assert_eq!(described(CSI::EraseInDisplay(4)), "Unknown erase display mode: 4");
    assert_eq!(described(CSI::EraseInDisplay(255)), "Unknown erase display mode: 255");
    assert_eq!(described(CSI::EraseInLine(0)), "Erase from cursor to end of line");
    assert_eq!(described(CSI::EraseInLine(1)), "Erase from cursor to beginning of line");
    assert_eq!(described(CSI::EraseInLine(2)), "Erase entire line");
    assert_eq!(described(CSI::EraseInLine(3)), "Unknown erase line mode: 3");
}

#[test]
fn graphics_parameters_described() {
    assert_eq!(described(CSI::SetGraphicsMode(vec![])), "Reset all attributes");
    assert_eq!(described(CSI::SetGraphicsMode(vec![0])), "Set mode: Reset all");
    assert_eq!(described(CSI::SetGraphicsMode(vec![1])), "Set mode: Bold");
    assert_eq!(
        described(CSI::SetGraphicsMode(vec![2, 3, 4, 5, 6, 7, 8, 9])),
        "Set mode: Faint, Italic, Underline, Slow blink, Rapid blink, Reverse, Conceal, Crossed-out"
    );
    assert_eq!(
        described(CSI::SetGraphicsMode(vec![21, 22, 23, 24, 25, 27, 28, 29])),
        "Set mode: Double underline, Normal intensity, Not italic, Not underlined, Not blinking, Not reversed, Reveal, Not crossed out"
    );
    assert_eq!(
        described(CSI::SetGraphicsMode(vec![38, 39, 48, 49])),
        "Set mode: Set foreground color, Reset foreground color, Set background color, Reset background color"
    );
}

#[test]
fn graphics_colours_described() {
    assert_eq!(
        described(CSI::SetGraphicsMode(vec![30, 37, 40, 47])),
        "Set mode: Foreground color: 0, Foreground color: 7, Background color: 0, Background color: 7"
    );
    assert_eq!(
        described(CSI::SetGraphicsMode(vec![90, 97, 100, 107])),
        "Set mode: Bright foreground color: 0, Bright foreground color: 7, Bright background color: 0, Bright background color: 7"
    );
    assert_eq!(described(CSI::SetGraphicsMode(vec![1, 31])), "Set mode: Bold, Foreground color: 1");
}

#[test]
fn graphics_parameters_outside_the_table() {
    assert_eq!(
        described(CSI::SetGraphicsMode(vec![10, 20, 26, 50, 89, 98, 99, 108, 255])),
        "Set mode: Unknown parameter: 10, Unknown parameter: 20, Unknown parameter: 26, Unknown parameter: 50, Unknown parameter: 89, Unknown parameter: 98, Unknown parameter: 99, Unknown parameter: 108, Unknown parameter: 255"
    );
}

#[test]
fn colours_described() {
    assert_eq!(
        described(CSI::SetForegroundColor(10, 20, 30)),
        "Set foreground color to RGB(10,20,30)"
    );
    assert_eq!(
        described(CSI::SetBackgroundColor(0, 255, 7)),
        "Set background color to RGB(0,255,7)"
    );
    assert_eq!(
        described(CSI::SetForegroundColor256(200)),
        "Set foreground color to 256-color: 200"
    );
    assert_eq!(described(CSI::SetBackgroundColor256(0)), "Set background color to 256-color: 0");
    assert_eq!(described(CSI::ResetAttributes), "Reset all attributes");
}

#[test]
fn set_modes_described() {
    let table: [(u16, &str); 19] = [
        (1, "Application cursor keys"),
        (2, "Designate US G0 character set"),
        (3, "132 column mode"),
        (4, "Smooth scroll"),
        (6, "Origin mode"),
        (7, "Auto-wrap mode"),
        (12, "Start blinking cursor"),
        (20, "Automatic newline"),
        (25, "Show cursor"),
        (47, "Use alternate screen buffer"),
        (1000, "Send mouse X/Y on button press and release"),
        (1001, "Use hilite mouse tracking"),
        (1002, "Use cell motion mouse tracking"),
        (1003, "Use all motion mouse tracking"),
        (1004, "Send focus events to tty"),
        (1005, "Enable UTF-8 mouse mode"),
        (1006, "Enable SGR mouse mode"),
        (1007, "Enable alternate scroll mode"),
        (1049, "Save cursor as in DECSC and use alternate screen buffer"),
    ];
    for (mode, name) in table {
        assert_eq!(described(CSI::SetMode(vec![mode])), format!("Set mode: {}", name));
    }
    assert_eq!(described(CSI::SetMode(vec![5])), "Set mode: Unknown mode: 5");
    assert_eq!(described(CSI::SetMode(vec![65535])), "Set mode: Unknown mode: 65535");
    assert_eq!(described(CSI::SetMode(vec![])), "Set mode: ");
    assert_eq!(
        described(CSI::SetMode(vec![25, 0, 1049])),
        "Set mode: Show cursor, Unknown mode: 0, Save cursor as in DECSC and use alternate screen buffer"
    );
}

#[test]
fn reset_modes_described() {
    let table: [(u16, &str); 18] = [
        (1, "Normal cursor keys"),
        (3, "80 column mode"),
        (4, "Jump scroll"),
        (6, "Normal cursor mode"),
        (7, "No auto-wrap mode"),
        (12, "Stop blinking cursor"),
        (20, "No automatic newline"),
        (25, "Hide cursor"),
        (47, "Use normal screen buffer"),
        (1000, "Turn off mouse tracking"),
        (1001, "Turn off mouse tracking"),
        (1002, "Turn off mouse tracking"),
        (1003, "Turn off mouse tracking"),
        (1004, "Don't send focus events to tty"),
        (1005, "Disable UTF-8 mouse mode"),
        (1006, "Disable SGR mouse mode"),
        (1007, "Disable alternate scroll mode"),
        (1049, "Use normal screen buffer and restore cursor as in DECRC"),
    ];
    for (mode, name) in table {
        assert_eq!(described(CSI::ResetMode(vec![mode])), format!("Reset mode: {}", name));
    }
    assert_eq!(described(CSI::ResetMode(vec![2])), "Reset mode: Unknown mode: 2");
    assert_eq!(described(CSI::ResetMode(vec![])), "Reset mode: ");
    assert_eq!(
        described(CSI::ResetMode(vec![25, 7])),
        "Reset mode: Hide cursor, No auto-wrap mode"
    );
}

#[test]
fn short_escapes_described() {
    assert_eq!(described(CSI::ApplicationKeypadMode), "Application keypad mode");
    assert_eq!(described(CSI::NumericKeypadMode), "Numeric keypad mode");
    assert_eq!(described(CSI::SetG0SpecialChars), "Set G0 special chars mode");
    assert_eq!(described(CSI::SetG0NormalChars), "Set G0 normal chars mode");
    assert_eq!(described(CSI::DeviceStatusReport), "Request cursor position");
    assert_eq!(described(CSI::CursorPositionReport), "Request extended cursor position");
}

#[test]
fn window_operations_described() {
    let table: [(u16, &str); 13] = [
        (1, "De-iconify window"),
        (2, "Iconify window"),
        (5, "Raise window to front"),
        (6, "Lower window to bottom"),
        (7, "Refresh window"),
        (11, "Report window state"),
        (13, "Report window position"),
        (14, "Report window size in pixels"),
        (18, "Report window size in characters"),
        (19, "Report screen size in characters"),
        (20, "Report icon label"),
        (21, "Report window title"),
        (12, "Unknown window manipulation code: 12"),
    ];
    for (operation, name) in table {
        assert_eq!(described(CSI::WindowManipulation(vec![operation])), name);
    }
    assert_eq!(described(CSI::WindowManipulation(vec![])), "Unknown window manipulation");
    assert_eq!(
        described(CSI::WindowManipulation(vec![0])),
        "Unknown window manipulation code: 0"
    );
    assert_eq!(
        described(CSI::WindowManipulation(vec![24, 1, 2])),
        "Unknown window manipulation code: 24"
    );
}

#[test]
fn window_operations_with_two_numbers() {
    assert_eq!(described(CSI::WindowManipulation(vec![3, 10, 20])), "Move window to (10, 20)");
    assert_eq!(
        described(CSI::WindowManipulation(vec![4, 600, 800])),
        "Resize window to 600 rows, 800 columns"
    );
    assert_eq!(
        described(CSI::WindowManipulation(vec![8, 24, 80])),
        "Resize window to 24 rows, 80 columns"
    );
    assert_eq!(
        described(CSI::WindowManipulation(vec![8, 24, 80, 1])),
        "Resize window to 24 rows, 80 columns"
    );
}

#[test]
fn window_operations_with_missing_numbers() {
    assert_eq!(
        described(CSI::WindowManipulation(vec![3])),
        "Move window (incomplete parameters)"
    );
    assert_eq!(
        described(CSI::WindowManipulation(vec![3, 1])),
        "Move window (incomplete parameters)"
    );
    assert_eq!(
        described(CSI::WindowManipulation(vec![4, 1])),
        "Resize window (incomplete parameters)"
    );
    assert_eq!(
        described(CSI::WindowManipulation(vec![8])),
        "Resize window (incomplete parameters)"
    );
    assert_eq!(
        described(CSI::WindowManipulation(vec![9])),
        "Maximize window (incomplete parameters)"
    );
    assert_eq!(
        described(CSI::WindowManipulation(vec![10])),
        "Full-screen manipulation (incomplete parameters)"
    );
    assert_eq!(
        described(CSI::WindowManipulation(vec![22])),
        "Save window/icon title (incomplete parameters)"
    );
    assert_eq!(
        described(CSI::WindowManipulation(vec![23])),
        "Restore window/icon title (incomplete parameters)"
    );
}

#[test]
fn window_operations_with_a_sub_code() {
    assert_eq!(described(CSI::WindowManipulation(vec![9, 0])), "Restore maximized window");
    assert_eq!(described(CSI::WindowManipulation(vec![9, 1])), "Maximize window");
    assert_eq!(described(CSI::WindowManipulation(vec![9, 2])), "Maximize window vertically");
    assert_eq!(described(CSI::WindowManipulation(vec![9, 3])), "Maximize window horizontally");
    assert_eq!(described(CSI::WindowManipulation(vec![9, 4])), "Unknown window manipulation: 4");
    assert_eq!(described(CSI::WindowManipulation(vec![10, 0])), "Undo full-screen mode");
    assert_eq!(described(CSI::WindowManipulation(vec![10, 1])), "Change to full-screen mode");
    assert_eq!(described(CSI::WindowManipulation(vec![10, 2])), "Toggle full-screen mode");
    assert_eq!(
        described(CSI::WindowManipulation(vec![10, 3])),
        "Unknown full-screen operation: 3"
    );
    assert_eq!(described(CSI::WindowManipulation(vec![22, 0])), "Save icon and window title");
    assert_eq!(described(CSI::WindowManipulation(vec![22, 1])), "Save icon title");
    assert_eq!(described(CSI::WindowManipulation(vec![22, 2])), "Save window title");
    assert_eq!(
        described(CSI::WindowManipulation(vec![22, 3])),
        "Unknown title saving operation: 3"
    );
    assert_eq!(described(CSI::WindowManipulation(vec![23, 0])), "Restore icon and window title");
    assert_eq!(described(CSI::WindowManipulation(vec![23, 1])), "Restore icon title");
    assert_eq!(described(CSI::WindowManipulation(vec![23, 2])), "Restore window title");
    assert_eq!(
        described(CSI::WindowManipulation(vec![23, 9])),
        "Unknown title restoring operation: 9"
    );
}

#[test]
fn element_categories() {
    assert_eq!(AnsiElement::Text("x".to_string()).element_type(), "Text");
    assert_eq!(AnsiElement::Csi(CSI::ResetAttributes).element_type(), "CSI");
    assert_eq!(AnsiElement::Ctrl(ControlCharacter::Bell).element_type(), "Ctrl");
}

#[test]
fn text_element_stands_for_itself() {
    let element = AnsiElement::Text("plain text".to_string());
    assert_eq!(element.escape_repr(), "plain text");
    assert_eq!(element.description(), "plain text");
}

#[test]
fn element_hands_on_to_its_content() {
    let command = AnsiElement::Csi(CSI::CursorPosition(3, 4));
    assert_eq!(command.escape_repr(), "\\x1b[3;4H");
    assert_eq!(command.description(), "Move cursor to position (3, 4)");
    let character = AnsiElement::Ctrl(ControlCharacter::Tab);
    assert_eq!(character.escape_repr(), "\\t");
    assert_eq!(character.description(), "Horizontal tab");
}

#[test]
fn every_command_is_described_and_escaped() {
    let commands = vec![
        CSI::CursorUp(0),
        CSI::CursorDown(0),
        CSI::CursorForward(0),
        CSI::CursorBackward(0),
        CSI::CursorPosition(0, 0),
        CSI::CursorSavePosition,
        CSI::CursorRestorePosition,
        CSI::CursorToColumn(0),
        CSI::CursorNextLine(0),
        CSI::CursorPreviousLine(0),
        CSI::EraseInDisplay(200),
        CSI::EraseInLine(200),
        CSI::SetGraphicsMode(vec![200]),
        CSI::SetForegroundColor(0, 0, 0),
        CSI::SetBackgroundColor(0, 0, 0),
        CSI::SetForegroundColor256(0),
        CSI::SetBackgroundColor256(0),
        CSI::ResetAttributes,
        CSI::SetMode(vec![9999]),
        CSI::ResetMode(vec![9999]),
        CSI::ApplicationKeypadMode,
        CSI::NumericKeypadMode,
        CSI::SetG0SpecialChars,
        CSI::SetG0NormalChars,
        CSI::ScrollUp(0),
        CSI::ScrollDown(0),
        CSI::WindowManipulation(vec![9999]),
        CSI::DeviceStatusReport,
        CSI::CursorPositionReport,
        CSI::Unknown("?".to_string()),
    ];
    for command in commands {
        assert!(!command.description().is_empty());
        assert!(command.escape_repr().starts_with("\\x1b"));
    }
}
