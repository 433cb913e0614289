use termcore::ansi::AnsiCommand;
use termcore::decode::AnsiParser;

fn decode_all(input: &str) -> Vec<AnsiCommand> {
    let mut p = AnsiParser::new();
    p.parse(input)
}

#[test]
fn resumable_at_every_split() {
    let sequences = [
        "\x1b[2J",
        "\x1b[31;1m",
        "\x1b[?1049h",
        "\x1b]0;title\x07",
        "\x1b]0;title\x1b\\",
        "\x1bPqabc\x1b\\",
    ];
    for seq in sequences {
        let whole = decode_all(seq);
        for i in 0..=seq.len() {
            let mut p = AnsiParser::new();
            let mut ops = p.parse(&seq[..i]);
            ops.extend(p.parse(&seq[i..]));
            assert_eq!(ops, whole, "split of {:?} at {}", seq, i);
        }
    }
}

#[test]
fn cursor_sequences() {
    assert_eq!(decode_all("\x1b[5A"), vec![AnsiCommand::CursorUp(5)]);
    assert_eq!(decode_all("\x1b[B"), vec![AnsiCommand::CursorDown(1)]);
    assert_eq!(decode_all("\x1b[3C"), vec![AnsiCommand::CursorRight(3)]);
    assert_eq!(decode_all("\x1b[2D"), vec![AnsiCommand::CursorLeft(2)]);
    assert_eq!(decode_all("\x1b[H"), vec![AnsiCommand::CursorPosition(1, 1)]);
    assert_eq!(decode_all("\x1b[7;9H"), vec![AnsiCommand::CursorPosition(7, 9)]);
    assert_eq!(decode_all("\x1b[4;2f"), vec![AnsiCommand::CursorPosition(4, 2)]);
    assert_eq!(decode_all("\x1b[s"), vec![AnsiCommand::CursorSave]);
    assert_eq!(decode_all("\x1b[u"), vec![AnsiCommand::CursorRestore]);
}

#[test]
fn erase_and_scroll_sequences() {
    assert_eq!(decode_all("\x1b[J"), vec![AnsiCommand::ClearFromCursor]);
    assert_eq!(decode_all("\x1b[1J"), vec![AnsiCommand::ClearToCursor]);
    assert_eq!(decode_all("\x1b[2J"), vec![AnsiCommand::ClearScreen]);
    assert_eq!(decode_all("\x1b[3J"), vec![AnsiCommand::ClearScreen]);
    assert_eq!(decode_all("\x1b[K"), vec![AnsiCommand::ClearToEndOfLine]);
    assert_eq!(decode_all("\x1b[1K"), vec![AnsiCommand::ClearToBeginningOfLine]);
    assert_eq!(decode_all("\x1b[2K"), vec![AnsiCommand::ClearLine]);
    assert_eq!(decode_all("\x1b[2S"), vec![AnsiCommand::ScrollUp(2)]);
    assert_eq!(decode_all("\x1b[T"), vec![AnsiCommand::ScrollDown(1)]);
    assert_eq!(decode_all("\x1b[r"), vec![AnsiCommand::SetScrollRegion(1, 24)]);
    assert_eq!(decode_all("\x1b[5;20r"), vec![AnsiCommand::SetScrollRegion(5, 20)]);
}

#[test]
fn mode_toggle_sequences() {
    assert_eq!(
        decode_all("\x1b[?1000h"),
        vec![AnsiCommand::EnableMouseReporting(termcore::ansi::MouseReportMode::Normal)]
    );
    assert_eq!(
        decode_all("\x1b[?1006l"),
        vec![AnsiCommand::DisableMouseReporting(termcore::ansi::MouseReportMode::SGR)]
    );
    assert_eq!(decode_all("\x1b[?1049h"), vec![AnsiCommand::EnterAlternateScreen]);
    assert_eq!(decode_all("\x1b[?47l"), vec![AnsiCommand::ExitAlternateScreen]);
    assert_eq!(decode_all("\x1b[?25h"), vec![AnsiCommand::ShowCursor]);
    assert_eq!(decode_all("\x1b[?25l"), vec![AnsiCommand::HideCursor]);
    assert_eq!(decode_all("\x1b[?2004h"), vec![AnsiCommand::EnableBracketedPaste]);
    assert_eq!(decode_all("\x1b[?1004l"), vec![AnsiCommand::DisableFocusEvents]);
    assert_eq!(decode_all("\x1b[?2026h"), vec![AnsiCommand::BeginSynchronizedUpdate]);
}

#[test]
fn unknown_sequences_are_preserved() {
    assert_eq!(
        decode_all("\x1b[9999J"),
        vec![AnsiCommand::Unknown("\x1b[9999J".to_string())]
    );
    assert_eq!(
        decode_all("\x1b[?77h"),
        vec![AnsiCommand::Unknown("\x1b[?77h".to_string())]
    );
    // An unknown sequence never aborts decoding of what follows.
    assert_eq!(
        decode_all("\x1b[9999Jok"),
        vec![
            AnsiCommand::Unknown("\x1b[9999J".to_string()),
            AnsiCommand::PrintText("ok".to_string())
        ]
    );
}

#[test]
fn malformed_parameters_fall_back_to_defaults() {
    // Unparsable (here empty) parameters are dropped, so the per-command
    // default holds.
    assert_eq!(decode_all("\x1b[;A"), vec![AnsiCommand::CursorUp(1)]);
    // A parameter too large for sixteen bits is dropped as well.
    assert_eq!(decode_all("\x1b[99999A"), vec![AnsiCommand::CursorUp(1)]);
    // The standard integer parser accepts a leading plus sign.
    assert_eq!(decode_all("\x1b[+5A"), vec![AnsiCommand::CursorUp(5)]);
    // Any letter ends a control sequence, so a stray one ends it early and
    // the remainder prints as text.
    assert_eq!(
        decode_all("\x1b[xA"),
        vec![
            AnsiCommand::Unknown("\x1b[x".to_string()),
            AnsiCommand::PrintText("A".to_string())
        ]
    );
}

#[test]
fn plain_control_characters() {
    assert_eq!(
        decode_all("a\rb"),
        vec![
            AnsiCommand::PrintText("a".to_string()),
            AnsiCommand::CursorColumn(1),
            AnsiCommand::PrintText("b".to_string())
        ]
    );
    assert_eq!(
        decode_all("x\n"),
        vec![AnsiCommand::PrintText("x".to_string()), AnsiCommand::CursorDown(1)]
    );
    assert_eq!(decode_all("\x07"), vec![AnsiCommand::Bell]);
    assert_eq!(decode_all("\t"), vec![AnsiCommand::CursorRight(8)]);
    assert_eq!(decode_all("\x08"), vec![AnsiCommand::CursorLeft(1)]);
}

#[test]
fn window_title_and_hyperlink() {
    assert_eq!(
        decode_all("\x1b]0;my title\x07"),
        vec![AnsiCommand::SetWindowTitle("my title".to_string())]
    );
    assert_eq!(
        decode_all("\x1b]2;other\x1b\\"),
        vec![AnsiCommand::SetWindowTitle("other".to_string())]
    );
    assert_eq!(
        decode_all("\x1b]1;icon\x07"),
        vec![AnsiCommand::SetIconTitle("icon".to_string())]
    );
    assert_eq!(
        decode_all("\x1b]8;;http://example.com\x07"),
        vec![AnsiCommand::SetHyperlink("http://example.com".to_string(), String::new())]
    );
}

#[test]
fn inline_image_payload_is_decoded() {
    // "aGk=" is the standard base64 encoding of "hi".
    match decode_all("\x1b]1337;File=aGk=\x07").as_slice() {
        [AnsiCommand::DisplayImage(img)] => {
            assert_eq!(img.format, "png");
            assert_eq!(img.data, b"hi".to_vec());
            assert_eq!(img.width, None);
            assert_eq!(img.height, None);
        }
        other => panic!("unexpected operations: {:?}", other),
    }
    // A payload that is not valid base64 stays an unknown sequence.
    assert_eq!(
        decode_all("\x1b]1337;File=!!\x07"),
        vec![AnsiCommand::Unknown("\x1b]1337;File=!!".to_string())]
    );
}

#[test]
fn device_control_strings() {
    assert_eq!(
        decode_all("\x1bPqabc\x1b\\"),
        vec![AnsiCommand::DisplaySixel(b"qabc".to_vec())]
    );
    assert_eq!(
        decode_all("\x1bPplain\x07"),
        vec![AnsiCommand::DeviceControlString("plain".to_string())]
    );
}

#[test]
fn text_buffer_persists_across_escape() {
    // Plain text before an escape sequence flushes as one print operation.
    assert_eq!(
        decode_all("hey\x1b[2J"),
        vec![AnsiCommand::PrintText("hey".to_string()), AnsiCommand::ClearScreen]
    );
    // An incomplete escape sequence stays buffered across calls.
    let mut p = AnsiParser::new();
    assert_eq!(p.parse("\x1b[3"), vec![]);
    assert_eq!(p.parse("1m"), vec![AnsiCommand::SetGraphicsMode(vec![31])]);
}

#[test]
fn attribute_reset_round_trip() {
    // The scenario from the graphics-attribute description: a color is set,
    // text prints, and a reset clears the color again.
    let mut p = AnsiParser::new();
    let ops = p.parse("\x1b[31mHello\x1b[0m");
    assert_eq!(
        ops,
        vec![
            AnsiCommand::SetGraphicsMode(vec![31]),
            AnsiCommand::PrintText("Hello".to_string()),
            AnsiCommand::SetGraphicsMode(vec![0])
        ]
    );
    p.apply_graphics_mode(&[31]);
    assert!(p.current_attributes().fg_color.is_some());
    p.apply_graphics_mode(&[0]);
    assert!(p.current_attributes().fg_color.is_none());
    assert!(!p.current_attributes().bold);
}

#[test]
fn graphics_mode_accumulates() {
    let mut p = AnsiParser::new();
    p.apply_graphics_mode(&[1, 4, 31, 44]);
    let a = p.current_attributes();
    assert!(a.bold);
    assert!(a.underline);
    let fg = a.fg_color.unwrap();
    assert_eq!((fg.r, fg.g, fg.b, fg.a), (255, 0, 0, 255));
    let bg = a.bg_color.unwrap();
    assert_eq!((bg.r, bg.g, bg.b, bg.a), (0, 0, 255, 255));
    p.apply_graphics_mode(&[22, 24, 39, 49]);
    let a = p.current_attributes();
    assert!(!a.bold);
    assert!(!a.underline);
    assert!(a.fg_color.is_none());
    assert!(a.bg_color.is_none());
}

#[test]
fn cursor_style_sequences() {
    assert_eq!(
        decode_all("\x1b[ q"),
        vec![AnsiCommand::SetCursorStyle(termcore::ansi::CursorStyle::BlinkingBlock)]
    );
}
