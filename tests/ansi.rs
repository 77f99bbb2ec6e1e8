use alacritty_ansi::{
    parse_number, parse_rgb_color, Action, Attr, CharsetIndex, Color, CursorStyle, Event, Mode,
    NamedColor, Processor, ProcessorState, Rgb, StandardCharset,
};

fn run(bytes: &[u8]) -> Vec<Action> {
    let mut processor = Processor::new();
    let mut actions = Vec::new();
    for byte in bytes {
        actions.append(&mut processor.advance(*byte, 24));
    }
    actions
}

#[test]
fn parse_control_attribute() {
    let bytes: &[u8] = &[0x1b, 0x5b, 0x31, 0x6d];
    assert_eq!(run(bytes), vec![Action::TerminalAttribute(Attr::Bold)]);
}

#[test]
fn parse_truecolor_attr() {
    let bytes: &[u8] = &[
        0x1b, 0x5b, 0x33, 0x38, 0x3b, 0x32, 0x3b, 0x31, 0x32, 0x38, 0x3b, 0x36, 0x36, 0x3b, 0x32,
        0x35, 0x35, 0x6d,
    ];
    let spec = Rgb { r: 128, g: 66, b: 255 };
    assert_eq!(run(bytes), vec![Action::TerminalAttribute(Attr::Foreground(Color::Spec(spec)))]);
}

#[test]
fn parse_zsh_startup() {
    let bytes: &[u8] = &[
        0x1b, 0x5b, 0x31, 0x6d, 0x1b, 0x5b, 0x37, 0x6d, 0x25, 0x1b, 0x5b, 0x32, 0x37, 0x6d, 0x1b,
        0x5b, 0x31, 0x6d, 0x1b, 0x5b, 0x30, 0x6d, 0x20, 0x20, 0x20, 0x20, 0x20, 0x20, 0x20, 0x20,
        0x20, 0x20, 0x20, 0x20, 0x20, 0x20, 0x20, 0x20, 0x20, 0x20, 0x20, 0x20, 0x20, 0x20, 0x20,
        0x20, 0x20, 0x20, 0x20, 0x20, 0x20, 0x20, 0x20, 0x20, 0x20, 0x20, 0x20, 0x20, 0x20, 0x20,
        0x20, 0x20, 0x20, 0x20, 0x20, 0x20, 0x20, 0x20, 0x20, 0x20, 0x20, 0x20, 0x20, 0x20, 0x20,
        0x20, 0x20, 0x20, 0x20, 0x20, 0x20, 0x20, 0x20, 0x20, 0x20, 0x20, 0x20, 0x20, 0x20, 0x20,
        0x20, 0x20, 0x20, 0x20, 0x20, 0x20, 0x20, 0x20, 0x20, 0x20, 0x20, 0x0d, 0x20, 0x0d, 0x0d,
        0x1b, 0x5b, 0x30, 0x6d, 0x1b, 0x5b, 0x32, 0x37, 0x6d, 0x1b, 0x5b, 0x32, 0x34, 0x6d, 0x1b,
        0x5b, 0x4a, 0x6a, 0x77, 0x69, 0x6c, 0x6d, 0x40, 0x6a, 0x77, 0x69, 0x6c, 0x6d, 0x2d, 0x64,
        0x65, 0x73, 0x6b, 0x20, 0x1b, 0x5b, 0x30, 0x31, 0x3b, 0x33, 0x32, 0x6d, 0xe2, 0x9e, 0x9c,
        0x20, 0x1b, 0x5b, 0x30, 0x31, 0x3b, 0x33, 0x32, 0x6d, 0x20, 0x1b, 0x5b, 0x33, 0x36, 0x6d,
        0x7e, 0x2f, 0x63, 0x6f, 0x64, 0x65,
    ];
    let actions = run(bytes);
    assert_eq!(actions[0], Action::TerminalAttribute(Attr::Bold));
    assert_eq!(actions[1], Action::TerminalAttribute(Attr::Reverse));
    assert_eq!(actions[2], Action::Input('%'));
    assert!(actions.contains(&Action::Input('\u{279c}')));
    assert_eq!(actions.last(), Some(&Action::Input('e')));
}

#[test]
fn parse_designate_g0_as_line_drawing() {
    let bytes: &[u8] = &[0x1b, b'(', b'0'];
    assert_eq!(
        run(bytes),
        vec![Action::ConfigureCharset(
            CharsetIndex::G0,
            StandardCharset::SpecialCharacterAndLineDrawing
        )]
    );
}

#[test]
fn parse_designate_g1_as_line_drawing_and_invoke() {
    let bytes: &[u8] = &[0x1b, 0x29, 0x30, 0x0e];
    let mut processor = Processor::new();
    let mut actions = Vec::new();
    for byte in &bytes[..3] {
        actions.append(&mut processor.advance(*byte, 200));
    }
    assert_eq!(
        actions,
        vec![Action::ConfigureCharset(
            CharsetIndex::G1,
            StandardCharset::SpecialCharacterAndLineDrawing
        )]
    );
    assert_eq!(processor.advance(bytes[3], 200), vec![Action::SetActiveCharset(CharsetIndex::G1)]);
}

#[test]
fn parse_valid_rgb_color() {
    assert_eq!(parse_rgb_color(b"rgb:11/aa/ff"), Some(Rgb { r: 0x11, g: 0xaa, b: 0xff }));
}

#[test]
fn parse_valid_rgb_color2() {
    assert_eq!(parse_rgb_color(b"#11aaff"), Some(Rgb { r: 0x11, g: 0xaa, b: 0xff }));
}

#[test]
fn parse_invalid_number() {
    assert_eq!(parse_number(b"1abc"), None);
}

#[test]
fn parse_valid_number() {
    assert_eq!(parse_number(b"123"), Some(123));
}

#[test]
fn parse_number_too_large() {
    assert_eq!(parse_number(b"321"), None);
}

#[test]
fn parse_osc_title() {
    let bytes: &[u8] = &[0x1b, 0x5d, 0x30, 0x3b, 0x68, 0x69, 0x07];
    assert_eq!(run(bytes), vec![Action::SetTitle("hi".to_string())]);
}

#[test]
fn parse_cursor_home() {
    let bytes: &[u8] = &[0x1b, 0x5b, 0x48];
    assert_eq!(run(bytes), vec![Action::Goto(0, 0)]);
}

#[test]
fn parse_hide_cursor() {
    let bytes: &[u8] = &[0x1b, 0x5b, 0x3f, 0x32, 0x35, 0x6c];
    assert_eq!(run(bytes), vec![Action::UnsetMode(Mode::ShowCursor)]);
}

#[test]
fn parse_repeat_preceding_char() {
    let bytes: &[u8] = &[0x41, 0x1b, 0x5b, 0x33, 0x62];
    assert_eq!(run(bytes), vec![Action::Input('A'), Action::Repeat('A', 3)]);
}

#[test]
fn repeat_without_preceding_char_does_nothing() {
    assert_eq!(run(b"\x1b[3b"), vec![]);
    assert_eq!(run(b"A\x1bc\x1b[3b"), vec![Action::Input('A'), Action::ResetState]);
}

#[test]
fn cancel_aborts_only_the_sequence_in_progress() {
    // ESC [ 3 CAN A: the CSI is dropped, and what follows reads as from ground.
    assert_eq!(run(b"\x1b[3\x18A"), run(b"A"));
    assert_eq!(run(b"\x1b[3\x1a1m"), vec![Action::Substitute, Action::Input('1'), Action::Input('m')]);
}

#[test]
fn unterminated_sequence_dispatches_nothing() {
    let whole: &[u8] = b"\x1b[38;2;128;66;255m";
    for end in 0..whole.len() {
        assert_eq!(run(&whole[..end]), vec![]);
    }
    assert_eq!(run(b"\x1b]0;title"), vec![]);
}

#[test]
fn split_stream_gives_same_actions() {
    let stream: &[u8] = b"ab\x1b[1;31mc\x1b]2;x\x07\x1b[2b\r\n";
    let whole = run(stream);
    let mut processor = Processor::new();
    let mut pieces = Vec::new();
    for chunk in stream.chunks(3) {
        for byte in chunk {
            pieces.append(&mut processor.advance(*byte, 24));
        }
    }
    assert_eq!(pieces, whole);

    let events = vec![
        Event::Print('x'),
        Event::Csi { params: vec![2], intermediates: vec![], ignore: false, action: 'b' },
        Event::Execute(0x0d),
    ];
    let mut all = ProcessorState::new();
    let together = all.dispatch_all(&events, 24);
    let mut parts = ProcessorState::new();
    let mut apart = parts.dispatch_all(&events[..1].to_vec(), 24);
    apart.append(&mut parts.dispatch_all(&events[1..].to_vec(), 24));
    assert_eq!(together, apart);
    assert_eq!(together, vec![Action::Input('x'), Action::Repeat('x', 2), Action::CarriageReturn]);
}

#[test]
fn rgb_color_forms() {
    assert_eq!(parse_rgb_color(b"rgb:1/a/f"), Some(Rgb { r: 0x1, g: 0xa, b: 0xf }));
    assert_eq!(parse_rgb_color(b"rgb:AB/cd/0"), Some(Rgb { r: 0xab, g: 0xcd, b: 0x0 }));
    assert_eq!(parse_rgb_color(b"rgb:11/22"), None);
    assert_eq!(parse_rgb_color(b"rgb:111/22/33"), None);
    assert_eq!(parse_rgb_color(b"rgb:11/22/33/"), None);
    assert_eq!(parse_rgb_color(b"rgb:/22/33"), None);
    assert_eq!(parse_rgb_color(b"#11aaf"), None);
    assert_eq!(parse_rgb_color(b"#11aafg"), None);
    assert_eq!(parse_rgb_color(b"#11aaff0"), None);
    assert_eq!(parse_rgb_color(b"red"), None);
    assert_eq!(parse_rgb_color(b""), None);
}

#[test]
fn number_edges() {
    assert_eq!(parse_number(b""), None);
    assert_eq!(parse_number(b"0"), Some(0));
    assert_eq!(parse_number(b"255"), Some(255));
    assert_eq!(parse_number(b"256"), None);
    assert_eq!(parse_number(b"000000000000255"), Some(255));
    assert_eq!(parse_number(b"-1"), None);
}

#[test]
fn named_color_brightness() {
    assert_eq!(NamedColor::Red.to_bright(), NamedColor::BrightRed);
    assert_eq!(NamedColor::DimRed.to_bright(), NamedColor::Red);
    assert_eq!(NamedColor::BrightRed.to_bright(), NamedColor::BrightRed);
    assert_eq!(NamedColor::Foreground.to_bright(), NamedColor::BrightForeground);
    assert_eq!(NamedColor::Red.to_dim(), NamedColor::DimRed);
    assert_eq!(NamedColor::BrightRed.to_dim(), NamedColor::Red);
    assert_eq!(NamedColor::DimRed.to_dim(), NamedColor::DimRed);
    assert_eq!(NamedColor::Cursor.to_dim(), NamedColor::Cursor);
    assert_eq!(NamedColor::Foreground.index(), 256);
    assert_eq!(NamedColor::BrightWhite.index(), 15);
    assert_eq!(NamedColor::DimForeground.index(), 268);
}

#[test]
fn modes_by_number() {
    assert_eq!(Mode::from_primitive(true, 25), Some(Mode::ShowCursor));
    assert_eq!(Mode::from_primitive(true, 2004), Some(Mode::BracketedPaste));
    assert_eq!(Mode::from_primitive(false, 4), Some(Mode::Insert));
    assert_eq!(Mode::from_primitive(false, 20), Some(Mode::LineFeedNewLine));
    assert_eq!(Mode::from_primitive(false, 25), None);
    assert_eq!(Mode::from_primitive(true, 4), None);
    assert_eq!(Mode::from_primitive(true, 5), None);
}

#[test]
fn sgr_decoding() {
    assert_eq!(
        alacritty_ansi::attrs_from_sgr_parameters(&[1, 99, 38, 5, 17, 48, 2, 1, 2, 300, 4]),
        vec![
            Some(Attr::Bold),
            None,
            Some(Attr::Foreground(Color::Indexed(17))),
            None,
            Some(Attr::Underscore),
        ]
    );
    assert_eq!(
        alacritty_ansi::attrs_from_sgr_parameters(&[38, 7, 31, 97, 104, 39, 49]),
        vec![
            None,
            Some(Attr::Reverse),
            Some(Attr::Foreground(Color::Named(NamedColor::Red))),
            Some(Attr::Foreground(Color::Named(NamedColor::BrightWhite))),
            Some(Attr::Background(Color::Named(NamedColor::BrightBlue))),
            Some(Attr::Foreground(Color::Named(NamedColor::Foreground))),
            Some(Attr::Background(Color::Named(NamedColor::Background))),
        ]
    );
    assert_eq!(run(b"\x1b[m"), vec![Action::TerminalAttribute(Attr::Reset)]);
    assert_eq!(
        run(b"\x1b[1;99;3m"),
        vec![Action::TerminalAttribute(Attr::Bold), Action::TerminalAttribute(Attr::Italic)]
    );
}

#[test]
fn extended_color_parameters() {
    let mut i: usize = 0;
    assert_eq!(alacritty_ansi::parse_color(&[38, 2, 1, 2, 3], &mut i), Some(Color::Spec(Rgb { r: 1, g: 2, b: 3 })));
    assert_eq!(i, 4);
    let mut i: usize = 0;
    assert_eq!(alacritty_ansi::parse_color(&[38, 2, 1, 256, 3], &mut i), None);
    assert_eq!(i, 4);
    let mut i: usize = 0;
    assert_eq!(alacritty_ansi::parse_color(&[48, 5, -1], &mut i), None);
    assert_eq!(i, 2);
    let mut i: usize = 0;
    assert_eq!(alacritty_ansi::parse_color(&[48, 2, 1], &mut i), None);
    assert_eq!(i, 0);
    let mut i: usize = 1;
    assert_eq!(alacritty_ansi::parse_color(&[1, 48, 5, 200], &mut i), Some(Color::Indexed(200)));
    assert_eq!(i, 3);
}

#[test]
fn csi_commands() {
    assert_eq!(run(b"\x1b[5;10H"), vec![Action::Goto(4, 9)]);
    assert_eq!(run(b"\x1b[0;0f"), vec![Action::Goto(0, 0)]);
    assert_eq!(run(b"\x1b[7G"), vec![Action::GotoCol(6)]);
    assert_eq!(run(b"\x1b[d"), vec![Action::GotoLine(0)]);
    assert_eq!(run(b"\x1b[A\x1b[3B\x1b[2e"), vec![Action::MoveUp(1), Action::MoveDown(3), Action::MoveDown(2)]);
    assert_eq!(run(b"\x1b[4@\x1b[P\x1b[2X"), vec![Action::InsertBlank(4), Action::DeleteChars(1), Action::EraseChars(2)]);
    assert_eq!(run(b"\x1b[2J\x1b[3J\x1b[9J"), vec![
        Action::ClearScreen(alacritty_ansi::ClearMode::All),
        Action::ClearScreen(alacritty_ansi::ClearMode::Saved),
    ]);
    assert_eq!(run(b"\x1b[K\x1b[1K"), vec![
        Action::ClearLine(alacritty_ansi::LineClearMode::Right),
        Action::ClearLine(alacritty_ansi::LineClearMode::Left),
    ]);
    assert_eq!(run(b"\x1b[3g\x1b[g"), vec![
        Action::ClearTabs(alacritty_ansi::TabulationClearMode::All),
        Action::ClearTabs(alacritty_ansi::TabulationClearMode::Current),
    ]);
    assert_eq!(run(b"\x1b[r"), vec![Action::SetScrollingRegion(0, 24)]);
    assert_eq!(run(b"\x1b[3;10r"), vec![Action::SetScrollingRegion(2, 10)]);
    assert_eq!(run(b"\x1b[5n\x1b[c"), vec![Action::DeviceStatus(5), Action::IdentifyTerminal]);
    assert_eq!(run(b"\x1b[?1049;77;2004h"), vec![
        Action::SetMode(Mode::SwapScreenAndSetRestoreCursor),
        Action::SetMode(Mode::BracketedPaste),
    ]);
    assert_eq!(run(b"\x1b[4h\x1b[20l"), vec![Action::SetMode(Mode::Insert), Action::UnsetMode(Mode::LineFeedNewLine)]);
    assert_eq!(run(b"\x1b[5 q\x1b[ q\x1b[9 q"), vec![
        Action::SetCursorStyle(Some(CursorStyle::Beam)),
        Action::SetCursorStyle(None),
    ]);
    assert_eq!(run(b"\x1b[s\x1b[u\x1b[2I\x1b[Z"), vec![
        Action::SaveCursorPosition,
        Action::RestoreCursorPosition,
        Action::MoveForwardTabs(2),
        Action::MoveBackwardTabs(1),
    ]);
    assert_eq!(run(b"\x1b[!p\x1b[y"), vec![]);
}

#[test]
fn csi_dropped_or_doubly_marked_does_nothing() {
    let state = ProcessorState::new();
    assert_eq!(state.csi_dispatch(&[1], &[], true, 'm', 24), vec![]);
    assert_eq!(state.csi_dispatch(&[1], &[b'?', b'!'], false, 'h', 24), vec![]);
    assert_eq!(state.csi_dispatch(&[1], &[b'!'], false, 'h', 24), vec![]);
}

#[test]
fn control_bytes() {
    let state = ProcessorState::new();
    assert_eq!(state.execute(0x09), vec![Action::PutTab(1)]);
    assert_eq!(state.execute(0x08), vec![Action::Backspace]);
    assert_eq!(state.execute(0x0b), vec![Action::Linefeed]);
    assert_eq!(state.execute(0x07), vec![Action::Bell]);
    assert_eq!(state.execute(0x0f), vec![Action::SetActiveCharset(CharsetIndex::G0)]);
    assert_eq!(state.execute(0x85), vec![Action::Newline]);
    assert_eq!(state.execute(0x88), vec![Action::SetHorizontalTabstop]);
    assert_eq!(state.execute(0x9a), vec![Action::IdentifyTerminal]);
    assert_eq!(state.execute(0x00), vec![]);
}

#[test]
fn escape_sequences() {
    assert_eq!(run(b"\x1bE"), vec![Action::Linefeed, Action::CarriageReturn]);
    assert_eq!(run(b"\x1b#8\x1b8\x1b7"), vec![
        Action::Dectest,
        Action::RestoreCursorPosition,
        Action::SaveCursorPosition,
    ]);
    assert_eq!(run(b"\x1b+B\x1b*0"), vec![
        Action::ConfigureCharset(CharsetIndex::G3, StandardCharset::Ascii),
        Action::ConfigureCharset(CharsetIndex::G2, StandardCharset::SpecialCharacterAndLineDrawing),
    ]);
    assert_eq!(run(b"\x1b=\x1b>\x1bM\x1bD\x1bH"), vec![
        Action::SetKeypadApplicationMode,
        Action::UnsetKeypadApplicationMode,
        Action::ReverseIndex,
        Action::Linefeed,
        Action::SetHorizontalTabstop,
    ]);
    assert_eq!(run(b"\x1bB\x1bq"), vec![]);
}

#[test]
fn osc_colors() {
    assert_eq!(run(b"\x1b]4;1;#ff0000\x07"), vec![Action::SetColor(1, Rgb { r: 0xff, g: 0, b: 0 })]);
    assert_eq!(run(b"\x1b]4;x;#ff0000;2;rgb:0/1/2\x07"), vec![Action::SetColor(2, Rgb { r: 0, g: 1, b: 2 })]);
    assert_eq!(run(b"\x1b]4;1;#ff0000;2\x07"), vec![]);
    assert_eq!(run(b"\x1b]10;#010203;?;#040506;#070809\x07"), vec![
        Action::SetColor(256, Rgb { r: 1, g: 2, b: 3 }),
        Action::DynamicColorSequence(11, 257),
        Action::SetColor(258, Rgb { r: 4, g: 5, b: 6 }),
    ]);
    assert_eq!(run(b"\x1b]12;?\x07"), vec![Action::DynamicColorSequence(12, 258)]);
    assert_eq!(run(b"\x1b]104;3;x;7\x07"), vec![Action::ResetColor(3), Action::ResetColor(7)]);
    let all = run(b"\x1b]104\x07");
    assert_eq!(all.len(), 256);
    assert_eq!(all[255], Action::ResetColor(255));
    assert_eq!(run(b"\x1b]110\x07\x1b]111\x07\x1b]112\x07"), vec![
        Action::ResetColor(256),
        Action::ResetColor(257),
        Action::ResetColor(258),
    ]);
}

#[test]
fn osc_other_commands() {
    assert_eq!(run(b"\x1b]2;t\xc3\xa9\x07"), vec![Action::SetTitle("t\u{e9}".to_string())]);
    assert_eq!(run(b"\x1b]2;\xff\x07"), vec![]);
    assert_eq!(run(b"\x1b]1;icon\x07"), vec![]);
    assert_eq!(run(b"\x1b]50;CursorShape=1\x07"), vec![Action::SetCursorStyle(Some(CursorStyle::Beam))]);
    assert_eq!(run(b"\x1b]50;CursorShape=7\x07"), vec![]);
    assert_eq!(run(b"\x1b]52;c;aGk=\x07"), vec![Action::SetClipboard("hi".to_string())]);
    assert_eq!(run(b"\x1b]52;c;?\x07"), vec![]);
    assert_eq!(run(b"\x1b]52;c;!!\x07"), vec![]);
    assert_eq!(run(b"\x1b]52;c;/w==\x07"), vec![]);
    assert_eq!(run(b"\x1b]999;x\x07"), vec![]);
}

#[test]
fn cancel_event_changes_nothing() {
    let csi = Event::Csi { params: vec![2], intermediates: vec![], ignore: false, action: 'b' };
    let plain = vec![Event::Print('q'), csi.clone()];
    let with_can = vec![Event::Print('q'), Event::Execute(0x18), csi.clone()];
    let with_sub = vec![Event::Print('q'), Event::Execute(0x1a), csi];
    let expected = ProcessorState::new().dispatch_all(&plain, 24);
    assert_eq!(expected, vec![Action::Input('q'), Action::Repeat('q', 2)]);
    assert_eq!(ProcessorState::new().dispatch_all(&with_can, 24), expected);
    assert_eq!(
        ProcessorState::new().dispatch_all(&with_sub, 24),
        vec![Action::Input('q'), Action::Substitute, Action::Repeat('q', 2)]
    );
}
