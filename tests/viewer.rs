use hecto::buffer::Buffer;
use hecto::editor::{Editor, Event, Key, KeyInput};
use hecto::terminal::{clamp_coordinate, Position, Size, Terminal, MAX_COORDINATE};
use hecto::view::View;

fn press(key: Key) -> Event {
    Event::Key(KeyInput { key, control_only: false, press: true })
}

fn quit_chord() -> Event {
    Event::Key(KeyInput { key: Key::Char('x'), control_only: true, press: true })
}

fn size(width: usize, height: usize) -> Size {
    Size { height, width }
}

fn expected_frame(lines: &[&str], width: usize, height: usize) -> String {
    let mut out = String::new();
    for r in 0..height {
        out.push_str("\x1b[2K");
        if let Some(line) = lines.get(r) {
            out.push_str(line);
        } else if r == height / 3 {
            let banner = "hecto editor -- version 0.1.0";
            let padding = width.saturating_sub(banner.len()) / 2;
            let mut row = format!("~{}{}", " ".repeat(padding.saturating_sub(1)), banner);
            row.truncate(width);
            out.push_str(&row);
        } else {
            out.push('~');
        }
        if r + 1 < height {
            out.push_str("\r\n");
        }
    }
    out
}

#[test]
fn split_without_trailing_terminator_gives_three_lines() {
    let b = Buffer::from_text("a\nb\nc");
    assert_eq!(b.lines, vec!["a".to_string(), "b".to_string(), "c".to_string()]);
}

#[test]
fn split_with_trailing_terminator_gives_trailing_empty_line() {
    let b = Buffer::from_text("a\nb\nc\n");
    assert_eq!(b.lines.len(), 4);
    assert_eq!(b.lines[3], "");
    assert_eq!(b.lines[2], "c");
}

#[test]
fn split_of_empty_text_is_one_empty_line() {
    let b = Buffer::from_text("");
    assert_eq!(b.lines, vec![String::new()]);
    assert!(!b.is_empty());
}

#[test]
fn split_keeps_carriage_returns_and_unicode() {
    let b = Buffer::from_text("héllo\r\n\nwörld");
    assert_eq!(b.lines, vec!["héllo\r".to_string(), String::new(), "wörld".to_string()]);
}

#[test]
fn new_buffer_is_empty() {
    assert!(Buffer::new().is_empty());
}

#[test]
fn render_empty_buffer_24_by_40() {
    let view = View::new();
    let mut t = Terminal::new();
    view.render(&mut t, size(40, 24));
    let frame = t.execute();
    let rows: Vec<&str> = frame.split("\r\n").collect();
    assert_eq!(rows.len(), 24);
    for (r, row) in rows.iter().enumerate() {
        if r == 8 {
            assert_eq!(*row, "\x1b[2K~    hecto editor -- version 0.1.0");
        } else {
            assert_eq!(*row, "\x1b[2K~");
        }
    }
    assert_eq!(frame, expected_frame(&[], 40, 24));
}

#[test]
fn render_partial_buffer_mixes_text_and_markers() {
    let mut view = View::new();
    view.load("first\nsecond");
    let mut t = Terminal::new();
    view.render(&mut t, size(40, 6));
    assert_eq!(t.execute(), expected_frame(&["first", "second"], 40, 6));
}

#[test]
fn welcome_row_is_truncated_to_width() {
    let view = View::new();
    let mut t = Terminal::new();
    view.render(&mut t, size(10, 3));
    assert_eq!(t.execute(), "\x1b[2K~\r\n\x1b[2K~hecto edi\r\n\x1b[2K~");
}

#[test]
fn last_text_row_has_no_row_break() {
    let mut view = View::new();
    view.load("a\nb");
    let mut t = Terminal::new();
    view.render(&mut t, size(5, 2));
    assert_eq!(t.execute(), "\x1b[2Ka\r\n\x1b[2Kb");
}

#[test]
fn terminal_queues_escape_sequences() {
    let mut t = Terminal::new();
    t.clear_screen();
    t.clear_line();
    t.hide_cursor();
    t.show_cursor();
    t.move_cursor_to(Position { col: 3, row: 1 });
    t.move_cursor_to_right();
    t.move_cursor_to_left();
    t.move_cursor_to_down();
    t.move_cursor_to_up();
    t.print("hi");
    assert_eq!(
        t.execute(),
        "\x1b[2J\x1b[2K\x1b[?25l\x1b[?25h\x1b[2;4H\x1b[1C\x1b[1D\x1b[1B\x1b[1Ahi"
    );
    assert_eq!(t.execute(), "");
}

#[test]
fn initialize_clears_and_homes() {
    let mut t = Terminal::new();
    t.initialize();
    assert_eq!(t.execute(), "\x1b[2J\x1b[1;1H");
}

#[test]
fn cursor_placement_saturates() {
    assert_eq!(clamp_coordinate(7), 7);
    assert_eq!(clamp_coordinate(usize::MAX), MAX_COORDINATE);
    assert_eq!(clamp_coordinate(70000), 65534);
    let mut t = Terminal::new();
    t.move_cursor_to(Position { col: usize::MAX, row: 100_000 });
    assert_eq!(t.execute(), "\x1b[65535;65535H");
}

#[test]
fn size_from_terminal_keeps_dimensions() {
    let s = Size::from_terminal(80, 24);
    assert_eq!(s, size(80, 24));
}

#[test]
fn caret_stays_in_viewport_under_navigation() {
    let s = size(4, 3);
    let mut e = Editor::new();
    let keys = [
        Key::Down, Key::Down, Key::Down, Key::Down, Key::Right, Key::Right, Key::Right,
        Key::Right, Key::Right, Key::Up, Key::Left, Key::End, Key::PageDown, Key::Home,
        Key::PageUp, Key::Left, Key::Up,
    ];
    for k in keys {
        e.evaluate_event(press(k), s);
        assert!(e.caret.col < 4 && e.caret.row < 3);
    }
    assert_eq!(e.caret, Position { col: 0, row: 0 });
}

#[test]
fn caret_stays_in_single_cell_viewport() {
    let s = size(1, 1);
    let mut e = Editor::new();
    for k in [Key::Down, Key::Right, Key::End, Key::PageDown, Key::Up, Key::Left] {
        e.evaluate_event(press(k), s);
        assert_eq!(e.caret, Position { col: 0, row: 0 });
    }
}

#[test]
fn home_then_end_reaches_last_column() {
    let s = size(40, 24);
    let mut e = Editor::new();
    e.caret = Position { col: 17, row: 5 };
    e.move_point(Key::Home, s);
    assert_eq!(e.caret, Position { col: 0, row: 5 });
    e.move_point(Key::End, s);
    assert_eq!(e.caret, Position { col: 39, row: 5 });
}

#[test]
fn page_up_then_page_down_reaches_last_row() {
    let s = size(40, 24);
    let mut e = Editor::new();
    e.caret = Position { col: 3, row: 9 };
    e.move_point(Key::PageUp, s);
    assert_eq!(e.caret.row, 0);
    e.move_point(Key::PageDown, s);
    assert_eq!(e.caret, Position { col: 3, row: 23 });
}

#[test]
fn released_keys_and_other_events_do_nothing() {
    let s = size(10, 10);
    let mut e = Editor::new();
    e.evaluate_event(Event::Key(KeyInput { key: Key::Down, control_only: false, press: false }), s);
    e.evaluate_event(Event::Other, s);
    e.evaluate_event(press(Key::Char('x')), s);
    e.evaluate_event(Event::Key(KeyInput { key: Key::Char('x'), control_only: true, press: false }), s);
    e.evaluate_event(Event::Key(KeyInput { key: Key::Char('q'), control_only: true, press: true }), s);
    assert_eq!(e.caret, Position { col: 0, row: 0 });
    assert!(!e.should_quit);
}

#[test]
fn failed_load_leaves_buffer_and_keeps_running() {
    let mut e = Editor::new();
    e.load(None);
    assert!(e.view.buffer.is_empty());
    e.load(Some("one\ntwo"));
    assert_eq!(e.view.buffer.lines, vec!["one".to_string(), "two".to_string()]);
    e.load(None);
    assert_eq!(e.view.buffer.lines, vec!["one".to_string(), "two".to_string()]);
    let mut t = Terminal::new();
    assert!(e.run(&mut t, None, size(10, 4)));
    assert!(!e.should_quit);
}

#[test]
fn first_turn_paints_text_and_caret() {
    let mut e = Editor::new();
    let mut t = Terminal::new();
    assert!(e.run(&mut t, None, size(40, 24)));
    let expected = format!("\x1b[?25l\x1b[1;1H{}\x1b[1;1H\x1b[?25h", expected_frame(&[], 40, 24));
    assert_eq!(t.execute(), expected);
    assert!(e.run(&mut t, Some(press(Key::Right)), size(40, 24)));
    let expected = format!("\x1b[?25l\x1b[1;1H{}\x1b[1;2H\x1b[?25h", expected_frame(&[], 40, 24));
    assert_eq!(t.execute(), expected);
}

#[test]
fn quit_chord_shows_farewell_and_stops_reading() {
    let mut e = Editor::new();
    let mut t = Terminal::new();
    assert!(e.run(&mut t, None, size(40, 24)));
    t.execute();
    assert!(!e.run(&mut t, Some(quit_chord()), size(40, 24)));
    assert!(e.should_quit);
    assert_eq!(t.execute(), "\x1b[?25l\x1b[1;1H\x1b[2J\x1b[1;1HGoodbye.\r\n\x1b[?25h");
}

#[test]
fn turn_after_shrink_brings_caret_into_viewport() {
    let mut e = Editor::new();
    e.caret = Position { col: 30, row: 20 };
    let mut t = Terminal::new();
    assert!(e.run(&mut t, None, size(10, 5)));
    assert_eq!(e.caret, Position { col: 9, row: 4 });
    assert!(t.execute().ends_with("\x1b[5;10H\x1b[?25h"));
}

#[test]
fn up_and_left_from_outside_land_inside() {
    let s = size(10, 5);
    let mut e = Editor::new();
    e.caret = Position { col: 30, row: 20 };
    e.move_point(Key::Up, s);
    assert_eq!(e.caret, Position { col: 9, row: 4 });
    e.move_point(Key::Left, s);
    assert_eq!(e.caret, Position { col: 8, row: 4 });
    e.caret = Position { col: 30, row: 20 };
    e.move_point(Key::Left, s);
    assert_eq!(e.caret, Position { col: 9, row: 4 });
    e.caret = Position { col: 30, row: 20 };
    e.evaluate_event(press(Key::Home), s);
    assert_eq!(e.caret, Position { col: 0, row: 4 });
    e.caret = Position { col: 30, row: 20 };
    e.evaluate_event(press(Key::PageUp), s);
    assert_eq!(e.caret, Position { col: 9, row: 0 });
}

#[test]
fn other_key_leaves_caret_outside_untouched() {
    let mut e = Editor::new();
    e.caret = Position { col: 30, row: 20 };
    e.move_point(Key::Char('a'), size(10, 5));
    assert_eq!(e.caret, Position { col: 30, row: 20 });
}

#[test]
fn clamp_caret_keeps_caret_inside() {
    let mut e = Editor::new();
    e.caret = Position { col: 3, row: 2 };
    e.clamp_caret(size(10, 5));
    assert_eq!(e.caret, Position { col: 3, row: 2 });
    e.clamp_caret(size(0, 0));
    assert_eq!(e.caret, Position { col: 0, row: 0 });
}
