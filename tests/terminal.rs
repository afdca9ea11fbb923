use rust_stuff_term::events::PointerPacket;
use rust_stuff_term::task::term::CharacterStream;
use rust_stuff_term::term::{EscapeChar, Key, Term, TermInput, VirtualTerminals};
use rust_stuff_term::textbuffer::{BufferLine, Textbuffer};
use rust_stuff_term::writer::{Writer, WriterMode};
use futures_util::task::noop_waker;

fn text(line: &BufferLine) -> String {
    line.chars.iter().map(|c| c.character).collect()
}

fn setup() -> (Term, Writer, Textbuffer) {
    (Term::new(), Writer::new(), Textbuffer::new())
}

fn visible(term: &Term, width: usize, height: usize) -> bool {
    let (row, col) = term.cursor();
    let (sr, sc) = term.viewport();
    sr <= row && row < sr + height && sc <= col && col < sc + width
}

#[test]
fn narrow_console_scrolls_sideways_and_feeds_lines() {
    let mut term = Term::with_geometry(4, 25, 640, 480);
    let mut writer = Writer::new();
    let log = Textbuffer::new();
    term.write_string("ABCDE", &mut writer, &log);
    assert_eq!(term.viewport(), (0, 2));
    term.write_byte(b'\n', &mut writer, &log);
    assert_eq!(term.cursor(), (1, 0));
    assert_eq!(term.viewport(), (0, 0));
    let console = term.console();
    assert_eq!(console.lines.len(), 2);
    assert_eq!(text(&console.lines[0]), "ABCDE");
    assert_eq!(text(&console.lines[1]), "");
}

#[test]
fn pointer_is_clamped_to_its_area() {
    let mut term = Term::with_geometry(80, 25, 100, 100);
    let mut writer = Writer::new();
    let log = Textbuffer::new();
    term.write_byte(VirtualTerminals::GUI.code(), &mut writer, &log);
    assert_eq!(writer.mode(), WriterMode::Graphics);
    // Device offsets point up; (10, -10) moves the pointer to (10, 10) on screen.
    term.update_mouse(10, -10, &mut writer);
    assert_eq!(term.mouse_pos(), (10, 10));
    // Screen offsets (+5, +3), then (-20, 0).
    term.update_mouse(5, -3, &mut writer);
    term.update_mouse(-20, 0, &mut writer);
    assert_eq!(term.mouse_pos(), (0, 13));
    term.update_mouse(1000, -1000, &mut writer);
    assert_eq!(term.mouse_pos(), (99, 99));
    term.update_mouse(isize::MIN, isize::MIN, &mut writer);
    assert_eq!(term.mouse_pos(), (0, 99));
}

#[test]
fn pointer_is_ignored_outside_the_graphical_terminal() {
    let (mut term, mut writer, _log) = setup();
    term.update_mouse(30, -30, &mut writer);
    assert_eq!(term.mouse_pos(), (0, 0));
}

#[test]
fn line_feeds_add_one_row_each() {
    let (mut term, mut writer, log) = setup();
    term.write_string("abc", &mut writer, &log);
    for k in 1..=40 {
        term.write_byte(b'\n', &mut writer, &log);
        assert_eq!(term.console().lines.len(), 1 + k);
        assert!(visible(&term, 80, 25));
    }
    assert_eq!(term.viewport(), (16, 0));
}

#[test]
fn scroll_end_brings_the_cursor_back() {
    let (mut term, mut writer, log) = setup();
    for _ in 0..30 {
        term.write_byte(b'\n', &mut writer, &log);
    }
    term.write_byte(EscapeChar::ScrollHome.code(), &mut writer, &log);
    assert_eq!(term.viewport(), (0, 0));
    assert!(!visible(&term, 80, 25));
    term.write_byte(EscapeChar::ScrollEnd.code(), &mut writer, &log);
    assert_eq!(term.viewport(), (6, 0));
    assert!(visible(&term, 80, 25));
}

#[test]
fn scroll_escapes_move_the_viewport() {
    let (mut term, mut writer, log) = setup();
    term.write_byte(EscapeChar::ScrollUp.code(), &mut writer, &log);
    assert_eq!(term.viewport(), (0, 0));
    term.write_byte(EscapeChar::ScrollDown.code(), &mut writer, &log);
    term.write_byte(EscapeChar::ScrollDown.code(), &mut writer, &log);
    assert_eq!(term.viewport(), (2, 0));
    term.write_byte(EscapeChar::ScrollRight.code(), &mut writer, &log);
    assert_eq!(term.viewport(), (2, 10));
    term.write_byte(EscapeChar::ScrollLeft.code(), &mut writer, &log);
    term.write_byte(EscapeChar::ScrollLeft.code(), &mut writer, &log);
    assert_eq!(term.viewport(), (2, 0));
    term.write_byte(EscapeChar::ScrollUp.code(), &mut writer, &log);
    assert_eq!(term.viewport(), (1, 0));
}

#[test]
fn typing_after_scrolling_away_refocuses() {
    let (mut term, mut writer, log) = setup();
    for _ in 0..30 {
        term.write_byte(b'\n', &mut writer, &log);
    }
    term.write_byte(EscapeChar::ScrollHome.code(), &mut writer, &log);
    term.write_byte(b'x', &mut writer, &log);
    assert_eq!(term.viewport(), (6, 0));
    assert_eq!(term.cursor(), (30, 1));
    assert_eq!(writer.cursor(), (1, 24));
    assert_eq!(writer.cell(24, 0).ascii_character, b'x');
}

#[test]
fn other_terminals_leave_the_console_alone() {
    let (mut term, mut writer, mut log) = setup();
    log.write_string("log line");
    term.write_string("mine", &mut writer, &log);
    term.write_byte(VirtualTerminals::KernelLog.code(), &mut writer, &log);
    assert_eq!(term.active_term(), VirtualTerminals::KernelLog);
    assert_eq!(term.cursor(), (0, 8));
    assert_eq!(writer.cell(0, 0).ascii_character, b'l');
    term.write_string("typed\n", &mut writer, &log);
    assert_eq!(term.console().lines.len(), 1);
    assert_eq!(text(&term.console().lines[0]), "mine");
    term.write_byte(VirtualTerminals::Console.code(), &mut writer, &log);
    assert_eq!(term.cursor(), (0, 4));
    assert_eq!(writer.cell(0, 0).ascii_character, b'm');
    assert_eq!(writer.cursor(), (4, 0));
}

#[test]
fn null_repaints_and_backspace_is_ignored() {
    let (mut term, mut writer, log) = setup();
    term.write_string("ab", &mut writer, &log);
    writer.clear();
    term.write_byte(0x08, &mut writer, &log);
    assert_eq!(writer.cell(0, 0).ascii_character, b' ');
    assert_eq!(text(&term.console().lines[0]), "ab");
    term.write_byte(0x00, &mut writer, &log);
    assert_eq!(writer.cell(0, 1).ascii_character, b'b');
}

#[test]
fn screen_test_shows_the_pattern() {
    let (mut term, mut writer, log) = setup();
    term.set_banner(b"build 1\n".to_vec());
    term.write_string("hello", &mut writer, &log);
    term.write_byte(VirtualTerminals::ScreenTest.code(), &mut writer, &log);
    assert_eq!(term.cursor(), (0, 0));
    assert_eq!(term.viewport(), (0, 0));
    assert_eq!(writer.cell(0, 0).ascii_character, b'b');
    assert_eq!(writer.cell(2, 0).ascii_character, 0);
    assert_eq!(writer.cell(2, 1).ascii_character, 1);
    term.write_byte(b'z', &mut writer, &log);
    assert_eq!(text(&term.console().lines[0]), "hello");
    term.write_byte(VirtualTerminals::Console.code(), &mut writer, &log);
    assert_eq!(term.cursor(), (0, 5));
}

#[test]
fn gui_switches_to_pixel_mode_and_shows_the_window() {
    let (mut term, mut writer, log) = setup();
    term.change_focus(VirtualTerminals::GUI, &mut writer, &log);
    assert_eq!(writer.mode(), WriterMode::Graphics);
    term.change_focus(VirtualTerminals::Unknown, &mut writer, &log);
    assert_eq!(term.active_term(), VirtualTerminals::GUI);
    term.change_focus(VirtualTerminals::Console, &mut writer, &log);
    assert_eq!(writer.mode(), WriterMode::Text);
}

#[test]
fn control_bytes_decode() {
    assert_eq!(VirtualTerminals::from_byte(0xF0), VirtualTerminals::KernelLog);
    assert_eq!(VirtualTerminals::from_byte(0xF3), VirtualTerminals::ScreenTest);
    assert_eq!(VirtualTerminals::from_byte(0xF4), VirtualTerminals::Unknown);
    assert_eq!(VirtualTerminals::from_byte(b'a'), VirtualTerminals::Unknown);
    assert_eq!(EscapeChar::from_byte(4), EscapeChar::ScrollEnd);
    assert_eq!(EscapeChar::from_byte(0), EscapeChar::Null);
    assert_eq!(EscapeChar::from_byte(9), EscapeChar::Null);
    assert_eq!(EscapeChar::ScrollLeft.code(), 6);
    assert_eq!(VirtualTerminals::from(0xF2u8), VirtualTerminals::GUI);
    assert_eq!(EscapeChar::from(3u8), EscapeChar::ScrollHome);
    assert_eq!(EscapeChar::from(0x41u8), EscapeChar::Null);
}

#[test]
fn keys_become_terminal_input() {
    let waker = noop_waker();
    let input = TermInput::new();
    let mut stream = CharacterStream::new();
    assert!(input.update(&mut stream, Key::ArrowUp));
    assert!(input.update(&mut stream, Key::F1));
    assert!(input.update(&mut stream, Key::Unicode('q')));
    assert!(input.update(&mut stream, Key::Raw(0x41)));
    assert_eq!(stream.poll_next(&waker), Some('\u{1}'));
    assert_eq!(stream.poll_next(&waker), Some('\u{f0}'));
    assert_eq!(stream.poll_next(&waker), Some('q'));
    assert_eq!(stream.poll_next(&waker), Some('A'));
    assert_eq!(TermInput::key_char(Key::F12), '\u{f3}');
}

#[test]
fn pointer_packets_reach_the_terminal() {
    let (mut term, mut writer, log) = setup();
    term.change_focus(VirtualTerminals::GUI, &mut writer, &log);
    let input = TermInput::new();
    input.update_pointer(&mut term, &mut writer, PointerPacket { dx: 7, dy: -4, left: false, right: false });
    assert_eq!(term.mouse_pos(), (7, 4));
}
