use futures_util::task::noop_waker;
use pc_keyboard::{DecodedKey, KeyCode};
use rust_stuff_term::klog::append_record;
use rust_stuff_term::peripheral::keyboard::key_from_decoded;
use rust_stuff_term::screenbuffer::{EscapeChar, Screenbuffer, MAX_SCROLL_ROW, SCREENBUFFER_SCROLLBACK_ROWS};
use rust_stuff_term::task::{print, term};
use rust_stuff_term::term::{Key, Term};
use rust_stuff_term::textbuffer::{BufferLine, Textbuffer};
use rust_stuff_term::writer::Writer;

fn text(line: &BufferLine) -> String {
    line.chars.iter().map(|c| c.character).collect()
}

#[test]
fn scrollback_console_writes_and_echoes() {
    let mut writer = Writer::new();
    let mut sb = Screenbuffer::new(&mut writer);
    assert_eq!(sb.cursor(), (0, 0));
    sb.write_string("hi\nyo", &mut writer);
    assert_eq!(sb.cursor(), (1, 2));
    assert_eq!(sb.cell(0, 1).ascii_character, b'i');
    assert_eq!(sb.cell(1, 0).ascii_character, b'y');
    assert_eq!(writer.cell(1, 1).ascii_character, b'o');
}

#[test]
fn scrollback_scroll_repaints_the_window() {
    let mut writer = Writer::new();
    let mut sb = Screenbuffer::new(&mut writer);
    for i in 0..40u8 {
        sb.write_byte(b'a' + (i % 26), &mut writer);
        sb.write_byte(b'\n', &mut writer);
    }
    sb.write_byte(EscapeChar::ScrollUp.code(), &mut writer);
    let top = sb.scroll_row();
    assert_eq!(top, 15);
    for k in 0..25 {
        for c in 0..2 {
            assert_eq!(writer.cell(k, c), sb.cell(top + k, c));
        }
    }
    assert_eq!(writer.cell(0, 0).ascii_character, b'p');
    assert_eq!(writer.cursor(), (0, 40 - top));
}

#[test]
fn scrollback_console_wraps_long_rows() {
    let mut writer = Writer::new();
    let mut sb = Screenbuffer::new(&mut writer);
    for _ in 0..81 {
        sb.write_byte(b'w', &mut writer);
    }
    assert_eq!(sb.cursor(), (1, 1));
    assert_eq!(sb.cell(1, 0).ascii_character, b'w');
}

#[test]
fn scrollback_console_follows_and_scrolls() {
    let mut writer = Writer::new();
    let mut sb = Screenbuffer::new(&mut writer);
    for _ in 0..30 {
        sb.write_byte(b'\n', &mut writer);
    }
    assert_eq!(sb.scroll_row(), 6);
    sb.write_byte(EscapeChar::ScrollUp.code(), &mut writer);
    assert_eq!(sb.scroll_row(), 5);
    sb.write_byte(EscapeChar::ScrollDown.code(), &mut writer);
    sb.write_byte(EscapeChar::ScrollDown.code(), &mut writer);
    assert_eq!(sb.scroll_row(), 7);
    sb.write_byte(b'k', &mut writer);
    assert_eq!(sb.scroll_row(), 7);
    for _ in 0..7 {
        sb.write_byte(EscapeChar::ScrollUp.code(), &mut writer);
    }
    assert_eq!(sb.scroll_row(), 0);
    sb.write_byte(b'm', &mut writer);
    assert_eq!(sb.scroll_row(), 6);
    assert_eq!(sb.cell(30, 0).ascii_character, b'k');
    assert_eq!(sb.cell(30, 1).ascii_character, b'm');
}

#[test]
fn scrollback_console_evicts_the_oldest_row() {
    let mut writer = Writer::new();
    let mut sb = Screenbuffer::new(&mut writer);
    sb.write_byte(b'a', &mut writer);
    for _ in 0..SCREENBUFFER_SCROLLBACK_ROWS - 1 {
        sb.write_byte(b'\n', &mut writer);
    }
    sb.write_byte(b'z', &mut writer);
    assert_eq!(sb.cursor(), (SCREENBUFFER_SCROLLBACK_ROWS - 1, 1));
    assert_eq!(sb.scroll_row(), MAX_SCROLL_ROW);
    sb.write_byte(b'\n', &mut writer);
    assert_eq!(sb.cursor(), (SCREENBUFFER_SCROLLBACK_ROWS - 1, 0));
    assert_eq!(sb.cell(0, 0).ascii_character, b' ');
    assert_eq!(sb.cell(SCREENBUFFER_SCROLLBACK_ROWS - 2, 0).ascii_character, b'z');
}

#[test]
fn print_task_drains_into_the_scrollback() {
    let waker = noop_waker();
    let mut writer = Writer::new();
    let mut sb = Screenbuffer::new(&mut writer);
    let mut stream = print::CharacterStream::new();
    for c in "ok\n!".chars() {
        assert!(print::add_char(&mut stream, c));
    }
    assert_eq!(print::print_screenbuffer(&mut stream, &mut sb, &mut writer, &waker), 4);
    assert_eq!(sb.cursor(), (1, 1));
    assert_eq!(sb.cell(0, 1).ascii_character, b'k');
    assert_eq!(print::print_screenbuffer(&mut stream, &mut sb, &mut writer, &waker), 0);
}

#[test]
fn terminal_task_drains_into_the_console() {
    let waker = noop_waker();
    let mut t = Term::new();
    let mut writer = Writer::new();
    let log = Textbuffer::new();
    let mut stream = term::CharacterStream::new();
    for c in "ab\ncd".chars() {
        assert!(term::add_char(&mut stream, c));
    }
    assert_eq!(term::process_buffer(&mut stream, &mut t, &mut writer, &log, &waker), 5);
    assert_eq!(t.cursor(), (1, 2));
    assert_eq!(text(&t.console().lines[1]), "cd");
    assert_eq!(stream.poll_next(&waker), None);
}

#[test]
fn log_records_take_one_row_each() {
    let mut log = Textbuffer::new();
    append_record(&mut log, "first");
    append_record(&mut log, "second");
    assert_eq!(log.lines.len(), 3);
    assert_eq!(text(&log.lines[0]), "first");
    assert_eq!(text(&log.lines[1]), "second");
    assert_eq!(log.end_coord(), (2, 0));
}

#[test]
fn decoded_keys_map_to_terminal_keys() {
    assert_eq!(key_from_decoded(DecodedKey::RawKey(KeyCode::F1)), Key::F1);
    assert_eq!(key_from_decoded(DecodedKey::RawKey(KeyCode::ArrowLeft)), Key::ArrowLeft);
    assert_eq!(key_from_decoded(DecodedKey::Unicode('x')), Key::Unicode('x'));
    assert_eq!(key_from_decoded(DecodedKey::RawKey(KeyCode::Escape)), Key::Raw(KeyCode::Escape as u8));
}
