use rust_stuff_term::gui::Window;
use rust_stuff_term::textbuffer::{BufferCharacter, BufferLine, Textbuffer};
use rust_stuff_term::vga::{Color, ColorCode, ScreenChar};
use rust_stuff_term::writer::{Writer, WriterMode, TEXT_HEIGHT, TEXT_WIDTH, GRAPHICS_HEIGHT};

fn text(line: &BufferLine) -> String {
    line.chars.iter().map(|c| c.character).collect()
}

#[test]
fn color_codes_pack_background_over_foreground() {
    assert_eq!(ColorCode::new(Color::White, Color::Blue).0, 0x1f);
    assert_eq!(ColorCode::new(Color::LightGray, Color::Black).0, 0x07);
    assert_eq!(ColorCode::new(Color::Yellow, Color::Red).0, 0x4e);
    assert_eq!(ColorCode::default().0, 0x07);
    assert_eq!(BufferCharacter::default_color(), ColorCode(0x07));
    assert_eq!(Color::Pink.index(), 13);
}

#[test]
fn textbuffer_starts_with_one_empty_row() {
    let buffer = Textbuffer::new();
    assert_eq!(buffer.end_coord(), (0, 0));
    assert_eq!(buffer.lines.len(), 1);
}

#[test]
fn textbuffer_appends_and_grows() {
    let mut buffer = Textbuffer::new();
    buffer.write_string("ab");
    buffer.new_line();
    buffer.write_char('c');
    buffer.write_char_color('d', ColorCode::new(Color::Red, Color::Black));
    assert_eq!(buffer.end_coord(), (1, 2));
    assert_eq!(text(&buffer.lines[0]), "ab");
    assert_eq!(text(&buffer.lines[1]), "cd");
    assert_eq!(buffer.lines[1].chars[1].color.0, 0x04);
    assert_eq!(buffer.lines[0].chars[0].color.0, 0x07);
}

#[test]
fn get_lines_clips_at_the_end() {
    let mut buffer = Textbuffer::new();
    for i in 0..5 {
        buffer.write_char(char::from(b'0' + i));
        buffer.new_line();
    }
    let all = buffer.get_lines(0, 3);
    assert_eq!(all.len(), 3);
    assert_eq!(text(&all[2]), "2");
    let tail = buffer.get_lines(4, 10);
    assert_eq!(tail.len(), 2);
    assert_eq!(text(&tail[0]), "4");
    assert_eq!(text(&tail[1]), "");
    assert!(buffer.get_lines(9, 3).is_empty());
}

#[test]
fn flush_leaves_one_empty_row() {
    let mut buffer = Textbuffer::new();
    buffer.write_string("xyz");
    buffer.new_line();
    buffer.flush();
    assert_eq!(buffer.end_coord(), (0, 0));
    assert_eq!(buffer.lines.len(), 1);
}

#[test]
fn skip_drops_leading_cells() {
    let mut buffer = Textbuffer::new();
    buffer.write_string("abcdef");
    let line = &buffer.lines[0];
    assert_eq!(text(&line.skip(2)), "cdef");
    assert_eq!(text(&line.skip(6)), "");
    assert_eq!(text(&line.skip(60)), "");
}

#[test]
fn writer_wraps_at_the_right_edge() {
    let mut writer = Writer::new();
    for _ in 0..TEXT_WIDTH {
        writer.write_byte(b'x');
    }
    assert_eq!(writer.cursor(), (TEXT_WIDTH, 0));
    writer.write_byte(b'y');
    assert_eq!(writer.cursor(), (1, 1));
    assert_eq!(writer.cell(1, 0).ascii_character, b'y');
    assert_eq!(writer.cell(0, TEXT_WIDTH - 1).ascii_character, b'x');
}

#[test]
fn text_mode_scrolls_up_at_the_last_row() {
    let mut writer = Writer::new();
    writer.write_string("top");
    for _ in 0..TEXT_HEIGHT - 1 {
        writer.new_line();
    }
    assert_eq!(writer.cursor(), (0, TEXT_HEIGHT - 1));
    writer.write_string("bottom\n");
    assert_eq!(writer.cursor(), (0, TEXT_HEIGHT - 1));
    assert_eq!(writer.cell(0, 0).ascii_character, b' ');
    assert_eq!(writer.cell(TEXT_HEIGHT - 2, 0).ascii_character, b'b');
    assert_eq!(writer.cell(TEXT_HEIGHT - 1, 0).ascii_character, b' ');
}

#[test]
fn graphics_mode_wraps_to_the_top_row() {
    let mut writer = Writer::new();
    writer.change_mode(WriterMode::Graphics);
    assert_eq!(writer.mode(), WriterMode::Graphics);
    writer.write_byte(b'q');
    for _ in 0..GRAPHICS_HEIGHT - 1 {
        writer.new_line();
    }
    writer.new_line();
    assert_eq!(writer.cursor(), (0, 0));
    assert_eq!(writer.cell(0, 0).ascii_character, b' ');
    assert_eq!(writer.cell(0, 0).color_code, ColorCode::new(Color::White, Color::Blue));
}

#[test]
fn print_textbuffer_pads_with_blanks() {
    let mut buffer = Textbuffer::new();
    buffer.write_string("hi");
    let mut writer = Writer::new();
    writer.write_string("zzzz\nzzzz");
    writer.print_textbuffer(&buffer.get_lines(0, 5));
    assert_eq!(writer.cell(0, 0), ScreenChar { ascii_character: b'h', color_code: ColorCode::new(Color::LightGray, Color::Blue) });
    assert_eq!(writer.cell(0, 1).ascii_character, b'i');
    assert_eq!(writer.cell(0, 2).ascii_character, b' ');
    assert_eq!(writer.cell(1, 0).ascii_character, b' ');
}

#[test]
fn clear_and_clear_row_blank_cells() {
    let mut writer = Writer::new();
    writer.write_string("abc\ndef");
    writer.clear_row(1);
    assert_eq!(writer.cell(1, 0).ascii_character, b' ');
    assert_eq!(writer.cell(0, 0).ascii_character, b'a');
    writer.move_cursor(5, 3);
    assert_eq!(writer.cursor(), (5, 3));
    writer.write_screen_char(ScreenChar { ascii_character: b'!', color_code: ColorCode(0x1f) });
    assert_eq!(writer.cell(3, 5).ascii_character, b'!');
    writer.clear();
    assert_eq!(writer.cursor(), (0, 0));
    assert_eq!(writer.cell(0, 0).ascii_character, b' ');
}

#[test]
fn the_test_window() {
    let w = Window::new();
    assert_eq!(w.geometry, ((80, 60), (540, 420)));
    assert_eq!(w.title, "Test window");
}

#[test]
fn printed_line_lands_above_the_last_row() {
    let mut writer = Writer::new();
    for _ in 0..200 {
        writer.write_string("test_println_many output\n");
    }
    let s = "Some test string that fits on a single line";
    writer.write_string("\n");
    writer.write_string(s);
    writer.write_string("\n");
    for (i, c) in s.chars().enumerate() {
        assert_eq!(char::from(writer.cell(TEXT_HEIGHT - 2, i).ascii_character), c);
    }
}
