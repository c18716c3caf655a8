use simple_os::vga_buffer::{
    Color, ColorCode, ScreenChar, Writer, BUFFER_HEIGHT, BUFFER_WIDTH, UNPRINTABLE,
};

fn yellow_on_black() -> Writer {
    Writer::new(ColorCode::new(Color::Yellow, Color::Black))
}

fn row_text(writer: &Writer, row: usize) -> String {
    let mut text = String::new();
    for col in 0..BUFFER_WIDTH {
        text.push(char::from(writer.cell(row, col).ascii_character));
    }
    text
}

fn println(writer: &mut Writer, text: &str) {
    writer.write_string(text);
    writer.write_string("\n");
}

#[test]
fn test_println_simple() {
    let mut writer = yellow_on_black();
    println(&mut writer, "test_println_simple output");
}

#[test]
fn test_println_many() {
    let mut writer = yellow_on_black();
    for _ in 0..200 {
        println(&mut writer, "test_println_many output");
    }
}

#[test]
fn test_println_output() {
    let string = "Some test string that fits on a single line";
    let mut writer = yellow_on_black();
    writer.write_string("\n");
    writer.write_string(string);
    writer.write_string("\n");
    for (i, c) in string.chars().enumerate() {
        let screen_char = writer.cell(BUFFER_HEIGHT - 2, i);
        assert_eq!(char::from(screen_char.ascii_character), c);
    }
}

#[test]
fn color_code_packs_background_above_foreground() {
    assert_eq!(ColorCode::new(Color::Yellow, Color::Black), ColorCode(0x0e));
    assert_eq!(ColorCode::new(Color::White, Color::Blue), ColorCode(0x1f));
    assert_eq!(ColorCode::new(Color::Black, Color::White), ColorCode(0xf0));
    assert_eq!(ColorCode::new(Color::LightRed, Color::Magenta), ColorCode(0x5c));
}

#[test]
fn color_codes_count_from_zero_to_fifteen() {
    let colors = [
        Color::Black,
        Color::Blue,
        Color::Green,
        Color::Cyan,
        Color::Red,
        Color::Magenta,
        Color::Brown,
        Color::LightGray,
        Color::DarkGray,
        Color::LightBlue,
        Color::LightGreen,
        Color::LightCyan,
        Color::LightRed,
        Color::Pink,
        Color::Yellow,
        Color::White,
    ];
    for (number, color) in colors.iter().enumerate() {
        assert_eq!(color.code() as usize, number);
    }
}

#[test]
fn new_writer_is_blank() {
    let color = ColorCode::new(Color::Green, Color::Black);
    let writer = Writer::new(color);
    assert_eq!(writer.column_position(), 0);
    assert_eq!(writer.color_code(), color);
    for row in 0..BUFFER_HEIGHT {
        for col in 0..BUFFER_WIDTH {
            assert_eq!(
                writer.cell(row, col),
                ScreenChar { ascii_character: b' ', color_code: color }
            );
        }
    }
}

#[test]
fn write_byte_lands_in_the_bottom_row() {
    let mut writer = yellow_on_black();
    writer.write_byte(b'H');
    writer.write_byte(b'i');
    assert_eq!(writer.column_position(), 2);
    assert_eq!(
        writer.cell(BUFFER_HEIGHT - 1, 0),
        ScreenChar { ascii_character: b'H', color_code: ColorCode(0x0e) }
    );
    assert_eq!(writer.cell(BUFFER_HEIGHT - 1, 1).ascii_character, b'i');
    assert_eq!(writer.cell(BUFFER_HEIGHT - 1, 2).ascii_character, b' ');
    assert_eq!(writer.cell(BUFFER_HEIGHT - 2, 0).ascii_character, b' ');
}

#[test]
fn line_feed_scrolls_one_row() {
    let mut writer = yellow_on_black();
    writer.write_string("first");
    writer.write_byte(b'\n');
    assert_eq!(writer.column_position(), 0);
    assert_eq!(row_text(&writer, BUFFER_HEIGHT - 2).trim_end(), "first");
    assert_eq!(row_text(&writer, BUFFER_HEIGHT - 1).trim_end(), "");
    writer.write_string("second\n");
    assert_eq!(row_text(&writer, BUFFER_HEIGHT - 3).trim_end(), "first");
    assert_eq!(row_text(&writer, BUFFER_HEIGHT - 2).trim_end(), "second");
}

#[test]
fn a_full_row_wraps_on_the_next_byte() {
    let mut writer = yellow_on_black();
    for _ in 0..BUFFER_WIDTH {
        writer.write_byte(b'x');
    }
    assert_eq!(writer.column_position(), BUFFER_WIDTH);
    assert_eq!(row_text(&writer, BUFFER_HEIGHT - 1), "x".repeat(BUFFER_WIDTH));
    assert_eq!(row_text(&writer, BUFFER_HEIGHT - 2).trim_end(), "");
    writer.write_byte(b'y');
    assert_eq!(writer.column_position(), 1);
    assert_eq!(row_text(&writer, BUFFER_HEIGHT - 2), "x".repeat(BUFFER_WIDTH));
    assert_eq!(row_text(&writer, BUFFER_HEIGHT - 1).trim_end(), "y");
}

#[test]
fn the_top_row_is_lost_after_twenty_five_lines() {
    let mut writer = yellow_on_black();
    for line in 0..BUFFER_HEIGHT {
        writer.write_string(&format!("line {}\n", line));
    }
    assert_eq!(row_text(&writer, 0).trim_end(), "line 1");
    assert_eq!(row_text(&writer, BUFFER_HEIGHT - 2).trim_end(), "line 24");
    assert_eq!(row_text(&writer, BUFFER_HEIGHT - 1).trim_end(), "");
}

#[test]
fn unprintable_bytes_are_replaced() {
    let mut writer = yellow_on_black();
    writer.write_string("a\tb");
    assert_eq!(writer.cell(BUFFER_HEIGHT - 1, 0).ascii_character, b'a');
    assert_eq!(writer.cell(BUFFER_HEIGHT - 1, 1).ascii_character, UNPRINTABLE);
    assert_eq!(writer.cell(BUFFER_HEIGHT - 1, 2).ascii_character, b'b');
    assert_eq!(writer.column_position(), 3);
}

#[test]
fn each_byte_of_a_wide_character_is_replaced() {
    let mut writer = yellow_on_black();
    writer.write_string("\u{e4}\u{20ac}~");
    for col in 0..5 {
        assert_eq!(writer.cell(BUFFER_HEIGHT - 1, col).ascii_character, UNPRINTABLE);
    }
    assert_eq!(writer.cell(BUFFER_HEIGHT - 1, 5).ascii_character, b'~');
    assert_eq!(writer.column_position(), 6);
}

#[test]
fn write_byte_takes_any_byte_as_it_is() {
    let mut writer = yellow_on_black();
    writer.write_byte(0x01);
    writer.write_byte(0xff);
    assert_eq!(writer.cell(BUFFER_HEIGHT - 1, 0).ascii_character, 0x01);
    assert_eq!(writer.cell(BUFFER_HEIGHT - 1, 1).ascii_character, 0xff);
}

#[test]
fn writing_in_two_parts_is_writing_the_whole() {
    let mut whole = yellow_on_black();
    whole.write_string("one\ntwo and three");
    let mut parts = yellow_on_black();
    parts.write_string("one\ntw");
    parts.write_string("o and three");
    assert_eq!(whole.column_position(), parts.column_position());
    for row in 0..BUFFER_HEIGHT {
        assert_eq!(row_text(&whole, row), row_text(&parts, row));
    }
}
