use os_in_rust::vga_buffer::Cells;
use os_in_rust::vga_buffer::Color;
use os_in_rust::vga_buffer::ColorCode;
use os_in_rust::vga_buffer::ScreenChar;
use os_in_rust::vga_buffer::Writer;
use os_in_rust::vga_buffer::BUFFER_HEIGHT;
use os_in_rust::vga_buffer::BUFFER_WIDTH;
use os_in_rust::vga_buffer::UNPRINTABLE;
use std::fmt::Write;
use volatile::Volatile;

fn buffer_filled_with(word: u16) -> &'static mut Cells {
    let cells: Cells = std::array::from_fn(|_| std::array::from_fn(|_| Volatile::new(word)));
    Box::leak(Box::new(cells))
}

fn yellow_on_black() -> ColorCode {
    ColorCode::new(Color::Yellow, Color::Black)
}

fn fresh_writer() -> Writer {
    Writer::new(buffer_filled_with(0), yellow_on_black())
}

fn println(writer: &mut Writer, text: &str) {
    writer.write_string(text);
    writer.write_string("\n");
}

fn row_text(writer: &Writer, row: usize, len: usize) -> String {
    (0..len)
        .map(|col| char::from(writer.char_at(row, col).unwrap().ascii_character))
        .collect()
}

fn snapshot(writer: &Writer) -> Vec<ScreenChar> {
    let mut cells = Vec::new();
    for row in 0..BUFFER_HEIGHT {
        for col in 0..BUFFER_WIDTH {
            cells.push(writer.char_at(row, col).unwrap());
        }
    }
    cells
}

#[test]
fn test_println() {
    let mut writer = fresh_writer();
    println(&mut writer, "test_println output");
    assert_eq!(row_text(&writer, BUFFER_HEIGHT - 2, 19), "test_println output");
    assert_eq!(row_text(&writer, BUFFER_HEIGHT - 1, 19), " ".repeat(19));
}

#[test]
fn test_println_simple() {
    let mut writer = fresh_writer();
    println(&mut writer, "test_println_simple output");
    assert_eq!(
        row_text(&writer, BUFFER_HEIGHT - 2, 26),
        "test_println_simple output"
    );
    assert_eq!(writer.column_position(), 0);
}

#[test]
fn test_println_many() {
    let mut writer = fresh_writer();
    for _ in 0..200 {
        println(&mut writer, "test_println_many output");
    }
    for row in 0..BUFFER_HEIGHT - 1 {
        assert_eq!(row_text(&writer, row, 24), "test_println_many output");
    }
    assert_eq!(row_text(&writer, BUFFER_HEIGHT - 1, 4), "    ");
}

#[test]
fn test_println_output() {
    let s = "Some test string that fits on a single line";
    let mut writer = fresh_writer();
    writer.write_string("\n");
    writer.write_string(s);
    writer.write_string("\n");
    for (i, c) in s.chars().enumerate() {
        let screen_char = writer.char_at(BUFFER_HEIGHT - 2, i).unwrap();
        assert_eq!(char::from(screen_char.ascii_character), c);
    }
}

#[test]
fn color_code_packs_background_above_foreground() {
    assert_eq!(ColorCode::new(Color::Yellow, Color::Black).0, 0x0e);
    assert_eq!(ColorCode::new(Color::White, Color::Blue).0, 0x1f);
    assert_eq!(ColorCode::new(Color::Black, Color::White).0, 0xf0);
    assert_eq!(ColorCode::new(Color::LightGray, Color::Red).0, 0x47);
}

#[test]
fn colors_have_their_hardware_numbers() {
    let all = [
        Color::Black,
        Color::Blue,
        Color::Green,
        Color::Cyan,
        Color::Red,
        Color::Magenta,
        Color::Brown,
        Color::LightGray,
        Color::DarkGray,
        Color::LightBlue,
        Color::LightGreen,
        Color::LightCyan,
        Color::LightRed,
        Color::Pink,
        Color::Yellow,
        Color::White,
    ];
    for (number, color) in all.iter().enumerate() {
        assert_eq!(color.to_u8() as usize, number);
    }
}

#[test]
fn screen_char_is_character_below_colour() {
    let shown = ScreenChar { ascii_character: b'A', color_code: ColorCode(0x0e) };
    assert_eq!(shown.encode(), 0x0e41);
    assert_eq!(ScreenChar::decode(0x0e41), shown);
    assert_eq!(ScreenChar::decode(0xffff).encode(), 0xffff);
    assert_eq!(ScreenChar::decode(0x1f20).ascii_character, b' ');
    assert_eq!(ScreenChar::decode(0x1f20).color_code, ColorCode(0x1f));
}

#[test]
fn new_writer_leaves_the_screen_as_it_is() {
    let writer = Writer::new(buffer_filled_with(0x0741), yellow_on_black());
    assert_eq!(writer.column_position(), 0);
    for cell in snapshot(&writer) {
        assert_eq!(cell, ScreenChar { ascii_character: b'A', color_code: ColorCode(0x07) });
    }
}

#[test]
fn write_byte_goes_to_the_bottom_row() {
    let mut writer = fresh_writer();
    writer.write_byte(b'H');
    writer.write_byte(b'i');
    assert_eq!(writer.column_position(), 2);
    assert_eq!(
        writer.char_at(BUFFER_HEIGHT - 1, 0),
        Some(ScreenChar { ascii_character: b'H', color_code: ColorCode(0x0e) })
    );
    assert_eq!(
        writer.char_at(BUFFER_HEIGHT - 1, 1),
        Some(ScreenChar { ascii_character: b'i', color_code: ColorCode(0x0e) })
    );
    assert_eq!(writer.char_at(BUFFER_HEIGHT - 1, 2), Some(ScreenChar::decode(0)));
    assert_eq!(writer.char_at(BUFFER_HEIGHT - 2, 0), Some(ScreenChar::decode(0)));
}

#[test]
fn write_byte_wraps_a_full_row() {
    let mut writer = fresh_writer();
    for _ in 0..BUFFER_WIDTH {
        writer.write_byte(b'x');
    }
    assert_eq!(writer.column_position(), BUFFER_WIDTH);
    assert_eq!(row_text(&writer, BUFFER_HEIGHT - 1, BUFFER_WIDTH), "x".repeat(BUFFER_WIDTH));
    writer.write_byte(b'y');
    assert_eq!(writer.column_position(), 1);
    assert_eq!(row_text(&writer, BUFFER_HEIGHT - 2, BUFFER_WIDTH), "x".repeat(BUFFER_WIDTH));
    assert_eq!(row_text(&writer, BUFFER_HEIGHT - 1, 2), "y ");
}

#[test]
fn newline_scrolls_and_blanks_the_bottom_row() {
    let mut writer = Writer::new(buffer_filled_with(0x0741), yellow_on_black());
    writer.write_byte(b'Z');
    let before = snapshot(&writer);
    writer.write_byte(b'\n');
    let after = snapshot(&writer);
    assert_eq!(writer.column_position(), 0);
    for row in 0..BUFFER_HEIGHT - 1 {
        for col in 0..BUFFER_WIDTH {
            assert_eq!(after[row * BUFFER_WIDTH + col], before[(row + 1) * BUFFER_WIDTH + col]);
        }
    }
    for col in 0..BUFFER_WIDTH {
        assert_eq!(
            after[(BUFFER_HEIGHT - 1) * BUFFER_WIDTH + col],
            ScreenChar { ascii_character: b' ', color_code: ColorCode(0x0e) }
        );
    }
    assert_eq!(after[(BUFFER_HEIGHT - 2) * BUFFER_WIDTH].ascii_character, b'Z');
}

#[test]
fn new_line_is_what_a_newline_byte_does() {
    let mut by_call = fresh_writer();
    let mut by_byte = fresh_writer();
    by_call.write_string("abc");
    by_byte.write_string("abc");
    by_call.new_line();
    by_byte.write_byte(b'\n');
    assert_eq!(snapshot(&by_call), snapshot(&by_byte));
    assert_eq!(by_call.column_position(), by_byte.column_position());
}

#[test]
fn clear_row_blanks_one_row_only() {
    let mut writer = Writer::new(buffer_filled_with(0x0741), yellow_on_black());
    writer.write_string("abc");
    let before = snapshot(&writer);
    writer.clear_row(3);
    let after = snapshot(&writer);
    assert_eq!(writer.column_position(), 3);
    for row in 0..BUFFER_HEIGHT {
        for col in 0..BUFFER_WIDTH {
            let cell = after[row * BUFFER_WIDTH + col];
            if row == 3 {
                assert_eq!(cell, ScreenChar { ascii_character: b' ', color_code: ColorCode(0x0e) });
            } else {
                assert_eq!(cell, before[row * BUFFER_WIDTH + col]);
            }
        }
    }
}

#[test]
fn unprintable_bytes_are_shown_as_a_block() {
    let mut writer = fresh_writer();
    writer.write_string("a\u{7f}\tö~ ");
    let shown: Vec<u8> = (0..7)
        .map(|col| writer.char_at(BUFFER_HEIGHT - 1, col).unwrap().ascii_character)
        .collect();
    assert_eq!(shown, vec![b'a', UNPRINTABLE, UNPRINTABLE, UNPRINTABLE, UNPRINTABLE, b'~', b' ']);
    assert_eq!(writer.column_position(), 7);
    assert_eq!(UNPRINTABLE, 0xfe);
}

#[test]
fn write_byte_does_not_filter() {
    let mut writer = fresh_writer();
    writer.write_byte(0x01);
    assert_eq!(writer.char_at(BUFFER_HEIGHT - 1, 0).unwrap().ascii_character, 0x01);
}

#[test]
fn write_string_is_write_byte_for_each_byte() {
    let mut whole = fresh_writer();
    let mut bytewise = fresh_writer();
    let text = "first line\nsecond line that is rather long and goes on and on and on and on and on, past the edge\n";
    whole.write_string(text);
    for byte in text.bytes() {
        bytewise.write_byte(byte);
    }
    assert_eq!(snapshot(&whole), snapshot(&bytewise));
    assert_eq!(whole.column_position(), bytewise.column_position());
}

#[test]
fn char_at_knows_the_edges() {
    let writer = fresh_writer();
    assert!(writer.char_at(BUFFER_HEIGHT - 1, BUFFER_WIDTH - 1).is_some());
    assert_eq!(writer.char_at(BUFFER_HEIGHT, 0), None);
    assert_eq!(writer.char_at(0, BUFFER_WIDTH), None);
    assert_eq!(BUFFER_HEIGHT, 25);
    assert_eq!(BUFFER_WIDTH, 80);
}

#[test]
fn empty_string_changes_nothing() {
    let mut writer = Writer::new(buffer_filled_with(0x0741), yellow_on_black());
    let before = snapshot(&writer);
    writer.write_string("");
    assert_eq!(snapshot(&writer), before);
    assert_eq!(writer.column_position(), 0);
}

#[test]
fn two_strings_are_written_as_their_concatenation() {
    let mut apart = fresh_writer();
    let mut joined = fresh_writer();
    apart.write_string("Hello ");
    apart.write_string("World!\nbye");
    joined.write_string("Hello World!\nbye");
    assert_eq!(snapshot(&apart), snapshot(&joined));
    assert_eq!(apart.column_position(), 3);
    assert_eq!(joined.column_position(), 3);
}

#[test]
fn the_column_stays_within_the_row() {
    let mut writer = fresh_writer();
    for count in 0..400usize {
        assert!(writer.column_position() <= BUFFER_WIDTH);
        assert_eq!(writer.column_position(), if count == 0 { 0 } else { (count - 1) % 80 + 1 });
        writer.write_byte(b'a');
    }
}

#[test]
fn write_str_never_fails() {
    let mut by_trait = fresh_writer();
    let mut direct = fresh_writer();
    assert_eq!(by_trait.write_str("a line\nand \u{1} half"), Ok(()));
    direct.write_string("a line\nand \u{1} half");
    assert_eq!(snapshot(&by_trait), snapshot(&direct));
    assert_eq!(by_trait.column_position(), 10);
    assert_eq!(by_trait.write_char('x'), Ok(()));
    assert_eq!(by_trait.char_at(BUFFER_HEIGHT - 1, 10).unwrap().ascii_character, b'x');
}
