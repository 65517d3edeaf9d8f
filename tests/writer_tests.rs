use vga_text::cell::{Color, ColorCode, ScreenChar};
use vga_text::console::_print;
use vga_text::grid::{Grid, BUFFER_HEIGHT, BUFFER_WIDTH};
use vga_text::harness::{test_runner, trivial_assertion, QemuExitCode, Testable};
use vga_text::writer::{print_something, Writer};
use volatile::Volatile;

fn grid_of(word: u16) -> &'static mut Grid {
    Box::leak(Box::new(core::array::from_fn(|_| {
        core::array::from_fn(|_| Volatile::new(word))
    })))
}

fn yellow_on_black() -> ColorCode {
    ColorCode::new(Color::Yellow, Color::Black)
}

fn fresh_writer() -> Writer {
    Writer::new(yellow_on_black(), grid_of(0))
}

fn cell(b: u8, color: ColorCode) -> ScreenChar {
    ScreenChar::encode(b, color)
}

#[test]
fn color_code_packs_background_high() {
    assert_eq!(ColorCode::new(Color::Yellow, Color::Black).byte(), 0x0e);
    assert_eq!(ColorCode::new(Color::White, Color::Blue).byte(), 0x1f);
    assert_eq!(ColorCode::new(Color::Black, Color::White).byte(), 0xf0);
    let c = ColorCode::new(Color::LightGreen, Color::Red);
    assert_eq!(c.byte(), 0x4a);
    assert_eq!(c.foreground(), 10);
    assert_eq!(c.background(), 4);
}

#[test]
fn color_codes_cover_all_pairs() {
    let all = [
        Color::Black,
        Color::Blue,
        Color::Green,
        Color::Cyan,
        Color::Red,
        Color::Magenta,
        Color::Brown,
        Color::LightGray,
        Color::DarkGray,
        Color::LightBlue,
        Color::LightGreen,
        Color::LightCyan,
        Color::LightRed,
        Color::Pink,
        Color::Yellow,
        Color::White,
    ];
    for (i, fg) in all.iter().enumerate() {
        assert_eq!(fg.code() as usize, i);
        for (j, bg) in all.iter().enumerate() {
            assert_eq!(ColorCode::new(*fg, *bg).byte() as usize, j * 16 + i);
        }
    }
}

#[test]
fn screen_char_word_puts_character_first() {
    let c = cell(b'A', yellow_on_black());
    assert_eq!(c.word(), 0x0e41);
    assert_eq!(c.word().to_le_bytes(), [b'A', 0x0e]);
    assert_eq!(ScreenChar::from_word(0x0e41), c);
    assert_eq!(ScreenChar::from_word(0x1f20).ascii_character, b' ');
    assert_eq!(ScreenChar::from_word(0x1f20).color_code.byte(), 0x1f);
}

#[test]
fn new_writer_reads_what_the_grid_held() {
    let w = Writer::new(yellow_on_black(), grid_of(0x1f58));
    assert_eq!(w.column(), 0);
    assert_eq!(w.color_code(), yellow_on_black());
    assert_eq!(w.read(0, 0), ScreenChar::from_word(0x1f58));
    assert_eq!(w.read(24, 79).ascii_character, b'X');
}

#[test]
fn printable_bytes_read_back_as_themselves() {
    let mut w = fresh_writer();
    for b in 0x20u8..=0x7e {
        let s = (b as char).to_string();
        w.write_string(&s);
        let col = w.column();
        assert!(col >= 1);
        assert_eq!(w.read(24, col - 1), cell(b, yellow_on_black()));
    }
}

#[test]
fn newline_is_forwarded_as_a_line_break() {
    let mut w = fresh_writer();
    w.write_string("ab");
    w.write_string("\n");
    assert_eq!(w.column(), 0);
    assert_eq!(w.read(23, 0).ascii_character, b'a');
    assert_eq!(w.read(23, 1).ascii_character, b'b');
    assert_eq!(w.read(24, 0), cell(b' ', yellow_on_black()));
}

#[test]
fn unprintable_bytes_become_block_glyph() {
    let mut w = fresh_writer();
    w.write_string("\t\r\u{7f}\u{1}");
    assert_eq!(w.column(), 4);
    for col in 0..4 {
        assert_eq!(w.read(24, col).ascii_character, 0xfe);
    }
    // A two-byte character gives two glyphs.
    w.write_string("é");
    assert_eq!(w.column(), 6);
    assert_eq!(w.read(24, 4).ascii_character, 0xfe);
    assert_eq!(w.read(24, 5).ascii_character, 0xfe);
}

#[test]
fn write_byte_places_any_byte_verbatim() {
    let mut w = fresh_writer();
    w.write_byte(0x01);
    w.write_byte(0xfe);
    assert_eq!(w.read(24, 0).ascii_character, 0x01);
    assert_eq!(w.read(24, 1).ascii_character, 0xfe);
    assert_eq!(w.column(), 2);
}

#[test]
fn short_text_fills_from_cursor_and_leaves_rest() {
    let mut w = Writer::new(yellow_on_black(), grid_of(0x0758));
    w.write_string("hello");
    assert_eq!(w.column(), 5);
    for (i, b) in "hello".bytes().enumerate() {
        assert_eq!(w.read(24, i), cell(b, yellow_on_black()));
    }
    for col in 5..BUFFER_WIDTH {
        assert_eq!(w.read(24, col), ScreenChar::from_word(0x0758));
    }
    for row in 0..BUFFER_HEIGHT - 1 {
        assert_eq!(w.read(row, 0), ScreenChar::from_word(0x0758));
    }
}

#[test]
fn eighty_characters_fill_the_row_without_scrolling() {
    let mut w = fresh_writer();
    let s = "x".repeat(80);
    w.write_string(&s);
    assert_eq!(w.column(), 80);
    assert_eq!(w.read(24, 79).ascii_character, b'x');
    assert_eq!(w.read(23, 0).ascii_character, 0);
}

#[test]
fn eighty_first_character_wraps_once() {
    let mut w = fresh_writer();
    let mut s = String::new();
    for i in 0..80 {
        s.push((b'a' + (i % 26) as u8) as char);
    }
    s.push('Z');
    w.write_string(&s);
    assert_eq!(w.column(), 1);
    assert_eq!(w.read(24, 0), cell(b'Z', yellow_on_black()));
    for col in 1..BUFFER_WIDTH {
        assert_eq!(w.read(24, col), cell(b' ', yellow_on_black()));
    }
    for (i, b) in s.bytes().take(80).enumerate() {
        assert_eq!(w.read(23, i).ascii_character, b);
    }
    // Only one scroll: the row above still holds the untouched grid.
    assert_eq!(w.read(22, 0).ascii_character, 0);
}

#[test]
fn each_newline_scrolls_once() {
    let mut w = fresh_writer();
    w.write_string("a\nb\nc\n");
    assert_eq!(w.column(), 0);
    assert_eq!(w.read(21, 0).ascii_character, b'a');
    assert_eq!(w.read(22, 0).ascii_character, b'b');
    assert_eq!(w.read(23, 0).ascii_character, b'c');
    assert_eq!(w.read(20, 0).ascii_character, 0);
    w.write_string("d");
    assert_eq!(w.column(), 1);
}

#[test]
fn scroll_blanks_bottom_row_in_current_color() {
    let green = ColorCode::new(Color::Green, Color::Black);
    let mut w = Writer::new(green, grid_of(0x4f41));
    w.write_string("\n");
    for col in 0..BUFFER_WIDTH {
        assert_eq!(w.read(24, col), cell(b' ', green));
        assert_eq!(w.read(23, col), ScreenChar::from_word(0x4f41));
    }
}

#[test]
fn test_println_simple() {
    let mut w = fresh_writer();
    w.write_string("test_println_simple output\n");
    assert_eq!(w.column(), 0);
}

#[test]
fn test_println_massive_output() {
    let mut w = fresh_writer();
    for _ in 0..200 {
        w.write_string("test_println_massive_output output\n");
    }
    assert_eq!(w.column(), 0);
    for row in 0..BUFFER_HEIGHT - 1 {
        assert_eq!(w.read(row, 0).ascii_character, b't');
    }
    assert_eq!(w.read(24, 0), cell(b' ', yellow_on_black()));
}

#[test]
fn test_println_output() {
    let s = "SOme test string that fits on a single line";
    let mut w = fresh_writer();
    w.write_string(s);
    for (i, c) in s.chars().enumerate() {
        assert_eq!(char::from(w.read(BUFFER_HEIGHT - 1, i).ascii_character), c);
    }
    w.write_string("\n");
    for (i, c) in s.chars().enumerate() {
        assert_eq!(char::from(w.read(BUFFER_HEIGHT - 2, i).ascii_character), c);
    }
}

#[test]
fn clear_row_yields_blank_cells() {
    let color = ColorCode::new(Color::Cyan, Color::Red);
    let mut w = Writer::new(color, grid_of(0x0758));
    w.write_string("abc");
    w.clear_row(24);
    w.clear_row(3);
    for col in 0..BUFFER_WIDTH {
        assert_eq!(w.read(24, col), cell(b' ', color));
        assert_eq!(w.read(3, col), cell(b' ', color));
        assert_eq!(w.read(2, col), ScreenChar::from_word(0x0758));
    }
    assert_eq!(w.column(), 3);
}

#[test]
fn print_goes_through_the_shared_handle() {
    let handle = spin::Mutex::new(fresh_writer());
    _print(&handle, "Hello");
    _print(&handle, " again\n");
    let w = handle.lock();
    assert_eq!(w.column(), 0);
    for (i, b) in "Hello again".bytes().enumerate() {
        assert_eq!(w.read(23, i).ascii_character, b);
    }
}

#[test]
fn print_something_greets() {
    let w = print_something(grid_of(0), "42 and 0.14285714285714285");
    assert_eq!(w.color_code().byte(), 0x0e);
    for (i, b) in "Hello world".bytes().enumerate() {
        assert_eq!(w.read(23, i).ascii_character, b);
    }
    let second = "the numbers are 42 and 0.14285714285714285";
    for (i, b) in second.bytes().enumerate() {
        assert_eq!(w.read(24, i).ascii_character, b);
    }
    assert_eq!(w.column(), second.len());
}

#[test]
fn exit_codes_match_the_port_protocol() {
    assert_eq!(QemuExitCode::Success.value(), 0x10);
    assert_eq!(QemuExitCode::Failed.value(), 0x11);
}

struct Counted(std::cell::Cell<u32>);

impl Testable for Counted {
    fn run(&self) {
        self.0.set(self.0.get() + 1);
    }
}

#[test]
fn runner_invokes_every_case() {
    let a = Counted(std::cell::Cell::new(0));
    let b = Counted(std::cell::Cell::new(0));
    let cases: [&dyn Testable; 3] = [&a, &b, &a];
    assert_eq!(test_runner(&cases), QemuExitCode::Success);
    assert_eq!(a.0.get(), 2);
    assert_eq!(b.0.get(), 1);
    let none: [&dyn Testable; 0] = [];
    assert_eq!(test_runner(&none), QemuExitCode::Success);
}

#[test]
fn trivial_assertion_passes() {
    trivial_assertion();
}
