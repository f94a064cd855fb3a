use embedded_graphics::framebuffer::Framebuffer;
use embedded_graphics::geometry::Point;
use embedded_graphics::image::GetPixel;
use embedded_graphics::mono_font::ascii::FONT_5X8;
use embedded_graphics::mono_font::MonoTextStyle;
use embedded_graphics::pixelcolor::raw::LittleEndian;
use embedded_graphics::pixelcolor::BinaryColor;
use embedded_graphics::text::{Baseline, Text};
use embedded_graphics::Drawable;
use waveshareoled::frame::{FrameBuffer, HEIGHT, WIDTH};
use waveshareoled::text::{fits, render, RenderError, MAX_TEXT_CHARS};

const GLYPH_B: [&str; 8] = [
    ".....", "#....", "#....", "###..", "#..#.", "#..#.", "###..", ".....",
];

const GLYPH_A: [&str; 8] = [
    ".....", ".....", ".....", ".###.", "#..#.", "#..#.", ".###.", ".....",
];

fn glyph_lit(glyph: &[&str; 8], x: usize, y: usize) -> bool {
    glyph[y].as_bytes()[x] == b'#'
}

fn lit_pixels(frame: &FrameBuffer) -> Vec<(usize, usize)> {
    let mut lit = Vec::new();
    for y in 0..HEIGHT {
        for x in 0..WIDTH {
            if frame.get(x, y) {
                lit.push((x, y));
            }
        }
    }
    lit
}

fn glyph_pixels(glyph: &[&str; 8], left: usize, top: usize) -> Vec<(usize, usize)> {
    let mut lit = Vec::new();
    for y in 0..8 {
        for x in 0..5 {
            if glyph_lit(glyph, x, y) {
                lit.push((left + x, top + y));
            }
        }
    }
    lit
}

#[test]
fn empty_text_gives_a_blank_frame() {
    let frame = render("").unwrap();
    assert!(lit_pixels(&frame).is_empty());
}

#[test]
fn single_letter_is_drawn_at_the_top_left() {
    let frame = render("b").unwrap();
    assert_eq!(lit_pixels(&frame), glyph_pixels(&GLYPH_B, 0, 0));
    let page = frame.page(0).unwrap();
    assert_eq!(&page[..6], &[0x7E, 0x48, 0x48, 0x30, 0x00, 0x00]);
    assert!(page[6..].iter().all(|b| *b == 0));
    for other in 1..8 {
        assert_eq!(frame.page(other), Some(vec![0u8; 128]));
    }
}

#[test]
fn letters_advance_by_five_columns() {
    let frame = render("ab").unwrap();
    let mut expected = glyph_pixels(&GLYPH_A, 0, 0);
    expected.extend(glyph_pixels(&GLYPH_B, 5, 0));
    expected.sort_by_key(|&(x, y)| (y, x));
    assert_eq!(lit_pixels(&frame), expected);
    let page = frame.page(0).unwrap();
    assert_eq!(&page[..10], &[0x30, 0x48, 0x48, 0x78, 0x00, 0x7E, 0x48, 0x48, 0x30, 0x00]);
}

#[test]
fn new_line_starts_eight_rows_down() {
    let frame = render("a\nb").unwrap();
    let mut expected = glyph_pixels(&GLYPH_A, 0, 0);
    expected.extend(glyph_pixels(&GLYPH_B, 0, 8));
    assert_eq!(lit_pixels(&frame), expected);
    assert_eq!(&frame.page(1).unwrap()[..4], &[0x7E, 0x48, 0x48, 0x30]);
}

#[test]
fn unknown_character_is_drawn_as_question_mark() {
    let unknown = render("\u{e9}").unwrap();
    let question = render("?").unwrap();
    assert_eq!(lit_pixels(&unknown), lit_pixels(&question));
    assert!(!lit_pixels(&question).is_empty());
}

#[test]
fn text_beyond_the_panel_is_cut_off() {
    let line = "b".repeat(40);
    let frame = render(&line).unwrap();
    let lit = lit_pixels(&frame);
    assert!(lit.iter().all(|&(x, y)| x < WIDTH && y < 8));
    assert!(frame.get(125, 1));
    assert!(frame.get(127, 3));
    let tall = "b\n".repeat(12);
    let frame = render(&tall).unwrap();
    assert!(frame.get(0, 57));
    assert!(lit_pixels(&frame).iter().all(|&(x, _)| x < 5));
}

#[test]
fn render_matches_the_font_library_on_a_sentence() {
    let text = "Hello, world!\nline two ~ {}";
    let frame = render(text).unwrap();
    let style = MonoTextStyle::new(&FONT_5X8, BinaryColor::On);
    let mut target = Framebuffer::<BinaryColor, _, LittleEndian, 128, 64, 1024>::new();
    Text::with_baseline(text, Point::zero(), style, Baseline::Top)
        .draw(&mut target)
        .unwrap();
    let mut some_lit = false;
    for y in 0..HEIGHT {
        for x in 0..WIDTH {
            let expected = target.pixel(Point::new(x as i32, y as i32)) == Some(BinaryColor::On);
            assert_eq!(frame.get(x, y), expected, "pixel ({x}, {y})");
            some_lit |= expected;
        }
    }
    assert!(some_lit);
}

#[test]
fn text_over_the_limit_is_refused() {
    let long = "a".repeat(MAX_TEXT_CHARS + 1);
    assert!(!fits(&long));
    assert_eq!(render(&long).err(), Some(RenderError::TextTooLong));
    let longest = "\n".repeat(MAX_TEXT_CHARS);
    assert!(fits(&longest));
    assert!(render(&longest).is_ok());
}

#[test]
fn limit_counts_characters_not_bytes() {
    let text = "\u{e9}".repeat(10);
    assert_eq!(text.len(), 20);
    assert!(fits(&text));
    assert!(MAX_TEXT_CHARS == 16_777_216);
}
