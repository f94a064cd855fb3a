//! Rasterizing text into a frame.
//!
//! The glyphs and the layout of a text come from the `embedded-graphics`
//! crate: its 5 by 8 pixel ASCII font, drawn from the top left corner of the
//! panel, a new line starting 8 rows further down. What lies outside the
//! panel is not drawn.

use crate::frame::{unpacked, FrameBuffer, BITMAP_BYTES};
use embedded_graphics::framebuffer::Framebuffer;
use embedded_graphics::geometry::Point;
use embedded_graphics::mono_font::ascii::FONT_5X8;
use embedded_graphics::mono_font::MonoTextStyleBuilder;
use embedded_graphics::pixelcolor::raw::LittleEndian;
use embedded_graphics::pixelcolor::BinaryColor;
use embedded_graphics::text::{Baseline, Text};
use embedded_graphics::Drawable;
use vstd::prelude::*;
use vstd::string::StrSliceExecFns;

verus! {

/// The longest text, in characters, that is rasterized. The rasterizer keeps
/// positions in 32-bit signed integers and moves by up to 8 pixels for a
/// character, so a longer text could leave their range.
pub const MAX_TEXT_CHARS: usize = 0x0100_0000;

/// The packed bitmap that `embedded-graphics` draws for a text: 64 rows of
/// 16 bytes, the highest bit of a byte being its leftmost pixel.
pub uninterp spec fn rasterized(text: Seq<char>) -> Seq<u8>;

/// The frame that shows a text.
pub open spec fn rendered(text: Seq<char>) -> Seq<bool> {
    unpacked(rasterized(text))
}

/// Calls `Text::draw` of `embedded-graphics` on a blank 128 by 64 frame of
/// that crate, with the text at the origin, top baseline, in the font
/// `FONT_5X8` with lit pixels, and hands back the bytes of that frame
/// (`Framebuffer::data`). Trusted: the bytes are a function of the text
/// alone, and there are 1024 of them, the size of that frame's array.
#[verifier::external_body]
fn rasterize(text: &str) -> (bitmap: Vec<u8>)
    requires
        text@.len() <= MAX_TEXT_CHARS,
    ensures
        bitmap@ == rasterized(text@),
        bitmap@.len() == BITMAP_BYTES,
{
    let style = MonoTextStyleBuilder::new().font(&FONT_5X8).text_color(BinaryColor::On).build();
    let mut target = Framebuffer::<BinaryColor, _, LittleEndian, 128, 64, 1024>::new();
    let _ = Text::with_baseline(text, Point::zero(), style, Baseline::Top).draw(&mut target);
    target.data().to_vec()
}

/// Why a text was not rasterized.
#[derive(Debug, Clone, Copy, PartialEq, Eq, Structural)]
pub enum RenderError {
    /// The text has more than [`MAX_TEXT_CHARS`] characters.
    TextTooLong,
}

/// Whether a text is short enough to be rasterized.
pub fn fits(text: &str) -> (fits: bool)
    ensures
        fits == (text@.len() <= MAX_TEXT_CHARS),
{
    text.unicode_len() <= MAX_TEXT_CHARS
}

/// The frame that shows `text` in the fixed font from the top left corner,
/// every other pixel off.
pub fn render(text: &str) -> (frame: Result<FrameBuffer, RenderError>)
    ensures
        frame is Ok <==> text@.len() <= MAX_TEXT_CHARS,
        frame matches Ok(frame) ==> frame@ == rendered(text@),
        frame matches Err(error) ==> error == RenderError::TextTooLong,
{
    if !fits(text) {
        return Err(RenderError::TextTooLong);
    }
    let bitmap = rasterize(text);
    match FrameBuffer::from_bitmap(&bitmap) {
        Some(frame) => Ok(frame),
        None => Err(RenderError::TextTooLong),
    }
}

} // verus!
