//! The frame buffer: the logical bitmap of the panel, and its conversion
//! into the page and column addressing that the device expects.
//!
//! The panel has 128 columns and 64 rows. The device stores it as 8 pages,
//! each a horizontal stripe 8 rows high; one byte of a page holds one column
//! of the stripe, its lowest bit being the topmost row.

use crate::bus::{op_models, BusOp, OpModel};
use vstd::prelude::*;

verus! {

/// Columns of the panel.
pub const WIDTH: usize = 128;

/// Rows of the panel.
pub const HEIGHT: usize = 64;

/// Pages of the device memory; each covers 8 rows.
pub const PAGES: usize = 8;

/// Pixels of the panel.
pub const PIXELS: usize = 8192;

/// Bytes in one row of a packed bitmap: 8 pixels to the byte.
pub const ROW_BYTES: usize = 16;

/// Bytes in a packed bitmap of the whole panel.
pub const BITMAP_BYTES: usize = 1024;

/// The command that selects page 0; page `p` is selected by `PAGE_BASE + p`.
pub const PAGE_BASE: u8 = 0xB0;

/// The command that sets the low four bits of the column address. The device
/// memory is four columns wider than the panel, which sits two columns in.
pub const COLUMN_LOW: u8 = 0x02;

/// The command that sets the high four bits of the column address.
pub const COLUMN_HIGH: u8 = 0x10;

/// Steps of one full-frame push: three commands and one burst for each page.
pub const PUSH_STEPS: usize = 32;

/// The bitmap with every pixel off.
pub open spec fn blank() -> Seq<bool> {
    Seq::new(PIXELS as nat, |i: int| false)
}

/// The pixel in column `x` of row `y` of a bitmap, rows stored one after the
/// other.
pub open spec fn pixel(frame: Seq<bool>, x: int, y: int) -> bool {
    frame[y * 128 + x]
}

/// The pixel in column `x` of row `y` of a packed bitmap: rows of
/// [`ROW_BYTES`] bytes, the highest bit of a byte being its leftmost pixel.
pub open spec fn packed_pixel(rows: Seq<u8>, x: int, y: int) -> bool {
    rows[y * 16 + x / 8] & (0x80u8 >> ((x % 8) as u8)) != 0
}

/// The bitmap that a packed bitmap of [`BITMAP_BYTES`] bytes stands for.
pub open spec fn unpacked(rows: Seq<u8>) -> Seq<bool> {
    Seq::new(PIXELS as nat, |i: int| packed_pixel(rows, i % 128, i / 128))
}

/// The value of a bit that is set (`weight`) or not (0).
pub open spec fn bit_value(lit: bool, weight: int) -> int {
    if lit {
        weight
    } else {
        0
    }
}

/// The byte that the device holds for column `column` of page `page`: bit
/// `k` is the pixel in row `8 * page + k`.
pub open spec fn column_byte(frame: Seq<bool>, page: int, column: int) -> int {
    bit_value(pixel(frame, column, 8 * page), 1)
        + bit_value(pixel(frame, column, 8 * page + 1), 2)
        + bit_value(pixel(frame, column, 8 * page + 2), 4)
        + bit_value(pixel(frame, column, 8 * page + 3), 8)
        + bit_value(pixel(frame, column, 8 * page + 4), 16)
        + bit_value(pixel(frame, column, 8 * page + 5), 32)
        + bit_value(pixel(frame, column, 8 * page + 6), 64)
        + bit_value(pixel(frame, column, 8 * page + 7), 128)
}

/// A mask if the bit is set, no bit otherwise.
pub open spec fn mask_if(lit: bool, mask: u8) -> u8 {
    if lit {
        mask
    } else {
        0
    }
}

/// The byte with the given bits, `b0` being the lowest.
pub open spec fn packed_byte(
    b0: bool,
    b1: bool,
    b2: bool,
    b3: bool,
    b4: bool,
    b5: bool,
    b6: bool,
    b7: bool,
) -> u8 {
    mask_if(b0, 0x01) | mask_if(b1, 0x02) | mask_if(b2, 0x04) | mask_if(b3, 0x08) | mask_if(
        b4,
        0x10,
    ) | mask_if(b5, 0x20) | mask_if(b6, 0x40) | mask_if(b7, 0x80)
}

/// The byte of a column holds its eight rows as its eight bits, the topmost
/// row in the lowest bit.
pub proof fn lemma_column_byte_bits(frame: Seq<bool>, page: int, column: int)
    ensures
        0 <= column_byte(frame, page, column) <= 255,
        column_byte(frame, page, column) as u8 == packed_byte(
            pixel(frame, column, 8 * page),
            pixel(frame, column, 8 * page + 1),
            pixel(frame, column, 8 * page + 2),
            pixel(frame, column, 8 * page + 3),
            pixel(frame, column, 8 * page + 4),
            pixel(frame, column, 8 * page + 5),
            pixel(frame, column, 8 * page + 6),
            pixel(frame, column, 8 * page + 7),
        ),
{
    let v0 = mask_if(pixel(frame, column, 8 * page), 0x01);
    let v1 = mask_if(pixel(frame, column, 8 * page + 1), 0x02);
    let v2 = mask_if(pixel(frame, column, 8 * page + 2), 0x04);
    let v3 = mask_if(pixel(frame, column, 8 * page + 3), 0x08);
    let v4 = mask_if(pixel(frame, column, 8 * page + 4), 0x10);
    let v5 = mask_if(pixel(frame, column, 8 * page + 5), 0x20);
    let v6 = mask_if(pixel(frame, column, 8 * page + 6), 0x40);
    let v7 = mask_if(pixel(frame, column, 8 * page + 7), 0x80);
    assert((v0 | v1 | v2 | v3 | v4 | v5 | v6 | v7) == v0 + v1 + v2 + v3 + v4 + v5 + v6 + v7)
        by (bit_vector)
        requires
            v0 == 0 || v0 == 0x01,
            v1 == 0 || v1 == 0x02,
            v2 == 0 || v2 == 0x04,
            v3 == 0 || v3 == 0x08,
            v4 == 0 || v4 == 0x10,
            v5 == 0 || v5 == 0x20,
            v6 == 0 || v6 == 0x40,
            v7 == 0 || v7 == 0x80,
    ;
}

/// The 128 bytes of a page, leftmost column first.
pub open spec fn page_data(frame: Seq<bool>, page: int) -> Seq<u8> {
    Seq::new(WIDTH as nat, |column: int| column_byte(frame, page, column) as u8)
}

/// Step `step` (0 to 3) of the push of page `page`: the page address, the low
/// and the high column address, then the data of the page.
pub open spec fn page_step(frame: Seq<bool>, page: int, step: int) -> OpModel {
    if step == 0 {
        OpModel::Command((PAGE_BASE + page) as u8)
    } else if step == 1 {
        OpModel::Command(COLUMN_LOW)
    } else if step == 2 {
        OpModel::Command(COLUMN_HIGH)
    } else {
        OpModel::Data(page_data(frame, page))
    }
}

/// The steps that push a whole frame to the device: every page in order,
/// each addressed anew, so that no part of the panel keeps older content.
pub open spec fn frame_push(frame: Seq<bool>) -> Seq<OpModel> {
    Seq::new(PUSH_STEPS as nat, |i: int| page_step(frame, i / 4, i % 4))
}

/// The logical bitmap of the panel.
pub struct FrameBuffer {
    pixels: Vec<bool>,
}

impl View for FrameBuffer {
    type V = Seq<bool>;

    closed spec fn view(&self) -> Seq<bool> {
        self.pixels@
    }
}

impl FrameBuffer {
    #[verifier::type_invariant]
    spec fn inv(self) -> bool {
        self.pixels.len() == PIXELS
    }

    /// A frame with every pixel off.
    pub fn new() -> (frame: FrameBuffer)
        ensures
            frame@ == blank(),
    {
        let mut pixels: Vec<bool> = Vec::new();
        let mut i: usize = 0;
        while i < PIXELS
            invariant
                i <= PIXELS,
                pixels.len() == i,
                forall|j: int| 0 <= j < i ==> !pixels[j],
            decreases PIXELS - i,
        {
            pixels.push(false);
            i = i + 1;
        }
        assert(pixels@ =~= blank());
        FrameBuffer { pixels }
    }

    /// Turns every pixel off.
    pub fn clear(&mut self)
        ensures
            final(self)@ == blank(),
    {
        let blank = FrameBuffer::new();
        *self = blank;
    }

    /// Whether the pixel in column `x` of row `y` is on. Outside the panel
    /// every pixel is off.
    pub fn get(&self, x: usize, y: usize) -> (lit: bool)
        ensures
            self@.len() == PIXELS,
            lit == (x < WIDTH && y < HEIGHT && pixel(self@, x as int, y as int)),
    {
        proof {
            use_type_invariant(self);
        }
        if x < WIDTH && y < HEIGHT {
            self.pixels[y * WIDTH + x]
        } else {
            false
        }
    }

    /// The frame that a packed bitmap stands for: rows of 16 bytes, the
    /// highest bit of a byte being its leftmost pixel. A bitmap of any length
    /// other than [`BITMAP_BYTES`] stands for no frame.
    pub fn from_bitmap(rows: &Vec<u8>) -> (frame: Option<FrameBuffer>)
        ensures
            frame is Some <==> rows@.len() == BITMAP_BYTES,
            frame matches Some(frame) ==> frame@ == unpacked(rows@),
    {
        if rows.len() != BITMAP_BYTES {
            return None;
        }
        let mut pixels: Vec<bool> = Vec::new();
        let mut i: usize = 0;
        while i < PIXELS
            invariant
                i <= PIXELS,
                rows.len() == BITMAP_BYTES,
                pixels.len() == i,
                forall|j: int| 0 <= j < i ==> pixels[j] == packed_pixel(rows@, j % 128, j / 128),
            decreases PIXELS - i,
        {
            let x: usize = i % WIDTH;
            let y: usize = i / WIDTH;
            let shift: u8 = (x % 8) as u8;
            let mask: u8 = 0x80u8 >> shift;
            let lit: bool = rows[y * ROW_BYTES + x / 8] & mask != 0;
            pixels.push(lit);
            i = i + 1;
        }
        assert(pixels@ =~= unpacked(rows@));
        Some(FrameBuffer { pixels })
    }

    /// The byte that the device holds for one column of one page.
    fn column(&self, page: usize, column: usize) -> (byte: u8)
        requires
            page < PAGES,
            column < WIDTH,
        ensures
            byte as int == column_byte(self@, page as int, column as int),
    {
        proof {
            use_type_invariant(self);
        }
        let top: usize = page * 8 * WIDTH + column;
        let mut byte: u8 = 0;
        if self.pixels[top] {
            byte = byte + 1;
        }
        if self.pixels[top + WIDTH] {
            byte = byte + 2;
        }
        if self.pixels[top + 2 * WIDTH] {
            byte = byte + 4;
        }
        if self.pixels[top + 3 * WIDTH] {
            byte = byte + 8;
        }
        if self.pixels[top + 4 * WIDTH] {
            byte = byte + 16;
        }
        if self.pixels[top + 5 * WIDTH] {
            byte = byte + 32;
        }
        if self.pixels[top + 6 * WIDTH] {
            byte = byte + 64;
        }
        if self.pixels[top + 7 * WIDTH] {
            byte = byte + 128;
        }
        byte
    }

    /// The data of one page as the device expects it: 128 bytes, one for
    /// each column from the left, each holding 8 rows with the topmost in its
    /// lowest bit. There are [`PAGES`] pages; a higher number has no data.
    pub fn page(&self, page: usize) -> (data: Option<Vec<u8>>)
        ensures
            data is Some <==> page < PAGES,
            data matches Some(data) ==> data@ == page_data(self@, page as int),
    {
        if page >= PAGES {
            return None;
        }
        let mut data: Vec<u8> = Vec::new();
        let mut column: usize = 0;
        while column < WIDTH
            invariant
                page < PAGES,
                column <= WIDTH,
                data.len() == column,
                forall|c: int| 0 <= c < column ==> data[c] as int == column_byte(self@, page as int, c),
            decreases WIDTH - column,
        {
            let byte = self.column(page, column);
            data.push(byte);
            column = column + 1;
        }
        assert(data@ =~= page_data(self@, page as int));
        Some(data)
    }

    /// The steps that push the whole frame to the device.
    pub fn push_plan(&self) -> (plan: Vec<BusOp>)
        ensures
            op_models(plan@) == frame_push(self@),
    {
        let mut plan: Vec<BusOp> = Vec::new();
        let mut page: usize = 0;
        while page < PAGES
            invariant
                page <= PAGES,
                plan.len() == 4 * page,
                forall|i: int| 0 <= i < plan.len() ==> (#[trigger] plan[i])@ == page_step(self@, i / 4, i % 4),
            decreases PAGES - page,
        {
            let data = match self.page(page) {
                Some(data) => data,
                None => Vec::new(),
            };
            plan.push(BusOp::Command(PAGE_BASE + page as u8));
            plan.push(BusOp::Command(COLUMN_LOW));
            plan.push(BusOp::Command(COLUMN_HIGH));
            plan.push(BusOp::Data(data));
            page = page + 1;
        }
        assert(op_models(plan@) =~= frame_push(self@));
        plan
    }
}

} // verus!
