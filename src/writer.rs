//! Cursor of the text writer that draws characters into the framebuffer.

use vstd::prelude::*;

use crate::font::{font_glyph, glyph};

verus! {

/// Height of the framebuffer in pixels.
pub const FRAMEBUFFER_HEIGHT: u32 = 1280;
/// Width of the framebuffer in pixels.
pub const FRAMEBUFFER_WIDTH: u32 = 720;
/// Pixels from the start of one framebuffer line to the next.
pub const GFX_STRIDE: u32 = 720;
/// Height of a character cell in pixels.
pub const CHAR_HEIGHT: u32 = 8;

/// The text writer: framebuffer, colors and cursor.
#[derive(Clone, Copy, Debug, PartialEq, Eq, Structural)]
pub struct Writer {
    /// Address of the framebuffer.
    pub framebuffer: u32,
    /// Color of set glyph pixels.
    pub foreground_color: u32,
    /// Whether unset glyph pixels are painted with the background color.
    pub fill_background: bool,
    /// Color of unset glyph pixels.
    pub background_color: u32,
    /// X coordinate of the cursor.
    pub x: u32,
    /// Y coordinate of the cursor.
    pub y: u32,
}

/// The writer with its cursor at the start of the next line, or back at
/// the top once the next line would not fit.
pub open spec fn next_line(w: Writer) -> Writer {
    Writer {
        x: 0,
        y: if w.y + CHAR_HEIGHT > FRAMEBUFFER_HEIGHT - CHAR_HEIGHT {
            0
        } else {
            (w.y + CHAR_HEIGHT) as u32
        },
        ..w
    }
}

/// The character has a glyph in the font.
pub open spec fn is_printable(c: char) -> bool {
    32 <= c as u32 <= 126
}

/// What a glyph cell becomes: the foreground color where bit `col` of the
/// glyph row is set, else the background color when the writer fills the
/// background, else nothing (the pixel is left as it is).
pub open spec fn cell_color(w: Writer, row: u8, col: u8) -> Option<u32> {
    if (row >> col) & 1 != 0 {
        Some(w.foreground_color)
    } else if w.fill_background {
        Some(w.background_color)
    } else {
        None
    }
}

/// The 64 cells of a glyph with rows `rows`, row by row, each from left
/// to right.
pub open spec fn glyph_cells(w: Writer, rows: Seq<u8>) -> Seq<Option<u32>> {
    Seq::new(64, |i: int| cell_color(w, rows[i / 8], (i % 8) as u8))
}

impl Writer {
    /// A writer on the framebuffer at `framebuffer`, light grey on dark
    /// grey, with its cursor at the top left.
    pub fn new(framebuffer: u32) -> (w: Writer)
        ensures
            w.framebuffer == framebuffer,
            w.foreground_color == 0xFFCC_CCCC,
            w.fill_background,
            w.background_color == 0xFF1B_1B1B,
            w.x == 0,
            w.y == 0,
    {
        Writer {
            framebuffer,
            foreground_color: 0xFFCC_CCCC,
            fill_background: true,
            background_color: 0xFF1B_1B1B,
            x: 0,
            y: 0,
        }
    }

    /// Moves the cursor to the start of the next line, back to the top
    /// once the next line would not fit.
    pub fn new_line(&mut self)
        ensures
            *final(self) == next_line(*old(self)),
    {
        self.x = 0;
        if self.y > FRAMEBUFFER_HEIGHT - 2 * CHAR_HEIGHT {
            self.y = 0;
        } else {
            self.y = self.y + CHAR_HEIGHT;
        }
    }
    /// Draws `character` at the cursor. A line break moves the cursor to
    /// the next line and draws nothing. A printable character yields its
    /// 64 glyph cells, row by row from the cursor's pixel, rows
    /// `GFX_STRIDE` pixels apart, and moves the cursor one cell right.
    /// Any other character is refused and changes nothing.
    pub fn write_char(&mut self, character: char) -> (r: Result<Vec<Option<u32>>, ()>)
        requires
            is_printable(character) ==> old(self).x <= u32::MAX - 8,
        ensures
            character == '\n' ==> r is Ok && r->Ok_0@.len() == 0 && *final(self) == next_line(
                *old(self),
            ),
            is_printable(character) ==> r is Ok && r->Ok_0@ == glyph_cells(
                *old(self),
                font_glyph((character as u32 - 32) as usize),
            ) && *final(self) == (Writer { x: (old(self).x + 8) as u32, ..*old(self) }),
            character != '\n' && !is_printable(character) ==> r is Err && *final(self) == *old(
                self,
            ),
    {
        if character == '\n' {
            self.new_line();
            return Ok(Vec::new());
        }
        let code = character as u32;
        if code < 32 || code > 126 {
            return Err(());
        }
        let rows = glyph((code - 32) as usize);
        let mut cells: Vec<Option<u32>> = Vec::new();
        let mut i: usize = 0;
        while i < 64
            invariant
                i <= 64,
                rows@ == font_glyph((code - 32) as usize),
                cells@.len() == i,
                forall|j: int| 0 <= j < i ==> cells@[j] == cell_color(*self, rows@[j / 8], (j % 8) as u8),
            decreases 64 - i,
        {
            let row = rows[i / 8];
            let col = (i % 8) as u8;
            let cell = if (row >> col) & 1 != 0 {
                Some(self.foreground_color)
            } else if self.fill_background {
                Some(self.background_color)
            } else {
                None
            };
            cells.push(cell);
            i = i + 1;
        }
        assert(cells@ =~= glyph_cells(*self, rows@));
        self.x = self.x + 8;
        Ok(cells)
    }
}

/// Offset in pixels, from the start of the framebuffer, of cell `i` of a
/// glyph drawn with the cursor at (`x`, `y`).
pub fn cell_offset(x: u32, y: u32, i: usize) -> (o: u64)
    requires
        i < 64,
    ensures
        o == x + (y + i / 8) * GFX_STRIDE + i % 8,
{
    let row = (i / 8) as u64;
    let col = (i % 8) as u64;
    assert((y as u64 + row) * (GFX_STRIDE as u64) <= 0x1_0000_0008 * 720) by (nonlinear_arith)
        requires
            row < 8,
    ;
    x as u64 + (y as u64 + row) * (GFX_STRIDE as u64) + col
}

} // verus!
