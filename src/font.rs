//! Bitmap font of the printable ASCII characters, 8 by 8 pixels.

use vstd::prelude::*;

verus! {

/// Number of printable characters, from `' '` (32) to `'~'` (126).
pub const GLYPH_COUNT: usize = 95;

/// Rows of the glyph of printable character `i + 32`, top row first; bit
/// `c` of a row is the pixel in column `c`.
pub open spec fn font_glyph(i: usize) -> Seq<u8> {
    match i {
        0 => seq![0x00u8, 0x00, 0x00, 0x00, 0x00, 0x00, 0x00, 0x00],
        1 => seq![0x00u8, 0x30, 0x30, 0x18, 0x18, 0x00, 0x0C, 0x00],
        2 => seq![0x00u8, 0x22, 0x22, 0x22, 0x00, 0x00, 0x00, 0x00],
        3 => seq![0x00u8, 0x66, 0x66, 0xFF, 0x66, 0xFF, 0x66, 0x66],
        4 => seq![0x00u8, 0x18, 0x7C, 0x06, 0x3C, 0x60, 0x3E, 0x18],
        5 => seq![0x00u8, 0x46, 0x66, 0x30, 0x18, 0x0C, 0x66, 0x62],
        6 => seq![0x00u8, 0x3C, 0x66, 0x3C, 0x1C, 0xE6, 0x66, 0xFC],
        7 => seq![0x00u8, 0x18, 0x0C, 0x06, 0x00, 0x00, 0x00, 0x00],
        8 => seq![0x00u8, 0x30, 0x18, 0x0C, 0x0C, 0x18, 0x30, 0x00],
        9 => seq![0x00u8, 0x0C, 0x18, 0x30, 0x30, 0x18, 0x0C, 0x00],
        10 => seq![0x00u8, 0x66, 0x3C, 0xFF, 0x3C, 0x66, 0x00, 0x00],
        11 => seq![0x00u8, 0x18, 0x18, 0x7E, 0x18, 0x18, 0x00, 0x00],
        12 => seq![0x00u8, 0x00, 0x00, 0x00, 0x18, 0x18, 0x0C, 0x00],
        13 => seq![0x00u8, 0x00, 0x00, 0x3E, 0x00, 0x00, 0x00, 0x00],
        14 => seq![0x00u8, 0x00, 0x00, 0x00, 0x00, 0x18, 0x18, 0x00],
        15 => seq![0x00u8, 0x40, 0x60, 0x30, 0x18, 0x0C, 0x06, 0x00],
        16 => seq![0x00u8, 0x3C, 0x66, 0x76, 0x6E, 0x66, 0x3C, 0x00],
        17 => seq![0x00u8, 0x18, 0x1C, 0x18, 0x18, 0x18, 0x7E, 0x00],
        18 => seq![0x00u8, 0x3C, 0x62, 0x30, 0x0C, 0x06, 0x7E, 0x00],
        19 => seq![0x00u8, 0x3C, 0x62, 0x38, 0x60, 0x66, 0x3C, 0x00],
        20 => seq![0x00u8, 0x6C, 0x6C, 0x66, 0xFE, 0x60, 0x60, 0x00],
        21 => seq![0x00u8, 0x7E, 0x06, 0x7E, 0x60, 0x66, 0x3C, 0x00],
        22 => seq![0x00u8, 0x3C, 0x06, 0x3E, 0x66, 0x66, 0x3C, 0x00],
        23 => seq![0x00u8, 0x7E, 0x30, 0x30, 0x18, 0x18, 0x18, 0x00],
        24 => seq![0x00u8, 0x3C, 0x66, 0x3C, 0x66, 0x66, 0x3C, 0x00],
        25 => seq![0x00u8, 0x3C, 0x66, 0x7C, 0x60, 0x66, 0x3C, 0x00],
        26 => seq![0x00u8, 0x00, 0x18, 0x00, 0x00, 0x00, 0x18, 0x00],
        27 => seq![0x00u8, 0x00, 0x18, 0x00, 0x18, 0x18, 0x0C, 0x00],
        28 => seq![0x00u8, 0x70, 0x1C, 0x06, 0x06, 0x1C, 0x70, 0x00],
        29 => seq![0x00u8, 0x00, 0x3E, 0x00, 0x3E, 0x00, 0x00, 0x00],
        30 => seq![0x00u8, 0x0E, 0x38, 0x60, 0x60, 0x38, 0x0E, 0x00],
        31 => seq![0x00u8, 0x3C, 0x66, 0x30, 0x18, 0x00, 0x18, 0x00],
        32 => seq![0x00u8, 0x3C, 0x66, 0x76, 0x76, 0x06, 0x46, 0x3C],
        33 => seq![0x00u8, 0x3C, 0x66, 0x7E, 0x66, 0x66, 0x66, 0x00],
        34 => seq![0x00u8, 0x3E, 0x66, 0x3E, 0x66, 0x66, 0x3E, 0x00],
        35 => seq![0x00u8, 0x3C, 0x66, 0x06, 0x06, 0x66, 0x3C, 0x00],
        36 => seq![0x00u8, 0x1E, 0x36, 0x66, 0x66, 0x36, 0x1E, 0x00],
        37 => seq![0x00u8, 0x7E, 0x06, 0x1E, 0x06, 0x06, 0x7E, 0x00],
        38 => seq![0x00u8, 0x3E, 0x06, 0x1E, 0x06, 0x06, 0x06, 0x00],
        39 => seq![0x00u8, 0x3C, 0x66, 0x06, 0x76, 0x66, 0x3C, 0x00],
        40 => seq![0x00u8, 0x66, 0x66, 0x7E, 0x66, 0x66, 0x66, 0x00],
        41 => seq![0x00u8, 0x3C, 0x18, 0x18, 0x18, 0x18, 0x3C, 0x00],
        42 => seq![0x00u8, 0x78, 0x30, 0x30, 0x30, 0x36, 0x1C, 0x00],
        43 => seq![0x00u8, 0x66, 0x36, 0x1E, 0x1E, 0x36, 0x66, 0x00],
        44 => seq![0x00u8, 0x06, 0x06, 0x06, 0x06, 0x06, 0x7E, 0x00],
        45 => seq![0x00u8, 0x46, 0x6E, 0x7E, 0x56, 0x46, 0x46, 0x00],
        46 => seq![0x00u8, 0x66, 0x6E, 0x7E, 0x76, 0x66, 0x66, 0x00],
        47 => seq![0x00u8, 0x3C, 0x66, 0x66, 0x66, 0x66, 0x3C, 0x00],
        48 => seq![0x00u8, 0x3E, 0x66, 0x3E, 0x06, 0x06, 0x06, 0x00],
        49 => seq![0x00u8, 0x3C, 0x66, 0x66, 0x66, 0x3C, 0x70, 0x00],
        50 => seq![0x00u8, 0x3E, 0x66, 0x3E, 0x1E, 0x36, 0x66, 0x00],
        51 => seq![0x00u8, 0x3C, 0x66, 0x0C, 0x30, 0x66, 0x3C, 0x00],
        52 => seq![0x00u8, 0x7E, 0x18, 0x18, 0x18, 0x18, 0x18, 0x00],
        53 => seq![0x00u8, 0x66, 0x66, 0x66, 0x66, 0x66, 0x3C, 0x00],
        54 => seq![0x00u8, 0x66, 0x66, 0x66, 0x66, 0x3C, 0x18, 0x00],
        55 => seq![0x00u8, 0x46, 0x46, 0x56, 0x7E, 0x6E, 0x46, 0x00],
        56 => seq![0x00u8, 0x66, 0x3C, 0x18, 0x3C, 0x66, 0x66, 0x00],
        57 => seq![0x00u8, 0x66, 0x66, 0x3C, 0x18, 0x18, 0x18, 0x00],
        58 => seq![0x00u8, 0x7E, 0x30, 0x18, 0x0C, 0x06, 0x7E, 0x00],
        59 => seq![0x00u8, 0x3C, 0x0C, 0x0C, 0x0C, 0x0C, 0x0C, 0x3C],
        60 => seq![0x00u8, 0x06, 0x0C, 0x18, 0x30, 0x60, 0x40, 0x00],
        61 => seq![0x00u8, 0x3C, 0x30, 0x30, 0x30, 0x30, 0x30, 0x3C],
        62 => seq![0x00u8, 0x18, 0x3C, 0x66, 0x00, 0x00, 0x00, 0x00],
        63 => seq![0x00u8, 0x00, 0x00, 0x00, 0x00, 0x00, 0x00, 0xFF],
        64 => seq![0x00u8, 0x0C, 0x18, 0x30, 0x00, 0x00, 0x00, 0x00],
        65 => seq![0x00u8, 0x00, 0x3C, 0x60, 0x7C, 0x66, 0x7C, 0x00],
        66 => seq![0x00u8, 0x06, 0x06, 0x3E, 0x66, 0x66, 0x3E, 0x00],
        67 => seq![0x00u8, 0x00, 0x3C, 0x06, 0x06, 0x06, 0x3C, 0x00],
        68 => seq![0x00u8, 0x60, 0x60, 0x7C, 0x66, 0x66, 0x7C, 0x00],
        69 => seq![0x00u8, 0x00, 0x3C, 0x66, 0x7E, 0x06, 0x3C, 0x00],
        70 => seq![0x00u8, 0x38, 0x0C, 0x3E, 0x0C, 0x0C, 0x0C, 0x00],
        71 => seq![0x00u8, 0x00, 0x7C, 0x66, 0x7C, 0x40, 0x3C, 0x00],
        72 => seq![0x00u8, 0x06, 0x06, 0x3E, 0x66, 0x66, 0x66, 0x00],
        73 => seq![0x00u8, 0x18, 0x00, 0x1C, 0x18, 0x18, 0x3C, 0x00],
        74 => seq![0x00u8, 0x30, 0x00, 0x30, 0x30, 0x30, 0x1E, 0x00],
        75 => seq![0x00u8, 0x06, 0x06, 0x36, 0x1E, 0x36, 0x66, 0x00],
        76 => seq![0x00u8, 0x1C, 0x18, 0x18, 0x18, 0x18, 0x3C, 0x00],
        77 => seq![0x00u8, 0x00, 0x66, 0xFE, 0xFE, 0xD6, 0xC6, 0x00],
        78 => seq![0x00u8, 0x00, 0x3E, 0x66, 0x66, 0x66, 0x66, 0x00],
        79 => seq![0x00u8, 0x00, 0x3C, 0x66, 0x66, 0x66, 0x3C, 0x00],
        80 => seq![0x00u8, 0x00, 0x3E, 0x66, 0x66, 0x3E, 0x06, 0x00],
        81 => seq![0x00u8, 0x00, 0x7C, 0x66, 0x66, 0x7C, 0x60, 0x00],
        82 => seq![0x00u8, 0x00, 0x3E, 0x66, 0x06, 0x06, 0x06, 0x00],
        83 => seq![0x00u8, 0x00, 0x7C, 0x06, 0x3C, 0x60, 0x3E, 0x00],
        84 => seq![0x00u8, 0x18, 0x7E, 0x18, 0x18, 0x18, 0x70, 0x00],
        85 => seq![0x00u8, 0x00, 0x66, 0x66, 0x66, 0x66, 0x7C, 0x00],
        86 => seq![0x00u8, 0x00, 0x66, 0x66, 0x66, 0x3C, 0x18, 0x00],
        87 => seq![0x00u8, 0x00, 0xC6, 0xD6, 0xFE, 0x7C, 0x6C, 0x00],
        88 => seq![0x00u8, 0x00, 0x66, 0x3C, 0x18, 0x3C, 0x66, 0x00],
        89 => seq![0x00u8, 0x00, 0x66, 0x66, 0x7C, 0x60, 0x3C, 0x00],
        90 => seq![0x00u8, 0x00, 0x7E, 0x30, 0x18, 0x0C, 0x7E, 0x00],
        91 => seq![0x00u8, 0x18, 0x08, 0x08, 0x04, 0x08, 0x08, 0x18],
        92 => seq![0x00u8, 0x08, 0x08, 0x08, 0x08, 0x08, 0x08, 0x08],
        93 => seq![0x00u8, 0x0C, 0x08, 0x08, 0x10, 0x08, 0x08, 0x0C],
        _ => seq![0x00u8, 0x00, 0x00, 0x4C, 0x32, 0x00, 0x00, 0x00],
    }
}

/// The glyph of printable character `i + 32`.
#[verifier::rlimit(50)]
pub fn glyph(i: usize) -> (g: [u8; 8])
    requires
        i < GLYPH_COUNT,
    ensures
        g@ == font_glyph(i),
{
    let g = match i {
        0 => [0x00u8, 0x00, 0x00, 0x00, 0x00, 0x00, 0x00, 0x00],
        1 => [0x00u8, 0x30, 0x30, 0x18, 0x18, 0x00, 0x0C, 0x00],
        2 => [0x00u8, 0x22, 0x22, 0x22, 0x00, 0x00, 0x00, 0x00],
        3 => [0x00u8, 0x66, 0x66, 0xFF, 0x66, 0xFF, 0x66, 0x66],
        4 => [0x00u8, 0x18, 0x7C, 0x06, 0x3C, 0x60, 0x3E, 0x18],
        5 => [0x00u8, 0x46, 0x66, 0x30, 0x18, 0x0C, 0x66, 0x62],
        6 => [0x00u8, 0x3C, 0x66, 0x3C, 0x1C, 0xE6, 0x66, 0xFC],
        7 => [0x00u8, 0x18, 0x0C, 0x06, 0x00, 0x00, 0x00, 0x00],
        8 => [0x00u8, 0x30, 0x18, 0x0C, 0x0C, 0x18, 0x30, 0x00],
        9 => [0x00u8, 0x0C, 0x18, 0x30, 0x30, 0x18, 0x0C, 0x00],
        10 => [0x00u8, 0x66, 0x3C, 0xFF, 0x3C, 0x66, 0x00, 0x00],
        11 => [0x00u8, 0x18, 0x18, 0x7E, 0x18, 0x18, 0x00, 0x00],
        12 => [0x00u8, 0x00, 0x00, 0x00, 0x18, 0x18, 0x0C, 0x00],
        13 => [0x00u8, 0x00, 0x00, 0x3E, 0x00, 0x00, 0x00, 0x00],
        14 => [0x00u8, 0x00, 0x00, 0x00, 0x00, 0x18, 0x18, 0x00],
        15 => [0x00u8, 0x40, 0x60, 0x30, 0x18, 0x0C, 0x06, 0x00],
        16 => [0x00u8, 0x3C, 0x66, 0x76, 0x6E, 0x66, 0x3C, 0x00],
        17 => [0x00u8, 0x18, 0x1C, 0x18, 0x18, 0x18, 0x7E, 0x00],
        18 => [0x00u8, 0x3C, 0x62, 0x30, 0x0C, 0x06, 0x7E, 0x00],
        19 => [0x00u8, 0x3C, 0x62, 0x38, 0x60, 0x66, 0x3C, 0x00],
        20 => [0x00u8, 0x6C, 0x6C, 0x66, 0xFE, 0x60, 0x60, 0x00],
        21 => [0x00u8, 0x7E, 0x06, 0x7E, 0x60, 0x66, 0x3C, 0x00],
        22 => [0x00u8, 0x3C, 0x06, 0x3E, 0x66, 0x66, 0x3C, 0x00],
        23 => [0x00u8, 0x7E, 0x30, 0x30, 0x18, 0x18, 0x18, 0x00],
        24 => [0x00u8, 0x3C, 0x66, 0x3C, 0x66, 0x66, 0x3C, 0x00],
        25 => [0x00u8, 0x3C, 0x66, 0x7C, 0x60, 0x66, 0x3C, 0x00],
        26 => [0x00u8, 0x00, 0x18, 0x00, 0x00, 0x00, 0x18, 0x00],
        27 => [0x00u8, 0x00, 0x18, 0x00, 0x18, 0x18, 0x0C, 0x00],
        28 => [0x00u8, 0x70, 0x1C, 0x06, 0x06, 0x1C, 0x70, 0x00],
        29 => [0x00u8, 0x00, 0x3E, 0x00, 0x3E, 0x00, 0x00, 0x00],
        30 => [0x00u8, 0x0E, 0x38, 0x60, 0x60, 0x38, 0x0E, 0x00],
        31 => [0x00u8, 0x3C, 0x66, 0x30, 0x18, 0x00, 0x18, 0x00],
        32 => [0x00u8, 0x3C, 0x66, 0x76, 0x76, 0x06, 0x46, 0x3C],
        33 => [0x00u8, 0x3C, 0x66, 0x7E, 0x66, 0x66, 0x66, 0x00],
        34 => [0x00u8, 0x3E, 0x66, 0x3E, 0x66, 0x66, 0x3E, 0x00],
        35 => [0x00u8, 0x3C, 0x66, 0x06, 0x06, 0x66, 0x3C, 0x00],
        36 => [0x00u8, 0x1E, 0x36, 0x66, 0x66, 0x36, 0x1E, 0x00],
        37 => [0x00u8, 0x7E, 0x06, 0x1E, 0x06, 0x06, 0x7E, 0x00],
        38 => [0x00u8, 0x3E, 0x06, 0x1E, 0x06, 0x06, 0x06, 0x00],
        39 => [0x00u8, 0x3C, 0x66, 0x06, 0x76, 0x66, 0x3C, 0x00],
        40 => [0x00u8, 0x66, 0x66, 0x7E, 0x66, 0x66, 0x66, 0x00],
        41 => [0x00u8, 0x3C, 0x18, 0x18, 0x18, 0x18, 0x3C, 0x00],
        42 => [0x00u8, 0x78, 0x30, 0x30, 0x30, 0x36, 0x1C, 0x00],
        43 => [0x00u8, 0x66, 0x36, 0x1E, 0x1E, 0x36, 0x66, 0x00],
        44 => [0x00u8, 0x06, 0x06, 0x06, 0x06, 0x06, 0x7E, 0x00],
        45 => [0x00u8, 0x46, 0x6E, 0x7E, 0x56, 0x46, 0x46, 0x00],
        46 => [0x00u8, 0x66, 0x6E, 0x7E, 0x76, 0x66, 0x66, 0x00],
        47 => [0x00u8, 0x3C, 0x66, 0x66, 0x66, 0x66, 0x3C, 0x00],
        48 => [0x00u8, 0x3E, 0x66, 0x3E, 0x06, 0x06, 0x06, 0x00],
        49 => [0x00u8, 0x3C, 0x66, 0x66, 0x66, 0x3C, 0x70, 0x00],
        50 => [0x00u8, 0x3E, 0x66, 0x3E, 0x1E, 0x36, 0x66, 0x00],
        51 => [0x00u8, 0x3C, 0x66, 0x0C, 0x30, 0x66, 0x3C, 0x00],
        52 => [0x00u8, 0x7E, 0x18, 0x18, 0x18, 0x18, 0x18, 0x00],
        53 => [0x00u8, 0x66, 0x66, 0x66, 0x66, 0x66, 0x3C, 0x00],
        54 => [0x00u8, 0x66, 0x66, 0x66, 0x66, 0x3C, 0x18, 0x00],
        55 => [0x00u8, 0x46, 0x46, 0x56, 0x7E, 0x6E, 0x46, 0x00],
        56 => [0x00u8, 0x66, 0x3C, 0x18, 0x3C, 0x66, 0x66, 0x00],
        57 => [0x00u8, 0x66, 0x66, 0x3C, 0x18, 0x18, 0x18, 0x00],
        58 => [0x00u8, 0x7E, 0x30, 0x18, 0x0C, 0x06, 0x7E, 0x00],
        59 => [0x00u8, 0x3C, 0x0C, 0x0C, 0x0C, 0x0C, 0x0C, 0x3C],
        60 => [0x00u8, 0x06, 0x0C, 0x18, 0x30, 0x60, 0x40, 0x00],
        61 => [0x00u8, 0x3C, 0x30, 0x30, 0x30, 0x30, 0x30, 0x3C],
        62 => [0x00u8, 0x18, 0x3C, 0x66, 0x00, 0x00, 0x00, 0x00],
        63 => [0x00u8, 0x00, 0x00, 0x00, 0x00, 0x00, 0x00, 0xFF],
        64 => [0x00u8, 0x0C, 0x18, 0x30, 0x00, 0x00, 0x00, 0x00],
        65 => [0x00u8, 0x00, 0x3C, 0x60, 0x7C, 0x66, 0x7C, 0x00],
        66 => [0x00u8, 0x06, 0x06, 0x3E, 0x66, 0x66, 0x3E, 0x00],
        67 => [0x00u8, 0x00, 0x3C, 0x06, 0x06, 0x06, 0x3C, 0x00],
        68 => [0x00u8, 0x60, 0x60, 0x7C, 0x66, 0x66, 0x7C, 0x00],
        69 => [0x00u8, 0x00, 0x3C, 0x66, 0x7E, 0x06, 0x3C, 0x00],
        70 => [0x00u8, 0x38, 0x0C, 0x3E, 0x0C, 0x0C, 0x0C, 0x00],
        71 => [0x00u8, 0x00, 0x7C, 0x66, 0x7C, 0x40, 0x3C, 0x00],
        72 => [0x00u8, 0x06, 0x06, 0x3E, 0x66, 0x66, 0x66, 0x00],
        73 => [0x00u8, 0x18, 0x00, 0x1C, 0x18, 0x18, 0x3C, 0x00],
        74 => [0x00u8, 0x30, 0x00, 0x30, 0x30, 0x30, 0x1E, 0x00],
        75 => [0x00u8, 0x06, 0x06, 0x36, 0x1E, 0x36, 0x66, 0x00],
        76 => [0x00u8, 0x1C, 0x18, 0x18, 0x18, 0x18, 0x3C, 0x00],
        77 => [0x00u8, 0x00, 0x66, 0xFE, 0xFE, 0xD6, 0xC6, 0x00],
        78 => [0x00u8, 0x00, 0x3E, 0x66, 0x66, 0x66, 0x66, 0x00],
        79 => [0x00u8, 0x00, 0x3C, 0x66, 0x66, 0x66, 0x3C, 0x00],
        80 => [0x00u8, 0x00, 0x3E, 0x66, 0x66, 0x3E, 0x06, 0x00],
        81 => [0x00u8, 0x00, 0x7C, 0x66, 0x66, 0x7C, 0x60, 0x00],
        82 => [0x00u8, 0x00, 0x3E, 0x66, 0x06, 0x06, 0x06, 0x00],
        83 => [0x00u8, 0x00, 0x7C, 0x06, 0x3C, 0x60, 0x3E, 0x00],
        84 => [0x00u8, 0x18, 0x7E, 0x18, 0x18, 0x18, 0x70, 0x00],
        85 => [0x00u8, 0x00, 0x66, 0x66, 0x66, 0x66, 0x7C, 0x00],
        86 => [0x00u8, 0x00, 0x66, 0x66, 0x66, 0x3C, 0x18, 0x00],
        87 => [0x00u8, 0x00, 0xC6, 0xD6, 0xFE, 0x7C, 0x6C, 0x00],
        88 => [0x00u8, 0x00, 0x66, 0x3C, 0x18, 0x3C, 0x66, 0x00],
        89 => [0x00u8, 0x00, 0x66, 0x66, 0x7C, 0x60, 0x3C, 0x00],
        90 => [0x00u8, 0x00, 0x7E, 0x30, 0x18, 0x0C, 0x7E, 0x00],
        91 => [0x00u8, 0x18, 0x08, 0x08, 0x04, 0x08, 0x08, 0x18],
        92 => [0x00u8, 0x08, 0x08, 0x08, 0x08, 0x08, 0x08, 0x08],
        93 => [0x00u8, 0x0C, 0x08, 0x08, 0x10, 0x08, 0x08, 0x0C],
        _ => [0x00u8, 0x00, 0x00, 0x4C, 0x32, 0x00, 0x00, 0x00],
    };
    assert(g@ =~= font_glyph(i));
    g
}

} // verus!
