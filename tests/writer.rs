use libtegra::font::glyph;
use libtegra::writer::{cell_offset, Writer};

const FG: u32 = 0xFFCC_CCCC;
const BG: u32 = 0xFF1B_1B1B;

#[test]
fn write_char_draws_glyph() {
    let mut w = Writer::new(0);
    w.x = 16;
    let cells = w.write_char('A').unwrap();
    assert_eq!(cells.len(), 64);
    // Row 1 of 'A' is 0x3C: columns 2 to 5 set.
    assert_eq!(cells[8], Some(BG));
    assert_eq!(cells[9], Some(BG));
    assert_eq!(cells[10], Some(FG));
    assert_eq!(cells[13], Some(FG));
    assert_eq!(cells[14], Some(BG));
    assert!(cells[..8].iter().all(|c| *c == Some(BG)));
    assert_eq!(w.x, 24);
    assert_eq!(w.y, 0);
}

#[test]
fn write_char_without_fill_leaves_background() {
    let mut w = Writer::new(0);
    w.fill_background = false;
    let cells = w.write_char('_').unwrap();
    assert!(cells[..56].iter().all(|c| c.is_none()));
    assert!(cells[56..].iter().all(|c| *c == Some(FG)));
}

#[test]
fn write_char_space_and_tilde() {
    let mut w = Writer::new(0);
    assert!(w.write_char(' ').unwrap().iter().all(|c| *c == Some(BG)));
    let tilde = w.write_char('~').unwrap();
    // Row 3 of '~' is 0x4C: columns 2, 3 and 6 set.
    assert_eq!(tilde[24 + 2], Some(FG));
    assert_eq!(tilde[24 + 3], Some(FG));
    assert_eq!(tilde[24 + 4], Some(BG));
    assert_eq!(tilde[24 + 6], Some(FG));
    assert_eq!(w.x, 16);
}

#[test]
fn write_char_line_break() {
    let mut w = Writer::new(0);
    w.x = 80;
    assert_eq!(w.write_char('\n'), Ok(vec![]));
    assert_eq!((w.x, w.y), (0, 8));
}

#[test]
fn write_char_refuses_unprintable() {
    let mut w = Writer::new(0);
    w.x = 8;
    assert_eq!(w.write_char('\u{7f}'), Err(()));
    assert_eq!(w.write_char('\t'), Err(()));
    assert_eq!(w.write_char('é'), Err(()));
    assert_eq!((w.x, w.y), (8, 0));
}

#[test]
fn glyph_table_entries() {
    assert_eq!(glyph(0), [0; 8]);
    assert_eq!(glyph(33), [0x00, 0x3C, 0x66, 0x7E, 0x66, 0x66, 0x66, 0x00]);
    assert_eq!(glyph(94), [0x00, 0x00, 0x00, 0x4C, 0x32, 0x00, 0x00, 0x00]);
}

#[test]
fn cell_offsets() {
    assert_eq!(cell_offset(0, 0, 0), 0);
    assert_eq!(cell_offset(16, 8, 0), 16 + 8 * 720);
    assert_eq!(cell_offset(16, 8, 9), 16 + 9 * 720 + 1);
    assert_eq!(cell_offset(u32::MAX, 1272, 63), u64::from(u32::MAX) + 1279 * 720 + 7);
}
