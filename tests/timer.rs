use libtegra::display::{display_backlight, hide_backlight, GpioLevel};
use libtegra::timer::{get_milliseconds, get_time_since, msleep, sleep, usleep};
use libtegra::writer::Writer;

#[test]
fn time_since_wraps() {
    assert_eq!(get_time_since(150, 100), 50);
    assert_eq!(get_time_since(5, u32::MAX - 4), 10);
    assert_eq!(get_time_since(7, 7), 0);
}

#[test]
fn milliseconds_combine_registers() {
    assert_eq!(get_milliseconds(0x3, 0x2), 0x803);
    assert_eq!(get_milliseconds(0, 0xFFFF_FFFF), 0xFFFF_FC00);
}

#[test]
fn sleeps_end_after_duration() {
    assert!(!usleep(1000, 1500, 501));
    assert!(usleep(1000, 1501, 501));
    assert!(usleep(u32::MAX - 10, 20, 31));
    assert!(!msleep(u32::MAX - 10, 19, 31));
    assert!(sleep(3, 3, 0));
    assert!(!sleep(3, 4, 2));
}

#[test]
fn new_line_moves_down_and_wraps() {
    let mut w = Writer::new(0xC000_0000);
    assert_eq!((w.x, w.y), (0, 0));
    assert_eq!(w.framebuffer, 0xC000_0000);
    assert!(w.fill_background);
    w.x = 40;
    w.new_line();
    assert_eq!((w.x, w.y), (0, 8));
    w.y = 1264;
    w.new_line();
    assert_eq!(w.y, 1272);
    w.new_line();
    assert_eq!(w.y, 0);
    assert_eq!(w.foreground_color, 0xFFCC_CCCC);
    assert_eq!(w.background_color, 0xFF1B_1B1B);
}

#[test]
fn backlight_levels() {
    assert_eq!(display_backlight(), GpioLevel::High);
    assert_eq!(hide_backlight(), GpioLevel::Low);
}
