use libtegra::fuse::{command_control, get_device_id, is_idle, visibility_control, FuseCommand};

#[test]
fn device_id_packs_fields() {
    assert_eq!(get_device_id(0x123, 0x45, 0x2A, 0x1234_5678, 0x15), 0x55_d6b0_4ca8_8b23);
    assert_eq!(get_device_id(1, 0, 0, 0, 0), 1);
    assert_eq!(get_device_id(0, 1, 0, 0, 0), 1 << 9);
    assert_eq!(get_device_id(0, 0, 0, 1, 0), 1 << 24);
    assert_eq!(get_device_id(0, 0, 0, 1 << 6, 0), 36 << 24);
}

#[test]
fn device_id_masks_fields() {
    assert_eq!(
        get_device_id(u32::MAX, u32::MAX, u32::MAX, u32::MAX, u32::MAX),
        0xfe_7cc0_cbff_ffff
    );
}

#[test]
fn control_words() {
    assert_eq!(command_control(0xABC3, FuseCommand::Read), 0xABC1);
    assert_eq!(command_control(0xABC0, FuseCommand::Write), 0xABC2);
    assert_eq!(command_control(0x1, FuseCommand::Sense), 0x3);
    assert!(is_idle(0x4_0000));
    assert!(is_idle(0xFFF4_FFFF));
    assert!(!is_idle(0x5_0000));
    assert!(!is_idle(0));
    assert_eq!(visibility_control(0xFFFF_FFFF, false), 0xEFFF_FFFF);
    assert_eq!(visibility_control(0x0000_0001, true), 0x1000_0001);
    assert_eq!(visibility_control(0x1000_0000, true), 0x1000_0000);
}
