use libtegra::pinmux::{I2c, PadWrite, Pinmux, INPUT, PULL_DOWN, PULL_UP};
use libtegra::uart::Uart;

#[test]
fn uart_a_pads() {
    let w = Pinmux.configure_uart(&Uart::a());
    assert_eq!(
        w,
        vec![
            PadWrite { address: 0x7000_30E4, value: 0 },
            PadWrite { address: 0x7000_30E8, value: INPUT | PULL_UP },
            PadWrite { address: 0x7000_30EC, value: 0 },
            PadWrite { address: 0x7000_30F0, value: INPUT | PULL_DOWN },
        ]
    );
    assert_eq!(INPUT | PULL_UP, 0x48);
    assert_eq!(INPUT | PULL_DOWN, 0x44);
}

#[test]
fn uart_d_and_e_pads() {
    let d = Pinmux.configure_uart(&Uart::d());
    assert_eq!(d.len(), 4);
    assert_eq!(d[0].address, 0x7000_3114);
    assert_eq!(d[3], PadWrite { address: 0x7000_3120, value: INPUT | PULL_DOWN });
    assert!(Pinmux.configure_uart(&Uart::e()).is_empty());
}

#[test]
fn i2c_pads() {
    assert_eq!(
        Pinmux.configure_i2c(&I2c::C1),
        vec![
            PadWrite { address: 0x7000_30BC, value: INPUT },
            PadWrite { address: 0x7000_30C0, value: INPUT },
        ]
    );
    assert_eq!(Pinmux.configure_i2c(&I2c::C5)[1].address, 0x7000_30E0);
    assert!(Pinmux.configure_i2c(&I2c::C6).is_empty());
}
