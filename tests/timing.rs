use libtegra::timing::{divisor, wait_cycles, wait_symbols};

#[test]
fn divisor_matches_formula_over_range() {
    let mut b: u32 = 300;
    while b <= 12_500_000 {
        let expected = (8 * u64::from(b) + 408_000_000) / (16 * u64::from(b));
        assert_eq!(u64::from(divisor(b)), expected);
        b = b + 1 + b / 64;
    }
    assert_eq!(divisor(12_500_000), 2);
}

#[test]
fn divisor_exact_values() {
    assert_eq!(divisor(300), 85_000);
    assert_eq!(divisor(9600), 2656);
    assert_eq!(divisor(115_200), 221);
    assert_eq!(divisor(921_600), 28);
    assert_eq!(divisor(1), 25_500_000);
}

#[test]
fn wait_times_exact_values() {
    assert_eq!(wait_symbols(9600, 3), 313);
    assert_eq!(wait_cycles(9600, 32), (32_000_000 + 153_600 - 1) / 153_600);
    assert_eq!(wait_cycles(9600, 32), 209);
    assert_eq!(wait_symbols(9600, 32), 3334);
    assert_eq!(wait_cycles(9600, 3), 20);
    assert_eq!(wait_symbols(115_200, 3), 27);
    assert_eq!(wait_symbols(1_000_000, 1), 1);
    assert_eq!(wait_symbols(1, u32::MAX), 4_294_967_295_000_000);
    assert_eq!(wait_symbols(9600, 0), 0);
}

#[test]
fn wait_times_monotonic() {
    for n in 0..50u32 {
        assert!(wait_symbols(9600, n) <= wait_symbols(9600, n + 1));
        assert!(wait_cycles(9600, n) <= wait_cycles(9600, n + 1));
        assert!(wait_symbols(115_200, n) <= wait_symbols(9600, n));
        assert!(wait_cycles(115_200, n) <= wait_cycles(9600, n));
    }
}
