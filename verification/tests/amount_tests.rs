use reconciler::amount::{coin_display_string, u64_digits, SATS_PER_COIN};

#[test]
fn whole_amounts_display_without_fraction() {
    assert_eq!(coin_display_string(0), "0");
    assert_eq!(coin_display_string(SATS_PER_COIN), "1");
    assert_eq!(coin_display_string(2_000_000_000), "20");
    assert_eq!(coin_display_string(5_000_000_000), "50");
}

#[test]
fn fractional_amounts_trim_trailing_zeros() {
    assert_eq!(coin_display_string(1_500), "0.000015");
    assert_eq!(coin_display_string(2_999_998_500), "29.999985");
    assert_eq!(coin_display_string(10_000_000), "0.1");
    assert_eq!(coin_display_string(150_000_000), "1.5");
}

#[test]
fn single_satoshi_displays_all_places() {
    assert_eq!(coin_display_string(1), "0.00000001");
    assert_eq!(coin_display_string(100_000_001), "1.00000001");
}

#[test]
fn largest_amount_displays_exactly() {
    // The integer representation carries the full 64-bit range without
    // rounding.
    assert_eq!(coin_display_string(u64::MAX), "184467440737.09551615");
}

#[test]
fn decimal_digits_of_integers() {
    assert_eq!(u64_digits(0), "0");
    assert_eq!(u64_digits(7), "7");
    assert_eq!(u64_digits(110), "110");
    assert_eq!(u64_digits(18_446_744_073_709_551_615), "18446744073709551615");
}
