use stream_mux::text::{replace_str, tenths_to_dec, tenths_to_dec_fixed, u64_to_dec};

#[test]
fn decimal_rendering() {
    assert_eq!(u64_to_dec(0), "0");
    assert_eq!(u64_to_dec(7), "7");
    assert_eq!(u64_to_dec(10), "10");
    assert_eq!(u64_to_dec(90217), "90217");
    assert_eq!(u64_to_dec(u64::MAX), "18446744073709551615");
}

#[test]
fn tenths_rendering() {
    assert_eq!(tenths_to_dec(50), "5");
    assert_eq!(tenths_to_dec(25), "2.5");
    assert_eq!(tenths_to_dec(0), "0");
    assert_eq!(tenths_to_dec_fixed(50), "5.0");
    assert_eq!(tenths_to_dec_fixed(25), "2.5");
    assert_eq!(tenths_to_dec_fixed(1), "0.1");
}

#[test]
fn marker_replacement() {
    assert_eq!(replace_str("gain {n} points", "{n}", "12"), "gain 12 points");
    assert_eq!(replace_str("{n} and {n}", "{n}", "2"), "2 and 2");
    assert_eq!(replace_str("no marker here", "{n}", "2"), "no marker here");
    assert_eq!(replace_str("", "{n}", "2"), "");
    assert_eq!(replace_str("aaa", "aa", "b"), "ba");
}
