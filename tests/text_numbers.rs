use wine_gl_probe::text::{push_decimal, push_digits, push_hex_upper};

#[test]
fn decimals() {
    let mut s = String::from("n=");
    push_decimal(&mut s, 0);
    assert_eq!(s, "n=0");
    let mut s = String::new();
    push_decimal(&mut s, 120);
    assert_eq!(s, "120");
    let mut s = String::new();
    push_decimal(&mut s, u64::MAX);
    assert_eq!(s, u64::MAX.to_string());
}

#[test]
fn hexadecimals() {
    let mut s = String::new();
    push_hex_upper(&mut s, 0x0500);
    assert_eq!(s, "500");
    let mut s = String::new();
    push_hex_upper(&mut s, u64::MAX);
    assert_eq!(s, "FFFFFFFFFFFFFFFF");
    let mut s = String::new();
    push_hex_upper(&mut s, 0);
    assert_eq!(s, "0");
}

#[test]
fn binary_digits() {
    let mut s = String::new();
    push_digits(&mut s, 5, 2);
    assert_eq!(s, "101");
}
