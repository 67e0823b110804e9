use showcase::decimal::{push_int, push_nat};

#[test]
fn nat_text_appends_digits() {
    let mut s = String::from("n=");
    push_nat(&mut s, 0);
    assert_eq!(s, "n=0");
    let mut t = String::new();
    push_nat(&mut t, u64::MAX);
    assert_eq!(t, "18446744073709551615");
}

#[test]
fn int_text_has_sign_for_negatives() {
    let mut s = String::new();
    push_int(&mut s, -120);
    assert_eq!(s, "-120");
    let mut m = String::new();
    push_int(&mut m, i64::MIN);
    assert_eq!(m, "-9223372036854775808");
    let mut p = String::new();
    push_int(&mut p, 42);
    assert_eq!(p, "42");
}
