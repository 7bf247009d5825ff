//! Tests for the character-vector utilities.

use waybar_weather::text::{chars_of, chars_eq, str_eq, string_of};

#[test]
fn chars_round_trip() {
    for s in ["", "abc", "21.5\u{b0} C", "\u{e30d}\u{f0591}"] {
        let v = chars_of(s);
        assert_eq!(string_of(&v), s);
    }
}

#[test]
fn chars_eq_compares_contents() {
    assert!(chars_eq(&chars_of("abc"), &chars_of("abc")));
    assert!(!chars_eq(&chars_of("abc"), &chars_of("abd")));
    assert!(!chars_eq(&chars_of("abc"), &chars_of("ab")));
    assert!(str_eq("", ""));
    assert!(!str_eq("a", ""));
}
