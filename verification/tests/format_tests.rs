use resticmgr::numfmt::{signed_dec, u128_to_dec};
use resticmgr::strutil::join_strings;

#[test]
fn decimal_rendering_of_plain_numbers() {
    assert_eq!(u128_to_dec(0), "0");
    assert_eq!(u128_to_dec(7), "7");
    assert_eq!(u128_to_dec(10), "10");
    assert_eq!(u128_to_dec(86400), "86400");
    assert_eq!(u128_to_dec(18446744073709551615), "18446744073709551615");
}

#[test]
fn signed_rendering_marks_negative_magnitudes() {
    assert_eq!(signed_dec(false, 42), "42");
    assert_eq!(signed_dec(true, 42), "-42");
    // A negative duration of under one unit still counts as zero.
    assert_eq!(signed_dec(true, 0), "0");
}

#[test]
fn join_places_the_separator_between_parts() {
    assert_eq!(join_strings(&Vec::new(), ", "), "");
    assert_eq!(join_strings(&vec!["one".to_string()], ", "), "one");
    assert_eq!(
        join_strings(&vec!["a".to_string(), "b".to_string(), "c".to_string()], "\n"),
        "a\nb\nc"
    );
}
