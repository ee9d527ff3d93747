#[test]
fn sinhala_tamil_strings_are_valid_utf8() {
    // Ensure the compile-time Unicode literals round-trip cleanly.
    let si = "ඇමෙරිකානු ඩොලර්";
    let ta = "அமெரிக்க டாலர்";
    assert!(si.chars().count() > 0);
    assert!(ta.chars().count() > 0);
}
