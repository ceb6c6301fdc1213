use xilo::confirm::is_affirmative;

#[test]
fn affirmative_plain_variants() {
    assert!(is_affirmative("y"));
    assert!(is_affirmative("Y"));
    assert!(is_affirmative("yes"));
    assert!(is_affirmative("Yes"));
    assert!(is_affirmative("YES"));
}

#[test]
fn affirmative_with_surrounding_whitespace() {
    assert!(is_affirmative("y\n"));
    assert!(is_affirmative("Y\r\n"));
    assert!(is_affirmative("yes \n"));
    assert!(is_affirmative("  Yes\t"));
    assert!(is_affirmative("\tYES  \n"));
}

#[test]
fn unicode_whitespace_is_stripped_too() {
    assert!(is_affirmative("yes\u{00A0}"));
    assert!(is_affirmative("\u{2003}Y\n"));
    assert!(is_affirmative("\u{3000}yes\u{2028}"));
}

#[test]
fn a_zero_width_space_is_no_whitespace() {
    assert!(!is_affirmative("yes\u{200B}"));
    assert!(!is_affirmative("\u{FEFF}y"));
}

#[test]
fn negative_inputs() {
    assert!(!is_affirmative(""));
    assert!(!is_affirmative("\n"));
    assert!(!is_affirmative("   "));
    assert!(!is_affirmative("n"));
    assert!(!is_affirmative("N"));
    assert!(!is_affirmative("no"));
    assert!(!is_affirmative("ye"));
    assert!(!is_affirmative("yess"));
    assert!(!is_affirmative("yES"));
    assert!(!is_affirmative("YEs"));
    assert!(!is_affirmative("yEs"));
    assert!(!is_affirmative("y e s"));
    assert!(!is_affirmative("oui"));
    assert!(!is_affirmative("Y!"));
    assert!(!is_affirmative("yes no"));
}
