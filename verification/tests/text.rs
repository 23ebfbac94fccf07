use host_commands::text::text_equals;

#[test]
fn equal_texts_are_equal() {
    assert!(text_equals("", ""));
    assert!(text_equals("-d", "-d"));
    assert!(text_equals("--description", "--description"));
    assert!(text_equals("继续", "继续"));
}

#[test]
fn texts_of_different_length_differ() {
    assert!(!text_equals("", "a"));
    assert!(!text_equals("a", ""));
    assert!(!text_equals("-d", "-dd"));
    assert!(!text_equals("--description", "--descriptio"));
}

#[test]
fn texts_of_the_same_length_that_differ_somewhere_differ() {
    assert!(!text_equals("abc", "abd"));
    assert!(!text_equals("abc", "xbc"));
    assert!(!text_equals("abc", "aXc"));
    assert!(!text_equals("-d", "-D"));
}

#[test]
fn texts_beyond_ascii_are_compared_by_character() {
    assert!(!text_equals("继续", "继继"));
    assert!(!text_equals("é", "e\u{301}"));
    assert!(!text_equals("é", "è"));
}
