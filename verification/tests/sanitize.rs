use dws::utils::sanitize::{is_allowed, keep_allowed, sanitize_message};

#[test]
fn filter_works() {
    let m = "Hello, world!";
    assert_eq!(sanitize_message(m), m);
    assert_eq!(sanitize_message("fuckfuckfuck"), "f***f***f***");
    assert_eq!(sanitize_message("f u c k"), "f******");
}

#[test]
fn allowed_characters() {
    assert!(is_allowed(' '));
    assert!(is_allowed('~'));
    assert!(is_allowed('\\'));
    assert!(is_allowed('\u{2302}'));
    assert!(is_allowed('\u{ff}'));
    assert!(!is_allowed('`'));
    assert!(!is_allowed('\n'));
    assert!(!is_allowed('\u{7f}'));
    assert!(!is_allowed('\u{4e2d}'));
}

#[test]
fn keep_allowed_drops_the_rest_in_order() {
    assert_eq!(keep_allowed("a`b\nc\u{4e2d}d"), "abcd");
    assert_eq!(keep_allowed(""), "");
    assert_eq!(keep_allowed("``"), "");
}

#[test]
fn sanitize_filters_before_it_censors() {
    assert_eq!(sanitize_message("he`llo\n"), "hello");
}
