use session_capture::slug::to_snake_case;

#[test]
fn slug_login_page() {
    assert_eq!(to_snake_case("LoginPage"), "login_page");
}

#[test]
fn slug_abc_def() {
    assert_eq!(to_snake_case("abcDEF"), "abc_d_e_f");
}

#[test]
fn slug_empty() {
    assert_eq!(to_snake_case(""), "");
}

#[test]
fn slug_deterministic() {
    let title = "Some Mixed TITLE 42";
    assert_eq!(to_snake_case(title), to_snake_case(title));
}

#[test]
fn slug_lowercase_passthrough() {
    assert_eq!(to_snake_case("already_lower 42"), "already_lower 42");
}

#[test]
fn slug_non_ascii_uppercase() {
    assert_eq!(to_snake_case("\u{c9}cole Big"), "\u{e9}cole _big");
}

#[test]
fn slug_leading_uppercase_no_separator() {
    assert_eq!(to_snake_case("A"), "a");
}

#[test]
fn slug_keeps_uppercase_without_lowercase_mapping() {
    // U+2102 (double-struck capital C) has the Unicode Uppercase property
    // but no lowercase mapping: it gets a separator and stays as it is, so
    // the transform is not free of uppercase output on such titles.
    assert_eq!(to_snake_case("a\u{2102}"), "a_\u{2102}");
}
