use unicode_probe::locale_requests_utf8;

#[test]
fn utf8_codeset_with_hyphen() {
    assert!(locale_requests_utf8(Some("en_US.UTF-8")));
}

#[test]
fn utf8_codeset_without_hyphen() {
    assert!(locale_requests_utf8(Some("en_US.utf8")));
}

#[test]
fn other_codeset() {
    assert!(!locale_requests_utf8(Some("en_US.ISO-8859-1")));
}

#[test]
fn bare_language() {
    assert!(!locale_requests_utf8(Some("C")));
    assert!(!locale_requests_utf8(Some("POSIX")));
    assert!(!locale_requests_utf8(Some("en_US")));
}

#[test]
fn modifier_is_stripped() {
    assert!(locale_requests_utf8(Some("en_US.UTF-8@euro")));
    assert!(locale_requests_utf8(Some("sr_RS.utf8@latin")));
    assert!(locale_requests_utf8(Some("en_US.utf8@")));
    assert!(!locale_requests_utf8(Some("en_US.ISO-8859-15@euro")));
}

#[test]
fn unset_variable() {
    assert!(!locale_requests_utf8(None));
}

#[test]
fn case_is_ignored() {
    assert!(locale_requests_utf8(Some("en_US.Utf-8")));
    assert!(locale_requests_utf8(Some("en_US.utf-8")));
    assert!(locale_requests_utf8(Some("en_US.UTF8")));
    assert!(locale_requests_utf8(Some("en_US.uTf8")));
}

#[test]
fn only_ascii_case_is_ignored() {
    // U+FF28 and its like are letters of another alphabet, not other cases.
    assert!(!locale_requests_utf8(Some("en_US.\u{ff35}TF-8")));
    assert!(!locale_requests_utf8(Some("en_US.utf\u{ff18}")));
    // 'U' + 32 is 'u', but '-' + 32 is 'M' and '8' + 32 is 'X'.
    assert!(!locale_requests_utf8(Some("en_US.UTFM8")));
    assert!(!locale_requests_utf8(Some("en_US.UTF-X")));
    assert!(!locale_requests_utf8(Some("en_US.utfX")));
    // '-' - 32 and '8' - 32 are control characters.
    assert!(!locale_requests_utf8(Some("en_US.UTF\u{d}8")));
    assert!(!locale_requests_utf8(Some("en_US.utf\u{18}")));
}

#[test]
fn anything_with_a_slash_is_a_path() {
    assert!(!locale_requests_utf8(Some("/usr/share/locale/en_US.UTF-8")));
    assert!(!locale_requests_utf8(Some("/en_US.UTF-8")));
    assert!(!locale_requests_utf8(Some("en_US.UTF-8/")));
    assert!(!locale_requests_utf8(Some("en_US.UTF-8@euro/x")));
    assert!(!locale_requests_utf8(Some("en/US.utf8")));
    assert!(!locale_requests_utf8(Some("/")));
}

#[test]
fn nothing_without_a_dot_names_a_codeset() {
    assert!(!locale_requests_utf8(Some("")));
    assert!(!locale_requests_utf8(Some("UTF-8")));
    assert!(!locale_requests_utf8(Some("utf8")));
    assert!(!locale_requests_utf8(Some("en_US@euro")));
    assert!(!locale_requests_utf8(Some("en_US-UTF-8")));
}

#[test]
fn codeset_starts_behind_the_first_dot() {
    assert!(locale_requests_utf8(Some(".utf8")));
    assert!(locale_requests_utf8(Some(".UTF-8@x")));
    // What follows the first dot is the codeset, further dots included.
    assert!(!locale_requests_utf8(Some("en_US.UTF-8.old")));
    assert!(!locale_requests_utf8(Some("en_US..UTF-8")));
    assert!(!locale_requests_utf8(Some("en.US.utf8")));
    // A modifier sign before the dot belongs to what the dot cuts off.
    assert!(locale_requests_utf8(Some("en@euro.utf8")));
}

#[test]
fn codeset_ends_at_the_first_modifier_sign() {
    assert!(locale_requests_utf8(Some("en_US.UTF-8@a@b")));
    assert!(locale_requests_utf8(Some("en_US.utf8@a.b")));
    assert!(!locale_requests_utf8(Some("en_US.@utf8")));
    assert!(!locale_requests_utf8(Some("en_US.UTF@-8")));
}

#[test]
fn codeset_must_be_the_whole_name() {
    assert!(!locale_requests_utf8(Some("en_US.")));
    assert!(!locale_requests_utf8(Some("en_US.@euro")));
    assert!(!locale_requests_utf8(Some("en_US.U")));
    assert!(!locale_requests_utf8(Some("en_US.UTF")));
    assert!(!locale_requests_utf8(Some("en_US.UTF-")));
    assert!(!locale_requests_utf8(Some("en_US.UTF-88")));
    assert!(!locale_requests_utf8(Some("en_US.utf88")));
    assert!(!locale_requests_utf8(Some("en_US.utf")));
    assert!(!locale_requests_utf8(Some("en_US.UTF_8")));
    assert!(!locale_requests_utf8(Some("en_US.UTF-16")));
    assert!(!locale_requests_utf8(Some("en_US. UTF-8")));
    assert!(!locale_requests_utf8(Some("en_US.UTF-8 ")));
    assert!(!locale_requests_utf8(Some("en_US.xutf8")));
}

#[test]
fn language_may_hold_any_character() {
    assert!(locale_requests_utf8(Some("\u{65e5}\u{672c}\u{8a9e}.UTF-8")));
    assert!(locale_requests_utf8(Some("\u{e9}.utf8@\u{597d}")));
    assert!(!locale_requests_utf8(Some("en_US.\u{e9}")));
}

#[test]
fn long_values_are_read_to_the_end() {
    let mut path = String::from("en_US.UTF-8@");
    for _ in 0..10_000 {
        path.push('x');
    }
    assert!(locale_requests_utf8(Some(&path)));
    path.push('/');
    assert!(!locale_requests_utf8(Some(&path)));

    let mut long_codeset = String::from("en_US.UTF-8");
    for _ in 0..10_000 {
        long_codeset.push('8');
    }
    assert!(!locale_requests_utf8(Some(&long_codeset)));
}
