use id_registry::owner::{is_valid_owner, normalize_owner, owner_char_allowed};
use id_registry::text::{chars_of, string_of, trim};

#[test]
fn owner_is_trimmed_and_accepted() {
    assert_eq!(normalize_owner("  bob_1  "), Some("bob_1".to_string()));
}

#[test]
fn owner_with_punctuation_is_rejected() {
    assert_eq!(normalize_owner("bob!1"), None);
}

#[test]
fn empty_and_blank_owners_are_rejected() {
    assert_eq!(normalize_owner(""), None);
    assert_eq!(normalize_owner("   "), None);
    assert_eq!(normalize_owner("\t\n"), None);
}

#[test]
fn owner_with_inner_whitespace_is_rejected() {
    assert_eq!(normalize_owner("bob smith"), None);
    assert_eq!(normalize_owner(" a\tb "), None);
}

#[test]
fn owner_may_use_letters_and_digits_of_any_script() {
    assert_eq!(normalize_owner("Zo\u{e9}_42"), Some("Zo\u{e9}_42".to_string()));
    assert_eq!(normalize_owner("\u{3000}\u{738b}\u{4e94}\u{a0}"), Some("\u{738b}\u{4e94}".to_string()));
    assert_eq!(normalize_owner("_"), Some("_".to_string()));
    assert_eq!(normalize_owner("007"), Some("007".to_string()));
}

#[test]
fn owner_may_not_use_other_signs() {
    for raw in ["a-b", "a.b", "a@b", "a/b", "bob'", "\u{1f600}", "a\u{0}b", "-"] {
        assert_eq!(normalize_owner(raw), None, "{:?}", raw);
    }
}

#[test]
fn validity_is_judged_on_the_text_as_it_is() {
    assert!(is_valid_owner("bob_1"));
    assert!(!is_valid_owner(" bob_1"));
    assert!(!is_valid_owner("bob_1 "));
    assert!(!is_valid_owner(""));
}

#[test]
fn underscore_is_allowed_beside_alphanumerics() {
    assert!(owner_char_allowed('_', false));
    assert!(owner_char_allowed('a', true));
    assert!(owner_char_allowed('_', true));
    assert!(!owner_char_allowed('!', false));
    assert!(!owner_char_allowed(' ', false));
}

#[test]
fn trim_removes_whitespace_at_both_ends_only() {
    for text in [
        "", " ", "a", " a", "a ", "  a b  ", "\t\r\n x \u{b}\u{c}", "\u{a0}x\u{2003}", "\u{200b}x",
        "x\u{85}", "\u{1680}\u{2028}\u{2029}\u{202f}\u{205f}\u{3000}", "a \u{3000} b",
    ] {
        assert_eq!(trim(text), text.trim(), "{:?}", text);
    }
    assert_eq!(trim("  bob_1  "), "bob_1");
}

#[test]
fn characters_and_strings_convert_both_ways() {
    assert_eq!(chars_of("h\u{e9}!"), vec!['h', '\u{e9}', '!']);
    assert_eq!(chars_of(""), Vec::<char>::new());
    let chars = vec!['a', 'b', 'c', 'd'];
    assert_eq!(string_of(&chars, 1, 3), "bc");
    assert_eq!(string_of(&chars, 0, 4), "abcd");
    assert_eq!(string_of(&chars, 2, 2), "");
}
