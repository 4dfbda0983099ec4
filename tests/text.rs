use std::collections::HashMap;
use winterreise::config::{previous_window, tmpfile_name, TMPFile};
use winterreise::keys::{decode_key, hint_letter, KeyCommand, KEY_ESCAPE, KEY_SPACE};
use winterreise::labels::{abbreviate, decimal_text, style_class, window_label};
use winterreise::parse::{parse_u32, parse_u32_list, split_fields};

#[test]
fn short_title_is_kept() {
    assert_eq!(abbreviate("Editor".to_string(), 10), "Editor");
}

#[test]
fn long_title_is_shortened() {
    assert_eq!(abbreviate("abcdefghijklmnopqrst".to_string(), 16), "abcdefgh...mnopqrst");
    assert_eq!(abbreviate("abcdefgh".to_string(), 8), "abcd...efgh");
    assert_eq!(abbreviate("abcdefgh".to_string(), 7), "...");
}

#[test]
fn long_unicode_title_counts_characters() {
    assert_eq!(abbreviate("ééééxxxxüüüü".to_string(), 8), "éééé...üüüü");
}

#[test]
fn style_class_replaces_dots() {
    assert_eq!(style_class(&"org.gnome.Terminal".to_string()), "wbtn_org_gnome_Terminal");
    assert_eq!(style_class(&"code".to_string()), "wbtn_code");
}

#[test]
fn decimal_text_writes_digits() {
    assert_eq!(decimal_text(0), "0");
    assert_eq!(decimal_text(907), "907");
    assert_eq!(decimal_text(u64::MAX), u64::MAX.to_string());
}

#[test]
fn window_label_counts_desktops_from_one() {
    assert_eq!(window_label(0, &"Editor".to_string(), 40), "1: Editor");
    assert_eq!(window_label(u32::MAX, &"x".to_string(), 40), "4294967296: x");
}

#[test]
fn keys_decode() {
    let mut hints = HashMap::new();
    hints.insert(0u8, 11u32);
    hints.insert(1u8, 22u32);
    assert_eq!(decode_key(KEY_ESCAPE, &hints), KeyCommand::Dismiss);
    assert_eq!(decode_key(KEY_SPACE, &hints), KeyCommand::Previous);
    assert_eq!(decode_key(49, &hints), KeyCommand::Desktop(0));
    assert_eq!(decode_key(51, &hints), KeyCommand::Desktop(2));
    assert_eq!(decode_key(97, &hints), KeyCommand::Window(11));
    assert_eq!(decode_key(98, &hints), KeyCommand::Window(22));
    assert_eq!(decode_key(99, &hints), KeyCommand::Pass);
    assert_eq!(decode_key(48, &hints), KeyCommand::Pass);
    assert_eq!(decode_key(0xff0d, &hints), KeyCommand::Pass);
}

#[test]
fn hint_letters_run_a_to_z() {
    assert_eq!(hint_letter(0), Some('a'));
    assert_eq!(hint_letter(25), Some('z'));
    assert_eq!(hint_letter(26), None);
}

#[test]
fn numbers_parse_like_std() {
    assert_eq!(parse_u32("42"), Some(42));
    assert_eq!(parse_u32("+7"), Some(7));
    assert_eq!(parse_u32("007"), Some(7));
    assert_eq!(parse_u32("4294967295"), Some(u32::MAX));
    assert_eq!(parse_u32("4294967296"), None);
    assert_eq!(parse_u32("99999999999999999999999"), None);
    assert_eq!(parse_u32(""), None);
    assert_eq!(parse_u32("+"), None);
    assert_eq!(parse_u32("-1"), None);
    assert_eq!(parse_u32("1a"), None);
    assert_eq!(parse_u32(" 1"), None);
}

#[test]
fn split_matches_std() {
    for s in ["", "a", "a,b", ",a,,b,", "0,0,800,600"] {
        let expected: Vec<String> = s.split(',').map(|p| p.to_string()).collect();
        assert_eq!(split_fields(s, ','), expected);
    }
}

#[test]
fn number_lists() {
    assert_eq!(parse_u32_list("0,0,800,600"), Some(vec![0, 0, 800, 600]));
    assert_eq!(parse_u32_list("1,,2"), None);
    assert_eq!(parse_u32_list("7"), Some(vec![7]));
}

#[test]
fn tmpfile_locations() {
    assert_eq!(tmpfile_name(&TMPFile::InTmp, None), Some("/tmp/winterreise".to_string()));
    assert_eq!(
        tmpfile_name(&TMPFile::InXdgRuntime, Some("/run/user/1000")),
        Some("/run/user/1000/winterreise".to_string())
    );
    assert_eq!(tmpfile_name(&TMPFile::InXdgRuntime, None), None);
    assert_eq!(
        tmpfile_name(&TMPFile::Custom("/var/x".to_string()), Some("/run")),
        Some("/var/x".to_string())
    );
}

#[test]
fn previous_window_reads_first_line() {
    assert_eq!(previous_window("12345"), Some(12345));
    assert_eq!(previous_window("12345\n678\n"), Some(12345));
    assert_eq!(previous_window("12345\r\n"), Some(12345));
    assert_eq!(previous_window(""), None);
    assert_eq!(previous_window("abc\n1"), None);
}
