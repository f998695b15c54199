use mc_discord_bot::discord::commands::player::rem_dub_space;
use mc_discord_bot::text::{
    chars_of, contains_text, decimal, join_from, owned, same_text, signed_decimal, split,
    starts_with, string_from_chars, text_lt, to_lowercase, trim,
};
use mc_discord_bot::types::config::parse_string_arr;

#[test]
fn trim_removes_surrounding_whitespace() {
    assert_eq!(trim("  a b \t\n"), "a b");
    assert_eq!(trim("   "), "");
    assert_eq!(trim(""), "");
    assert_eq!(trim("\u{a0}x\u{2003}"), "x");
    assert_eq!(trim("x"), "x");
}

#[test]
fn split_keeps_empty_pieces() {
    assert_eq!(split("a,b,,c", ','), vec!["a", "b", "", "c"]);
    assert_eq!(split("", ','), vec![""]);
    assert_eq!(split(",", ','), vec!["", ""]);
    assert_eq!(split("abc", ','), vec!["abc"]);
}

#[test]
fn split_then_join_gives_back_text() {
    for s in ["a,b,,c", "", ",", "x y z", ",,a,"] {
        let parts = split(s, ',');
        assert_eq!(join_from(&parts, 0, ','), s);
    }
}

#[test]
fn join_from_skips_leading_parts() {
    let parts = vec!["player".to_string(), "Steve".to_string(), "kill".to_string()];
    assert_eq!(join_from(&parts, 1, ' '), "Steve kill");
    assert_eq!(join_from(&parts, 3, ' '), "");
}

#[test]
fn parse_string_arr_trims_items() {
    assert_eq!(parse_string_arr(" help , about,player ".to_string()), vec!["help", "about", "player"]);
    assert_eq!(parse_string_arr("".to_string()), vec![""]);
}

#[test]
fn decimal_formats_numbers() {
    assert_eq!(decimal(0), "0");
    assert_eq!(decimal(4), "4");
    assert_eq!(decimal(1234567890), "1234567890");
    assert_eq!(decimal(u64::MAX), u64::MAX.to_string());
    assert_eq!(signed_decimal(-42), "-42");
    assert_eq!(signed_decimal(i64::MIN), i64::MIN.to_string());
    assert_eq!(signed_decimal(7), "7");
}

#[test]
fn prefix_and_equality_checks() {
    assert!(starts_with("!help me", "!"));
    assert!(starts_with("abc", ""));
    assert!(!starts_with("ab", "abc"));
    assert!(!starts_with("xbc", "ab"));
    assert!(same_text("héllo", "héllo"));
    assert!(!same_text("hello", "hell"));
    let list = vec!["a".to_string(), "bot_join".to_string()];
    assert!(contains_text(&list, "bot_join"));
    assert!(!contains_text(&list, "bot"));
}

#[test]
fn lowercase_uses_unicode_mapping() {
    assert_eq!(to_lowercase("HeLLo"), "hello");
    assert_eq!(to_lowercase("ΟΔΟΣ"), "οδος");
}

#[test]
fn lexicographic_order_of_code_points() {
    let a = chars_of("abc");
    let b = chars_of("abd");
    let c = chars_of("ab");
    assert!(text_lt(&a, &b));
    assert!(!text_lt(&b, &a));
    assert!(text_lt(&c, &a));
    assert!(!text_lt(&a, &a));
    assert_eq!(string_from_chars(&a), "abc");
    assert_eq!(owned("x"), "x");
}

#[test]
fn rem_dub_space_removes_doubled_and_leading_spaces() {
    assert_eq!(rem_dub_space("  a  b   c ".to_string()), "a b c ");
    assert_eq!(rem_dub_space("a b".to_string()), "a b");
    assert_eq!(rem_dub_space(" ".to_string()), "");
    assert_eq!(rem_dub_space("".to_string()), "");
}

#[test]
fn rem_dub_space_is_idempotent() {
    for s in ["  a  b   c ", " x", "a    ", "\t  y"] {
        let once = rem_dub_space(s.to_string());
        assert_eq!(rem_dub_space(once.clone()), once);
        assert!(!once.contains("  "));
        assert!(!once.starts_with(' '));
    }
}
