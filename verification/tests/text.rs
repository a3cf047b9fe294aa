use heaven_on_earth::text::chars_of;
use heaven_on_earth::text::contains;
use heaven_on_earth::text::lower;
use heaven_on_earth::text::push_decimal;
use heaven_on_earth::text::same_text;
use heaven_on_earth::text::starts_with;
use heaven_on_earth::text::text_of;
use heaven_on_earth::text::trim;

fn letters(s: &str) -> Vec<char> {
    s.chars().collect()
}

fn decimal_text(n: u64) -> String {
    let mut s = String::new();
    push_decimal(&mut s, n);
    s
}

#[test]
fn chars_and_text_are_inverse() {
    assert_eq!(chars_of("héllo wörld"), letters("héllo wörld"));
    assert_eq!(text_of(&letters("héllo wörld")), "héllo wörld");
    assert_eq!(chars_of(""), Vec::<char>::new());
    assert_eq!(text_of(&Vec::new()), "");
}

#[test]
fn same_text_compares_characters() {
    assert!(same_text("abc", "abc"));
    assert!(same_text("", ""));
    assert!(!same_text("abc", "abd"));
    assert!(!same_text("abc", "ab"));
    assert!(!same_text("abc", "ABC"));
}

#[test]
fn trim_drops_white_space_at_both_ends() {
    assert_eq!(trim(&letters("  a b \t\n")), letters("a b"));
    assert_eq!(trim(&letters("a")), letters("a"));
    assert_eq!(trim(&letters("\u{a0}a\u{3000}")), letters("a"));
}

#[test]
fn trim_of_white_space_is_empty() {
    assert_eq!(trim(&letters("   ")), Vec::<char>::new());
    assert_eq!(trim(&letters("")), Vec::<char>::new());
}

#[test]
fn trim_is_what_the_standard_library_trims() {
    for s in ["", " ", "  x", "x  ", " x y ", "\u{2003}x\u{2003}", "\r\nabc\r\n", "_ _"] {
        assert_eq!(text_of(&trim(&letters(s))), s.trim());
    }
}

#[test]
fn lower_lowers_each_character() {
    assert_eq!(lower(&letters("Sunset OVER the Bay")), letters("sunset over the bay"));
    assert_eq!(lower(&letters("ÄÖÜ")), letters("äöü"));
    assert_eq!(lower(&letters("123 _-.")), letters("123 _-."));
}

#[test]
fn lower_may_lengthen_the_text() {
    assert_eq!(lower(&letters("İ")), letters("i\u{307}"));
}

#[test]
fn decimal_of_small_and_large_numbers() {
    assert_eq!(decimal_text(0), "0");
    assert_eq!(decimal_text(7), "7");
    assert_eq!(decimal_text(10), "10");
    assert_eq!(decimal_text(255), "255");
    assert_eq!(decimal_text(1_000_000), "1000000");
    assert_eq!(decimal_text(u64::MAX), "18446744073709551615");
}

#[test]
fn starts_with_tells_prefixes() {
    assert!(starts_with(&letters("sunset.jpg"), &letters("sunset")));
    assert!(starts_with(&letters("sunset"), &letters("sunset")));
    assert!(starts_with(&letters("sunset"), &letters("")));
    assert!(!starts_with(&letters("sun"), &letters("sunset")));
    assert!(!starts_with(&letters("a sunset"), &letters("sunset")));
}

#[test]
fn contains_finds_a_part_anywhere() {
    assert!(contains(&letters("/home/me/out/sunset.jpeg"), &letters("sunset.jpeg")));
    assert!(contains(&letters("sunset.jpeg"), &letters("sunset.jpeg")));
    assert!(contains(&letters("abc"), &letters("b")));
    assert!(contains(&letters("abc"), &letters("")));
    assert!(contains(&letters(""), &letters("")));
    assert!(!contains(&letters("abc"), &letters("abcd")));
    assert!(!contains(&letters("/home/me/out/sunset.png"), &letters("sunset.jpeg")));
    assert!(!contains(&letters("aab"), &letters("aba")));
}
