use pellxd::text::{
    chars_of, i64_to_string, is_whitespace, replace_all, replace_str, string_of, trim_end_chars,
    trim_start_chars, trim_str, u64_to_string,
};

fn chars(s: &str) -> Vec<char> {
    s.chars().collect()
}

fn text(v: &[char]) -> String {
    v.iter().collect()
}

#[test]
fn decimal_rendering_of_integers() {
    assert_eq!(u64_to_string(0), "0");
    assert_eq!(u64_to_string(7), "7");
    assert_eq!(u64_to_string(10), "10");
    assert_eq!(u64_to_string(1234567890), "1234567890");
    assert_eq!(u64_to_string(u64::MAX), "18446744073709551615");
    assert_eq!(i64_to_string(0), "0");
    assert_eq!(i64_to_string(-42), "-42");
    assert_eq!(i64_to_string(1_700_000_000), "1700000000");
    assert_eq!(i64_to_string(i64::MIN), "-9223372036854775808");
}

#[test]
fn replacement_is_left_to_right_without_overlaps() {
    let out = replace_all(&chars("aaaa"), &chars("aa"), &chars("b"));
    assert_eq!(text(&out), "bb");
    let out = replace_all(&chars("aaa"), &chars("aa"), &chars("b"));
    assert_eq!(text(&out), "ba");
    let out = replace_all(&chars("x{name}y{name}"), &chars("{name}"), &chars("pellxd"));
    assert_eq!(text(&out), "xpellxdypellxd");
    let out = replace_all(&chars("nothing here"), &chars("{x}"), &chars("!"));
    assert_eq!(text(&out), "nothing here");
    let out = replace_str(&chars("ab"), "abc", "z");
    assert_eq!(text(&out), "ab");
    let out = replace_str(&chars(""), "a", "z");
    assert_eq!(text(&out), "");
}

#[test]
fn replacement_agrees_with_std() {
    let cases = [
        ("a\\\\b\\n", "\\\\", "\\"),
        ("{{x}}{x}", "{x}", "Y"),
        ("ééé", "é", "e"),
        ("abcabcab", "cab", "-"),
    ];
    for (s, p, r) in cases {
        let out = replace_str(&chars(s), p, r);
        assert_eq!(text(&out), s.replace(p, r));
    }
}

#[test]
fn trimming_removes_unicode_whitespace() {
    assert_eq!(trim_str("  hello \t\n"), "hello");
    assert_eq!(trim_str("\u{3000}x y\u{a0}"), "x y");
    assert_eq!(trim_str("   "), "");
    assert_eq!(text(&trim_end_chars(&chars(" a b  "))), " a b");
    assert_eq!(text(&trim_start_chars(&chars(" a b  "))), "a b  ");
    for c in ['\t', '\n', '\r', ' ', '\u{85}', '\u{2028}', '\u{3000}', 'a', '_', '\u{200b}'] {
        assert_eq!(is_whitespace(c), c.is_whitespace(), "{c:?}");
    }
}

#[test]
fn strings_and_character_vectors_round_trip() {
    let v = chars_of("héllo wörld");
    assert_eq!(v.len(), 11);
    assert_eq!(string_of(&v), "héllo wörld");
    assert_eq!(chars_of(""), Vec::<char>::new());
}
