use jcode::paths::join_path;
use jcode::text::{
    chars_of, decimal_int_text, decimal_text, eq_ignore_case, join_texts, lower_chars, parse_i64,
    parse_u32, split_at_char, starts_with, string_of, strip_suffix, trim_chars, trim_text,
    CharClass,
};

#[test]
fn white_space_is_what_the_standard_library_takes_for_it() {
    for c in (0..=0x10ffffu32).filter_map(char::from_u32) {
        assert_eq!(CharClass::White.contains(c), c.is_whitespace(), "{c:?}");
    }
}

#[test]
fn texts_are_trimmed_like_the_standard_librarys() {
    for s in ["", " ", " a ", "\u{2003}a b\u{a0}\r\n", "a", "\t\n"] {
        assert_eq!(trim_text(s), s.trim());
    }
    for s in ["\"3\"", "\"\"\"", "3\"", "", "'x\""] {
        let trimmed = trim_chars(&chars_of(s), CharClass::Exactly('"'));
        assert_eq!(string_of(&trimmed), s.trim_matches('"'));
    }
}

#[test]
fn texts_are_split_and_joined() {
    for s in ["", "a", "a\nb", "\n", "a\n\nb\n"] {
        let pieces: Vec<String> =
            split_at_char(&chars_of(s), '\n').iter().map(|p| string_of(p)).collect();
        assert_eq!(pieces, s.split('\n').collect::<Vec<_>>());
        assert_eq!(join_texts(&pieces, "\n"), s);
    }
    assert_eq!(join_texts(&Vec::new(), ", "), "");
}

#[test]
fn prefixes_and_suffixes_are_found() {
    for (s, p) in [("LLM|k", "LLM|"), ("LLM", "LLM|"), ("", ""), ("xLLM|", "LLM|"), ("é", "é")] {
        assert_eq!(starts_with(s, p), s.starts_with(p));
        assert_eq!(strip_suffix(s, p).as_deref(), s.strip_suffix(p));
    }
    assert_eq!(strip_suffix("a.json", ".json").as_deref(), Some("a"));
}

#[test]
fn case_is_ignored_in_ascii_only() {
    for (a, b) in [("Deep", "dEEP"), ("deep", "deeper"), ("É", "é"), ("", ""), ("a", "b")] {
        assert_eq!(eq_ignore_case(a, b), a.eq_ignore_ascii_case(b));
    }
    assert_eq!(string_of(&lower_chars(&chars_of("AbZ[É"))), "AbZ[É".to_ascii_lowercase());
}

#[test]
fn numbers_are_written_and_read_like_the_standard_librarys() {
    for n in [0, 9, 10, 99, 100, 4_294_967_295, u64::MAX] {
        assert_eq!(decimal_text(n), n.to_string());
    }
    for n in [0, -1, -10, i64::MIN, i64::MAX] {
        assert_eq!(decimal_int_text(n), n.to_string());
        assert_eq!(parse_i64(&chars_of(&n.to_string())), Some(n));
    }
    for s in [
        "", "+", "-", "0", "-0", "+7", "007", " 7", "7 ", "--7", "+-7", "7a", "٣", "4294967295",
        "4294967296", "9223372036854775807", "9223372036854775808", "-9223372036854775808",
        "-9223372036854775809", "99999999999999999999999",
    ] {
        assert_eq!(parse_u32(&chars_of(s)), s.parse::<u32>().ok(), "{s}");
        assert_eq!(parse_i64(&chars_of(s)), s.parse::<i64>().ok(), "{s}");
    }
}

#[test]
fn paths_are_joined_like_the_standard_librarys() {
    for base in ["", "/", "/a", "/a/", "a"] {
        for name in ["b", "b/c", "/b", ""] {
            let path = std::path::Path::new(base).join(name);
            assert_eq!(join_path(base, name), path.to_str().unwrap(), "{base} {name}");
        }
    }
}
