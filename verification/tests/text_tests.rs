use ai_barometer::text;
use ai_barometer::text::{
    char_is_whitespace, chars_eq, contains_str, find_char, from_chars, join_path, replace_char,
    split_lines, str_eq, to_ascii_lowercase_chars, to_chars, trim_chars,
};

fn chars(s: &str) -> Vec<char> {
    s.chars().collect()
}

#[test]
fn chars_and_back() {
    assert_eq!(to_chars("héllo"), chars("héllo"));
    assert_eq!(from_chars(&chars("héllo")), "héllo");
    assert_eq!(to_chars(""), Vec::<char>::new());
    assert!(str_eq("a", "a"));
    assert!(!str_eq("a", "ab"));
    assert!(chars_eq(&chars("ab"), &chars("ab")));
    assert!(!chars_eq(&chars("ab"), &chars("ac")));
    assert_eq!(text::concat("ab", "cd"), "abcd");
}

#[test]
fn whitespace_is_what_std_says() {
    let mut code: u32 = 0;
    while code <= 0x3100 {
        if let Some(c) = char::from_u32(code) {
            assert_eq!(char_is_whitespace(c), c.is_whitespace(), "U+{:04X}", code);
        }
        code += 1;
    }
}

#[test]
fn trim_is_what_std_says() {
    for s in ["", " ", "  a  ", "a", "\t\na b\r\n", " \u{a0}x\u{3000}", "x y", "   "] {
        assert_eq!(from_chars(&trim_chars(&chars(s))), s.trim());
    }
}

#[test]
fn lowercase_is_what_std_says() {
    for s in ["", "ABC", "aBc-Z@[`{", "ÉÀ", "Hello World 123"] {
        assert_eq!(from_chars(&to_ascii_lowercase_chars(&chars(s))), s.to_ascii_lowercase());
    }
}

#[test]
fn contains_is_what_std_says() {
    for (hay, needle) in [
        ("", ""),
        ("abc", ""),
        ("", "a"),
        ("abc", "abc"),
        ("abc", "bc"),
        ("abc", "abcd"),
        ("aab", "ab"),
        ("abab", "bab"),
        ("abc", "ac"),
    ] {
        assert_eq!(contains_str(hay, needle), hay.contains(needle));
    }
}

#[test]
fn find_char_gives_the_first() {
    assert_eq!(find_char(&chars("a@b@c"), '@'), Some(1));
    assert_eq!(find_char(&chars("abc"), '@'), None);
    assert_eq!(find_char(&chars(""), '@'), None);
    assert_eq!(find_char(&chars("@"), '@'), Some(0));
}

#[test]
fn replace_char_replaces_all() {
    assert_eq!(from_chars(&replace_char(&chars("/a/b/"), '/', '-')), "-a-b-");
    assert_eq!(from_chars(&replace_char(&chars("abc"), '/', '-')), "abc");
}

#[test]
fn lines_are_split_at_line_feeds() {
    let expected = |s: &str| -> Vec<Vec<char>> { s.split('\n').map(chars).collect() };
    assert_eq!(split_lines(&chars("a\nb\nc")), expected("a\nb\nc"));
    assert_eq!(split_lines(&chars("a\nb\n")), vec![chars("a"), chars("b")]);
    assert_eq!(split_lines(&chars("")), Vec::<Vec<char>>::new());
    assert_eq!(split_lines(&chars("\n")), vec![chars("")]);
    assert_eq!(split_lines(&chars("\n\nx")), vec![chars(""), chars(""), chars("x")]);
    assert_eq!(split_lines(&chars("a\r\nb")), vec![chars("a\r"), chars("b")]);
}

#[test]
fn paths_are_joined_with_one_slash() {
    assert_eq!(join_path("/a", "b"), "/a/b");
    assert_eq!(join_path("/a/", "b"), "/a/b");
    assert_eq!(join_path("", "b"), "b");
    assert_eq!(join_path("/", "b"), "/b");
    for (base, part) in [("/a", "b"), ("/a/", "b"), ("", "b"), ("/", "b"), ("a/b", "c/d")] {
        let by_std = std::path::Path::new(base).join(part);
        assert_eq!(join_path(base, part), by_std.to_string_lossy());
    }
}
