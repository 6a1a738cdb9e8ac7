//! Character-level helpers and Unix path arithmetic.

use omniforge::fspath::{file_display_name, file_name, join};
use omniforge::text::{
    chars_of, decimal_string, is_white_char, parse_u32_range, parse_u64_range, str_eq,
};

fn parse64(s: &str) -> Option<u64> {
    let cs = chars_of(s);
    parse_u64_range(&cs, 0, cs.len())
}

fn parse32(s: &str) -> Option<u32> {
    let cs = chars_of(s);
    parse_u32_range(&cs, 0, cs.len())
}

#[test]
fn unsigned_parsing_follows_str_parse() {
    for s in ["0", "42", "+42", "0007", "", "+", "-0", "1_0", " 1", "٣", "18446744073709551615",
        "18446744073709551616", "4294967295", "4294967296", "99999999999999999999999"]
    {
        assert_eq!(parse64(s), s.parse::<u64>().ok(), "u64 {s:?}");
        assert_eq!(parse32(s), s.parse::<u32>().ok(), "u32 {s:?}");
    }
}

#[test]
fn decimal_text() {
    for n in [0u64, 7, 10, 99, 1000, 4294967295, u64::MAX] {
        assert_eq!(decimal_string(n), n.to_string());
    }
}

#[test]
fn string_equality_and_chars() {
    assert!(str_eq("fp16", "fp16"));
    assert!(!str_eq("fp16", "fp1"));
    assert!(!str_eq("ä", "a"));
    assert_eq!(chars_of("aä€"), vec!['a', 'ä', '€']);
}

#[test]
fn join_like_path_join() {
    assert_eq!(join(b"/a", b"b"), b"/a/b".to_vec());
    assert_eq!(join(b"/a/", b"b"), b"/a/b".to_vec());
    assert_eq!(join(b"", b"b"), b"b".to_vec());
    assert_eq!(join(b"/a", b"/c"), b"/c".to_vec());
    assert_eq!(join(b"a", b""), b"a/".to_vec());
    for (base, seg) in [("/x/y", "z"), ("rel", "../up"), ("/", "r"), ("a//", "/abs")] {
        let expect = std::path::Path::new(base).join(seg);
        assert_eq!(join(base.as_bytes(), seg.as_bytes()), expect.to_str().unwrap().as_bytes());
    }
}

#[test]
fn file_name_like_path_file_name() {
    for p in ["/a/b.txt", "/a/b/", "/a/b/.", "/a/b/.//", "/a/..", "/", "", ".", "./x", "..",
        "a", "a/./", "/tmp/foo.txt/.", "x/..y", "x/.y"]
    {
        let expect = std::path::Path::new(p).file_name().map(|n| n.to_str().unwrap().to_string());
        let got = file_name(p.as_bytes()).map(|(a, b)| p[a..b].to_string());
        assert_eq!(got, expect, "{p:?}");
    }
}

#[test]
fn display_names() {
    assert_eq!(file_display_name(b"/data/corpus.jsonl"), "corpus.jsonl");
    assert_eq!(file_display_name(b"/data/.."), "<unknown>");
    assert_eq!(file_display_name(b"/"), "<unknown>");
    assert_eq!(file_display_name(b"/data/bad\xff"), "<unknown>");
    assert_eq!(file_display_name(b"/da\xfft/ok"), "ok");
}

#[test]
fn whitespace_is_unicode_white_space() {
    for c in (0u32..=0x10ffff).filter_map(char::from_u32) {
        assert_eq!(is_white_char(c), c.is_whitespace(), "{:#x}", c as u32);
    }
}
