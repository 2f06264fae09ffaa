use nettune_core::text::{
    chars_of, colon_pair, decimal_string, is_whitespace, join_pair, parse_u32, split_ranges,
    str_eq, trim_str, Separator,
};

#[test]
fn whitespace_matches_std_for_every_char() {
    for u in 0u32..=0x10FFFF {
        if let Some(c) = char::from_u32(u) {
            assert_eq!(is_whitespace(c), c.is_whitespace(), "char {:#x}", u);
        }
    }
}

#[test]
fn trim_matches_std() {
    for s in ["", "  ", " a ", "\tbbr\n", "\u{3000}x y\u{85}", "abc", "\r\n5000\r\n"] {
        assert_eq!(trim_str(s), s.trim());
    }
}

fn pieces(s: &str, sep: Separator) -> Vec<String> {
    let cs = chars_of(s);
    split_ranges(&cs, 0, cs.len(), sep)
        .into_iter()
        .map(|(a, b)| cs[a..b].iter().collect())
        .collect()
}

#[test]
fn split_matches_std() {
    for s in ["", ":", "a:b", "a::b:", "no colon", "x:y:z"] {
        let expected: Vec<String> = s.split(':').map(|p| p.to_string()).collect();
        assert_eq!(pieces(s, Separator::Char(':')), expected);
    }
    let words: Vec<String> =
        pieces(" a  b\tc ", Separator::Whitespace).into_iter().filter(|w| !w.is_empty()).collect();
    assert_eq!(words, vec!["a", "b", "c"]);
}

#[test]
fn parse_u32_matches_std() {
    for s in [
        "0", "42", "+42", "-1", "", "+", "4294967295", "4294967296", "99999999999", " 5", "5 ", "1a",
        "٣", "007",
    ] {
        assert_eq!(parse_u32(s), s.parse::<u32>().ok(), "input {:?}", s);
    }
}

#[test]
fn decimal_matches_to_string() {
    for n in [0u64, 7, 10, 99, 100, 4294967295, u64::MAX] {
        assert_eq!(decimal_string(n), n.to_string());
    }
}

#[test]
fn decimal_then_parse_round_trips() {
    for n in [0u32, 1, 1234, u32::MAX] {
        assert_eq!(parse_u32(&decimal_string(n as u64)), Some(n));
    }
}

#[test]
fn colon_pairs() {
    assert_eq!(colon_pair("1:2"), Some(("1".to_string(), "2".to_string())));
    assert_eq!(colon_pair(":"), Some((String::new(), String::new())));
    assert_eq!(colon_pair("1:2:3"), None);
    assert_eq!(colon_pair("12"), None);
    assert_eq!(join_pair("ab", "cd"), "ab:cd");
    assert_eq!(colon_pair(&join_pair("524288", "131072")), Some(("524288".into(), "131072".into())));
}

#[test]
fn string_equality() {
    assert!(str_eq("abc", "abc"));
    assert!(!str_eq("abc", "abd"));
    assert!(!str_eq("abc", "ab"));
    assert!(str_eq("", ""));
}
