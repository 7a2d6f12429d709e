use lifec_registry::text::{parse_u64, replace_str, split_once, trim, trim_end_matches, trim_start_matches};

#[test]
fn parse_u64_like_str_parse() {
    for s in ["0", "42", "+7", "18446744073709551615", "", "+", "-1", "18446744073709551616", " 1", "1a", "007"] {
        assert_eq!(parse_u64(s), s.parse::<u64>().ok(), "input {s:?}");
    }
}

#[test]
fn trim_like_str_trim() {
    for s in ["", "  a b  ", "\t\ntoken\r\n", "\u{3000}x\u{2003}", "none"] {
        assert_eq!(trim(s), s.trim(), "input {s:?}");
    }
}

#[test]
fn replace_and_trim_matches_like_std() {
    let cases = [("aaa", "a", "b"), ("a,b,,c", ",", "&"), ("pull&push", "pull&push", "pull,push"), ("xx", "xxx", "y")];
    for (s, p, r) in cases {
        assert_eq!(replace_str(s, p, r), s.replace(p, r));
    }
    assert_eq!(trim_start_matches("ababc", "ab"), "ababc".trim_start_matches("ab"));
    assert_eq!(trim_end_matches("cabab", "ab"), "cabab".trim_end_matches("ab"));
}

#[test]
fn split_once_like_std() {
    assert_eq!(split_once("host/repo:tag", ':'), Some((String::from("host/repo"), String::from("tag"))));
    assert_eq!(split_once("a:b:c", ':'), Some((String::from("a"), String::from("b:c"))));
    assert_eq!(split_once("abc", ':'), None);
}
