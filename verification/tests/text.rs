use vpg::text::apply_replacements;
use vpg::text::chars_of;
use vpg::text::decimal_string;
use vpg::text::hex_string;
use vpg::text::join_path;
use vpg::text::replace_text;
use vpg::text::string_of;

#[test]
fn decimal_numerals() {
    assert_eq!(decimal_string(0), "0");
    assert_eq!(decimal_string(7), "7");
    assert_eq!(decimal_string(10), "10");
    assert_eq!(decimal_string(12345), "12345");
    assert_eq!(decimal_string(u64::MAX), "18446744073709551615");
}

#[test]
fn decimal_numerals_read_back() {
    for n in [0u64, 1, 9, 10, 99, 100, 4096, 1_000_000_007, u64::MAX] {
        assert_eq!(decimal_string(n).parse::<u64>().unwrap(), n);
        assert_eq!(decimal_string(n), n.to_string());
    }
}

#[test]
fn replacing_matches_str_replace() {
    let cases = [
        ("let n = {{NUM_OF_CPUS}};", "{{NUM_OF_CPUS}}", "4"),
        ("aaaa", "aa", "b"),
        ("abcabc", "bc", ""),
        ("abc", "", "-"),
        ("", "", "x"),
        ("", "a", "x"),
        ("ab", "abc", "x"),
        ("{{A}}{{A}}", "{{A}}", "{{A}}{{A}}"),
        ("日本語の{{X}}", "{{X}}", "値"),
    ];
    for (s, p, r) in cases {
        assert_eq!(replace_text(s, p, r), s.replace(p, r), "{:?}", (s, p, r));
    }
}

#[test]
fn replacing_an_absent_pattern_changes_nothing() {
    assert_eq!(replace_text("no placeholder here", "{{NUM_OF_CPUS}}", "8"), "no placeholder here");
}

#[test]
fn replacements_apply_in_turn() {
    let pairs = vec![
        ("{{A}}".to_string(), "{{B}}".to_string()),
        ("{{B}}".to_string(), "2".to_string()),
    ];
    assert_eq!(apply_replacements("{{A}} and {{B}}", &pairs), "2 and 2");
    assert_eq!(apply_replacements("unchanged", &Vec::new()), "unchanged");
}

#[test]
fn joining_paths() {
    assert_eq!(join_path("../../proj/demo", "src"), "../../proj/demo/src");
    assert_eq!(join_path("../../proj/", "src"), "../../proj/src");
    assert_eq!(join_path("", "src"), "src");
    for (a, b) in [("x/y", "z"), ("x/", "z"), ("", "z")] {
        let expected = std::path::PathBuf::from(a).join(b);
        assert_eq!(join_path(a, b), expected.to_str().unwrap());
    }
}

#[test]
fn characters_round_trip() {
    let s = "héllo, wörld";
    let chars = chars_of(s);
    assert_eq!(chars, s.chars().collect::<Vec<char>>());
    assert_eq!(string_of(&chars), s);
}

#[test]
fn hexadecimal_numerals() {
    for n in [0u64, 9, 10, 15, 16, 255, 0x0c00_0000, 0xABCDEF, u64::MAX] {
        assert_eq!(hex_string(n), format!("{:x}", n));
        assert_eq!(u64::from_str_radix(&hex_string(n), 16).unwrap(), n);
    }
}

#[test]
fn absolute_components_replace_the_base() {
    assert_eq!(join_path("p/src", "/x.rs"), "/x.rs");
    assert_eq!(join_path("p", ""), "p/");
    for (a, b) in [("p/src", "/x.rs"), ("", "/a"), ("p", ""), ("/", "a")] {
        let expected = std::path::PathBuf::from(a).join(b);
        assert_eq!(join_path(a, b), expected.to_str().unwrap());
    }
}
