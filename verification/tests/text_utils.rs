//! The text utilities: blank detection, decimal parsing of header values, and
//! decimal formatting — each held against the std behaviour it mirrors.

use todoist_client::text::i32_to_dec;
use todoist_client::text::is_blank;
use todoist_client::text::parse_u64;
use todoist_client::text::u64_to_dec;

#[test]
fn parse_u64_accepts_what_std_accepts() {
    let cases = [
        "30",
        "0",
        "+7",
        "007",
        "",
        "+",
        "++3",
        "abc",
        "30 ",
        " 30",
        "-1",
        "3.5",
        "18446744073709551615",
        "18446744073709551616",
        "99999999999999999999999999",
    ];
    for text in cases {
        assert_eq!(parse_u64(text), text.parse::<u64>().ok(), "on input {:?}", text);
    }
}

#[test]
fn parse_u64_reads_the_retry_after_shape() {
    assert_eq!(parse_u64("30"), Some(30));
    assert_eq!(parse_u64("18446744073709551615"), Some(u64::MAX));
    assert_eq!(parse_u64("18446744073709551616"), None);
}

#[test]
fn u64_to_dec_matches_std_formatting() {
    for n in [0u64, 1, 9, 10, 99, 100, 12345, u64::MAX] {
        assert_eq!(u64_to_dec(n), n.to_string());
    }
}

#[test]
fn i32_to_dec_matches_std_formatting() {
    for n in [0i32, 7, -1, -42, 2147483647, i32::MIN] {
        assert_eq!(i32_to_dec(n), n.to_string());
    }
}

#[test]
fn blank_detection_matches_trimmed_emptiness() {
    let cases = ["", " ", "  \t\r\n", "\u{00A0}\u{2028}", "x", " x ", "null", "\u{1680} \u{3000}"];
    for text in cases {
        assert_eq!(is_blank(text), text.trim().is_empty(), "on input {:?}", text);
    }
}
