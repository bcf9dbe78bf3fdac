//! Text.
use wyzesense2mqtt_rs::config::app_config::{read_choice, DongleChoice};
use wyzesense2mqtt_rs::engine::listing::is_ghost_given;
use wyzesense2mqtt_rs::hex::{list_to_hex, parse_byte, parse_list, word_to_hex};
use wyzesense2mqtt_rs::text::{
    contains, ends_with, eq_ignore_ascii_case, hundredths, inner, is_whitespace, parse_bool,
    parse_decimal, replace, same, split, split_whitespace, starts_with, to_decimal, trim, trim_end,
};
use wyzesense2mqtt_rs::transport::hidraw::is_dongle_link;

fn words(s: &[&str]) -> Vec<String> {
    s.iter().map(|x| x.to_string()).collect()
}

#[test]
fn whitespace_is_that_of_unicode() {
    for c in '\0'..=char::MAX {
        assert_eq!(is_whitespace(c), c.is_whitespace(), "{:?}", c);
    }
}

#[test]
fn texts_are_trimmed_and_cut() {
    for s in ["", " ", "a", " a b ", "\t\u{a0}a\u{3000}", "ab", "a\u{2003}\n b"] {
        assert_eq!(trim(s), s.trim());
        let expected: Vec<String> = s.split_whitespace().map(|x| x.to_string()).collect();
        assert_eq!(split_whitespace(s), expected);
    }
    assert_eq!(split("a,,b,", ','), words(&["a", "", "b", ""]));
    assert_eq!(split("", ','), words(&[""]));
    assert_eq!(replace("/dev/x", '/', "%2F"), "%2Fdev%2Fx");
    assert_eq!(trim_end("ab\0\0", '\0'), "ab");
    assert_eq!(trim_end("\0", '\0'), "");
    assert_eq!(inner("abcde", "a", "de"), "bc");
}

#[test]
fn parts_are_found() {
    assert!(starts_with("abc", "ab") && !starts_with("ab", "abc") && starts_with("a", ""));
    assert!(ends_with("abc", "bc") && !ends_with("abc", "ab"));
    assert!(contains("abc", "b") && contains("abc", "") && !contains("abc", "ac"));
    assert!(same("ä", "ä") && !same("a", "A"));
    assert!(eq_ignore_ascii_case("oN", "On") && !eq_ignore_ascii_case("Ä", "ä"));
    assert!(!eq_ignore_ascii_case("@", "`") && !eq_ignore_ascii_case("on", "one"));
}

#[test]
fn numbers_are_read_and_written() {
    for n in [0, 9, 10, 99, 100, 12345, u64::MAX] {
        assert_eq!(to_decimal(n), n.to_string());
    }
    for (v, s) in [(2146, "21.46"), (-50, "-0.50"), (0, "0.00"), (-1234, "-12.34"), (5, "0.05")] {
        assert_eq!(hundredths(v), s);
    }
    for s in ["", "+", "0", "007", "+12", "-1", "1a", " 1", "65535", "65536", "99999999999"] {
        assert_eq!(parse_decimal(s, 65535), s.parse::<u16>().ok().map(|n| n as u64), "{:?}", s);
    }
    for s in ["true", "false", "True", "1", ""] {
        assert_eq!(parse_bool(s), s.parse::<bool>().ok());
    }
}

#[test]
fn bytes_are_read_and_written() {
    for s in ["", "0", "+f", "Ff", "100", "g", "-1", "00ff", "é"] {
        assert_eq!(parse_byte(s), u8::from_str_radix(s, 16).ok(), "{:?}", s);
    }
    assert_eq!(parse_list("AA, 55,,3 "), Some(vec![0xAA, 0x55, 3]));
    assert_eq!(parse_list(""), Some(vec![]));
    assert_eq!(parse_list("AA,zz"), None);
    assert_eq!(list_to_hex(&[0xAB, 1], true), "AB,01");
    assert_eq!(list_to_hex(&[0xAB, 1], false), "ab,01");
    assert_eq!(word_to_hex(0x53AB), "53AB");
}

#[test]
fn results_of_case_mapping_are_judged() {
    assert_eq!(read_choice("auto", "Auto"), DongleChoice::Auto);
    assert_eq!(read_choice("none", "NONE"), DongleChoice::Remote);
    assert_eq!(read_choice("/dev/x", "/dev/X"), DongleChoice::Path("/dev/X".to_string()));
    assert!(is_dongle_link("0003:1a86:e024.0004"));
    assert!(is_dongle_link("e024-1a86"));
    assert!(!is_dongle_link("1a86"));
    assert!(is_ghost_given("ABCD1234", false));
    assert!(!is_ghost_given("ABCD1234", true));
    assert!(is_ghost_given("00000000", true));
}
