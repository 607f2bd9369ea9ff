use meshtastic_bot_discord::decimal::{format_u64, parse_u64};
use meshtastic_bot_discord::text::str_eq;

#[test]
fn format_small_and_large_ids() {
    assert_eq!(format_u64(0), "0");
    assert_eq!(format_u64(7), "7");
    assert_eq!(format_u64(10), "10");
    assert_eq!(format_u64(1234567890123), "1234567890123");
    assert_eq!(format_u64(u64::MAX), "18446744073709551615");
}

#[test]
fn format_matches_to_string() {
    for n in [0u64, 1, 9, 10, 99, 100, 101, 65535, 1 << 40, 1311703210584068207, u64::MAX - 1] {
        assert_eq!(format_u64(n), n.to_string());
    }
}

#[test]
fn parse_accepts_what_std_accepts() {
    for s in ["0", "42", "007", "+5", "18446744073709551615", "1311703210584068207"] {
        assert_eq!(parse_u64(s), s.parse::<u64>().ok(), "{}", s);
    }
    assert_eq!(parse_u64("+5"), Some(5));
    assert_eq!(parse_u64("007"), Some(7));
}

#[test]
fn parse_rejects_what_std_rejects() {
    for s in ["", "+", "-", "-1", "-0", "++1", "1a", " 1", "1 ", "18446744073709551616", "99999999999999999999", "١٢", "1_000"] {
        assert_eq!(parse_u64(s), None, "{}", s);
        assert_eq!(s.parse::<u64>().ok(), None, "{}", s);
    }
}

#[test]
fn parse_of_format_round_trips() {
    for n in [0u64, 5, 10, 12345, 1 << 63, u64::MAX] {
        assert_eq!(parse_u64(&format_u64(n)), Some(n));
    }
}

#[test]
fn str_eq_compares_characters() {
    assert!(str_eq("post", "post"));
    assert!(!str_eq("post", "posts"));
    assert!(!str_eq("opendm", "openDM"));
    assert!(str_eq("", ""));
    assert!(str_eq("ünï", "ünï"));
}
