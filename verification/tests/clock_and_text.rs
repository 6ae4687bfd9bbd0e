use kuma_services::clock::deserialize_unix_timestamp;
use kuma_services::clock::Timestamp;
use kuma_services::logtail::format_record;
use kuma_services::text::chars_of;
use kuma_services::text::contains_text;
use kuma_services::text::decode_utf8_chars;
use kuma_services::text::first_word_of;
use kuma_services::text::status_body;
use kuma_services::text::string_of_chars;

fn at(secs: i64) -> Timestamp {
    deserialize_unix_timestamp(secs).expect("representable")
}

fn word(text: &str) -> Option<String> {
    first_word_of(&chars_of(text)).map(|w| w.into_iter().collect())
}

#[test]
fn timestamps_within_chrono_range_are_accepted() {
    assert_eq!(deserialize_unix_timestamp(0).map(|t| t.seconds()), Some(0));
    assert_eq!(deserialize_unix_timestamp(1_700_000_000).map(|t| t.seconds()), Some(1_700_000_000));
    assert_eq!(deserialize_unix_timestamp(-86_400).map(|t| t.seconds()), Some(-86_400));
}

#[test]
fn timestamp_range_edges() {
    assert!(deserialize_unix_timestamp(-8_334_601_228_800).is_some());
    assert!(deserialize_unix_timestamp(-8_334_601_228_801).is_none());
    assert!(deserialize_unix_timestamp(8_210_266_876_799).is_some());
    assert!(deserialize_unix_timestamp(8_210_266_876_800).is_none());
    assert!(deserialize_unix_timestamp(i64::MAX).is_none());
    assert!(deserialize_unix_timestamp(i64::MIN).is_none());
}

#[test]
fn elapsed_nanoseconds_are_signed() {
    assert_eq!(at(86_400).nanos_since(&at(0)), 86_400_000_000_000);
    assert_eq!(at(0).nanos_since(&at(86_400)), -86_400_000_000_000);
    assert_eq!(at(5).nanos_since(&at(5)), 0);
    assert_eq!(
        at(8_210_266_876_799).nanos_since(&at(-8_334_601_228_800)),
        16_544_868_105_599 * 1_000_000_000
    );
    let later = Timestamp::from_parts(10, 250).unwrap();
    let earlier = Timestamp::from_parts(9, 999_999_999).unwrap();
    assert_eq!(later.nanos_since(&earlier), 251);
    assert_eq!(earlier.nanos_since(&later), -251);
}

#[test]
fn clock_readings_from_parts() {
    let t = Timestamp::from_parts(1_700_000_000, 123).unwrap();
    assert_eq!((t.seconds(), t.nanoseconds()), (1_700_000_000, 123));
    assert!(Timestamp::from_parts(0, 999_999_999).is_some());
    assert!(Timestamp::from_parts(0, 1_000_000_000).is_none());
    assert!(Timestamp::from_parts(8_210_266_876_800, 0).is_none());
    assert_eq!(at(42).nanoseconds(), 0);
}

#[test]
fn first_word_skips_leading_whitespace() {
    assert_eq!(word("2024-05-01T03:00:01+0200 host CRON[1]: x"), Some("2024-05-01T03:00:01+0200".to_string()));
    assert_eq!(word("  \t\nabc def"), Some("abc".to_string()));
    assert_eq!(word("\u{3000}\u{a0}x\u{2028}y"), Some("x".to_string()));
    assert_eq!(word("single"), Some("single".to_string()));
}

#[test]
fn first_word_of_blank_text_is_none() {
    assert_eq!(word(""), None);
    assert_eq!(word(" \t\r\n\u{85}\u{2003}"), None);
}

#[test]
fn contains_text_finds_runs() {
    assert!(contains_text("has children here", "children"));
    assert!(contains_text("children", "children"));
    assert!(!contains_text("child ren", "children"));
    assert!(!contains_text("Dow", "Down"));
    assert!(contains_text("anything", ""));
    assert!(contains_text("ééDown", "Down"));
}

#[test]
fn utf8_decoding() {
    assert_eq!(decode_utf8_chars(&vec![0xff, 0x41]), None);
    assert_eq!(decode_utf8_chars(&vec![0xc3, 0xa9, 0x41]), Some(vec!['é', 'A']));
    assert_eq!(decode_utf8_chars(&vec![]), Some(vec![]));
}

#[test]
fn string_of_chars_round_trip() {
    assert_eq!(string_of_chars(&vec!['a', 'é', '🦀']), "aé🦀");
    assert_eq!(chars_of("aé🦀"), vec!['a', 'é', '🦀']);
}

#[test]
fn status_bodies_are_compact_json() {
    assert_eq!(status_body("OK"), "{\"status\":\"OK\"}");
    assert_eq!(status_body("a \"quoted\"\nline"), "{\"status\":\"a \\\"quoted\\\"\\nline\"}");
    assert_eq!(status_body("\\ \t\r\u{8}\u{c}"), "{\"status\":\"\\\\ \\t\\r\\b\\f\"}");
    assert_eq!(status_body("\u{1}\u{1f}\u{7f}é/"), "{\"status\":\"\\u0001\\u001f\u{7f}é/\"}");
}

#[test]
fn log_record_layout() {
    assert_eq!(
        format_record("INFO", "2024-05-01T03:00:01+02:00", "kuma_relay", "Listening"),
        "[INFO][2024-05-01T03:00:01+02:00][kuma_relay] Listening"
    );
    assert_eq!(format_record("", "", "", ""), "[][][] ");
}
