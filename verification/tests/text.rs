use eal_leptos_web::ids::{short_uuid, uuid_string, UtcTimestamp};
use eal_leptos_web::scores::{clamp_score_bits, is_unit_interval, ONE_BITS};
use eal_leptos_web::text::{
    can_shorten_hash, decimal_text, first_chars, join_first, join_texts, short_hash, trim_text,
    yes_no,
};

#[test]
fn trims_unicode_whitespace() {
    assert_eq!(trim_text("\t\u{a0} hello world \u{2028}"), "hello world");
    assert_eq!(trim_text("   "), "");
    assert_eq!(trim_text("x"), "x");
}

#[test]
fn decimal_numbers() {
    assert_eq!(decimal_text(0), "0");
    assert_eq!(decimal_text(250), "250");
    assert_eq!(decimal_text(u64::MAX), "18446744073709551615");
}

#[test]
fn joins_with_separator() {
    let items = vec!["a".to_string(), "b".to_string(), "c".to_string()];
    assert_eq!(join_texts(&items, " · "), "a · b · c");
    assert_eq!(join_first(&items, 2, ", "), "a, b");
    assert_eq!(join_first(&items, 9, ", "), "a, b, c");
    assert_eq!(join_texts(&Vec::new(), ", "), "");
    assert_eq!(first_chars("abcdef", 3), "abc");
    assert_eq!(yes_no(true), "yes");
    assert_eq!(yes_no(false), "no");
}

#[test]
fn hashes_are_shortened_around_an_ellipsis() {
    assert_eq!(short_hash("0123456789abcdef"), "0123456789abcdef");
    assert_eq!(
        short_hash("0123456789abcdef0123456789abcdefXYZ"),
        "01234567\u{2026}bcdefXYZ"
    );
    assert!(can_shorten_hash("ab"));
    assert!(!can_shorten_hash("aaaaaaaé1234567890"));
}

#[test]
fn uuids_use_the_hyphenated_lower_case_form() {
    let v = 0x67e5_5044_10b1_426f_9247_bb68_0e5f_e0c8u128;
    assert_eq!(uuid_string(v), "67e55044-10b1-426f-9247-bb680e5fe0c8");
    assert_eq!(short_uuid(v), "67e55044");
    assert_eq!(short_uuid(0), "00000000");
}

#[test]
fn timestamps_are_labelled_to_the_minute() {
    let t = UtcTimestamp::from_unix_seconds(1_431_648_059).unwrap();
    assert_eq!(t.label(), "2015-05-15 00:00 UTC");
    assert_eq!(t.unix_seconds(), 1_431_648_059);
    assert!(UtcTimestamp::from_unix_seconds(i64::MAX).is_none());
}

#[test]
fn score_bits() {
    assert_eq!(clamp_score_bits(0.5f32.to_bits()), 0.5f32.to_bits());
    assert_eq!(clamp_score_bits((-0.0f32).to_bits()), (-0.0f32).to_bits());
    assert_eq!(clamp_score_bits(f32::NEG_INFINITY.to_bits()), 0);
    assert_eq!(clamp_score_bits(1.5f32.to_bits()), ONE_BITS);
    assert!(is_unit_interval(1.0f32.to_bits()));
    assert!(!is_unit_interval(f32::NAN.to_bits()));
    assert!(!is_unit_interval(1.0000001f32.to_bits()));
}
