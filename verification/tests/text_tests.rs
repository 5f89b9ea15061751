use hrekt::classify::{classify_status, StatusBucket};
use hrekt::text::{bracket, join_with_commas, u64_to_dec};

#[test]
fn decimal_rendering_exact() {
    assert_eq!(u64_to_dec(0), "0");
    assert_eq!(u64_to_dec(7), "7");
    assert_eq!(u64_to_dec(42), "42");
    assert_eq!(u64_to_dec(1000), "1000");
    assert_eq!(u64_to_dec(65535), "65535");
    assert_eq!(u64_to_dec(u64::MAX), "18446744073709551615");
}

#[test]
fn bracket_wraps() {
    assert_eq!(bracket(""), "[]");
    assert_eq!(bracket("x"), "[x]");
    assert_eq!(bracket("text/html"), "[text/html]");
}

#[test]
fn join_with_commas_exact() {
    assert_eq!(join_with_commas(&vec![]), "");
    assert_eq!(join_with_commas(&vec!["a".to_string()]), "a");
    assert_eq!(
        join_with_commas(&vec!["a".to_string(), "b".to_string(), "c".to_string()]),
        "a,b,c"
    );
}

#[test]
fn status_buckets_by_range() {
    assert_eq!(classify_status(201), Some(StatusBucket::Success));
    assert_eq!(classify_status(404), Some(StatusBucket::ClientError));
    assert_eq!(classify_status(503), Some(StatusBucket::ServerError));
    assert_eq!(classify_status(100), Some(StatusBucket::Informational));
    assert_eq!(classify_status(199), Some(StatusBucket::Informational));
    assert_eq!(classify_status(301), Some(StatusBucket::Redirect));
    assert_eq!(classify_status(99), None);
    assert_eq!(classify_status(600), None);
}

#[test]
fn bucket_ranges_are_mutually_exclusive() {
    // Walking every code: exactly one class in [100,600), none outside.
    for sc in 0..1000u16 {
        let b = classify_status(sc);
        let expected = match sc {
            100..=199 => Some(StatusBucket::Informational),
            200..=299 => Some(StatusBucket::Success),
            300..=399 => Some(StatusBucket::Redirect),
            400..=499 => Some(StatusBucket::ClientError),
            500..=599 => Some(StatusBucket::ServerError),
            _ => None,
        };
        assert_eq!(b, expected);
    }
}
