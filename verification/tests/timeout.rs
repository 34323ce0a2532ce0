use http_send::timeout::{TimeSpan, Timeout, NANOS_PER_SEC};

fn parts(span: TimeSpan) -> (u64, u32) {
    (span.as_secs(), span.nanos_part())
}

#[test]
fn span_takes_nanos_below_a_second() {
    assert_eq!(NANOS_PER_SEC, 1_000_000_000);
    assert_eq!(parts(TimeSpan::new(3, 999_999_999).unwrap()), (3, 999_999_999));
    assert_eq!(parts(TimeSpan::new(0, 0).unwrap()), (0, 0));
    assert!(TimeSpan::new(3, 1_000_000_000).is_none());
    assert!(TimeSpan::new(0, u32::MAX).is_none());
}

#[test]
fn span_of_nanos_splits_at_the_second() {
    assert_eq!(parts(TimeSpan::from_nanos(0)), (0, 0));
    assert_eq!(parts(TimeSpan::from_nanos(999_999_999)), (0, 999_999_999));
    assert_eq!(parts(TimeSpan::from_nanos(1_000_000_000)), (1, 0));
    assert_eq!(parts(TimeSpan::from_nanos(1_500_000_001)), (1, 500_000_001));
    assert_eq!(parts(TimeSpan::from_nanos(u64::MAX)), (18_446_744_073, 709_551_615));
}

#[test]
fn duration_strings_are_read() {
    let read = |text: &str| Timeout::from_text(text).map(|t| parts(t.span()));
    assert_eq!(read("10ms"), Some((0, 10_000_000)));
    assert_eq!(read("5s"), Some((5, 0)));
    assert_eq!(read("200ms"), Some((0, 200_000_000)));
    assert_eq!(read("1m+30"), Some((90, 0)));
    assert_eq!(read("2h"), Some((7200, 0)));
    assert_eq!(read("1500ns"), Some((0, 1500)));
}

#[test]
fn duration_string_keeps_its_form() {
    assert!(matches!(Timeout::from_text("5s"), Some(Timeout::TimeString(_))));
    assert!(matches!(Timeout::from_nanos(5), Timeout::Nanosec(5)));
}

#[test]
fn other_texts_are_no_timeouts() {
    assert!(Timeout::from_text("").is_none());
    assert!(Timeout::from_text("soon").is_none());
    assert!(Timeout::from_text("10000000").is_none());
    assert!(Timeout::from_text("-5s").is_none());
    assert!(Timeout::from_text("5 parsecs").is_none());
}

#[test]
fn parsed_parts_make_a_timeout_only_below_a_second() {
    let t = Timeout::from_parts(Some((2, 5))).unwrap();
    assert_eq!(parts(t.span()), (2, 5));
    assert!(Timeout::from_parts(Some((2, 1_000_000_000))).is_none());
    assert!(Timeout::from_parts(None).is_none());
}

#[test]
fn both_forms_of_a_timeout_allow_the_same_time() {
    let text = Timeout::from_text("10ms").unwrap();
    let count = Timeout::from_nanos(10_000_000);
    assert_eq!(text.span(), count.span());
    let text = Timeout::from_text("90s").unwrap();
    let count = Timeout::Nanosec(90_000_000_000);
    assert_eq!(text.span(), count.span());
    assert_ne!(text.span(), Timeout::Nanosec(90_000_000_001).span());
}

#[test]
fn duration_strings_out_of_range_are_no_timeouts() {
    assert!(Timeout::from_text("99999999999999999999s").is_none());
    assert!(Timeout::from_text("18446744073709551615y").is_none());
    assert!(Timeout::from_text("1y*1y*1y*1y").is_none());
    assert!(Timeout::from_text("10ms+").is_none());
    assert!(Timeout::from_text("10ms*").is_none());
    assert!(Timeout::from_text("1s+2m*3").is_none());
    assert!(Timeout::from_text("\u{b5}s").is_none());
    let t = Timeout::from_text("18446744073709551615ns").unwrap();
    assert_eq!(t.span(), TimeSpan::from_nanos(u64::MAX));
    let t = Timeout::from_text("1\u{b5}s").unwrap();
    assert_eq!(t.span(), TimeSpan::from_nanos(1000));
}
