use dispatcher::error::{AppError, ErrorExt, ErrorKind, ErrorKindProperties};
use dispatcher::numbers::parse_i64;
use dispatcher::segments::{
    read_segment_line, read_segment_lines, relative_segments, Segment, SegmentLine,
    SegmentsError,
};
use dispatcher::text::{contains, find_str, same_text, starts_with, take_before_char};
use dispatcher::time::{dt_options_cmp_max, dt_options_cmp_min, times_overlap, Bound, Moment};

fn at(secs: i64) -> Moment {
    Moment { secs, nanos: 0 }
}

#[test]
fn error_kind_properties_table() {
    let p = ErrorKindProperties::of_kind(ErrorKind::AccessDenied);
    assert_eq!(p.status, 403);
    assert_eq!(p.kind, "access_denied");
    assert_eq!(p.title, "Access denied");
    assert!(!p.is_notify_sentry);

    let p = ErrorKindProperties::of_kind(ErrorKind::DbQueryFailed);
    assert_eq!(p.status, 422);
    assert_eq!(p.kind, "database_query_failed");
    assert!(p.is_notify_sentry);

    let p: ErrorKindProperties = ErrorKind::Unauthorized.into();
    assert_eq!(p.status, 401);
    assert_eq!(p.kind, "authentication_failed");

    assert_eq!(ErrorKind::ClassNotFound.title(), "Class not found");
    assert!(ErrorKind::MqttRequestFailed.is_notify_sentry());
    assert!(!ErrorKind::InvalidPayload.is_notify_sentry());
}

#[test]
fn app_error_keeps_kind_and_cause() {
    let e = AppError::new(ErrorKind::RecordingNotFound, anyhow::Error::msg("no recording"));
    assert_eq!(e.kind(), ErrorKind::RecordingNotFound);
    assert_eq!(e.source().to_string(), "no recording");
    assert_eq!(e.properties().status, 404);
    assert!(!e.should_notify());

    let e = AppError::new(ErrorKind::SerializationFailed, anyhow::Error::msg("x"));
    assert!(e.should_notify());
}

#[test]
fn authz_failures_are_classified() {
    let e = AppError::from_authz_failure(true, anyhow::Error::msg("forbidden"));
    assert_eq!(e.kind(), ErrorKind::AccessDenied);
    let e = AppError::from_authz_failure(false, anyhow::Error::msg("network"));
    assert_eq!(e.kind(), ErrorKind::AuthorizationFailed);
}

#[test]
fn error_ext_attaches_kind() {
    let ok: Result<u32, anyhow::Error> = Ok(7);
    assert_eq!(ok.error(ErrorKind::DbQueryFailed).unwrap(), 7);
    let failed: Result<u32, anyhow::Error> = Err(anyhow::Error::msg("boom"));
    let e = failed.error(ErrorKind::DbQueryFailed).unwrap_err();
    assert_eq!(e.kind(), ErrorKind::DbQueryFailed);
    assert_eq!(e.source().to_string(), "boom");
}

#[test]
fn error_text_shows_title_and_cause() {
    let e = AppError::new(ErrorKind::ClassNotFound, anyhow::Error::msg("boom"));
    assert_eq!(e.kind(), ErrorKind::ClassNotFound);
    assert_eq!(e.text(), "Class not found: boom");
}

#[test]
fn parses_decimal_integers() {
    assert_eq!(parse_i64("0"), Some(0));
    assert_eq!(parse_i64("1700000000123"), Some(1700000000123));
    assert_eq!(parse_i64("-42"), Some(-42));
    assert_eq!(parse_i64("+42"), Some(42));
    assert_eq!(parse_i64("9223372036854775807"), Some(i64::MAX));
    assert_eq!(parse_i64("-9223372036854775808"), Some(i64::MIN));
    assert_eq!(parse_i64("9223372036854775808"), None);
    assert_eq!(parse_i64(""), None);
    assert_eq!(parse_i64("-"), None);
    assert_eq!(parse_i64("12a"), None);
    assert_eq!(parse_i64(" 12"), None);
}

#[test]
fn text_helpers() {
    assert!(starts_with("classrooms/1", "classrooms"));
    assert!(!starts_with("class", "classrooms"));
    assert!(contains("a::b", "::"));
    assert!(!contains("a:b", "::"));
    assert_eq!(find_str("abcabc", "ca"), Some(2));
    assert_eq!(find_str("abc", "x"), None);
    assert!(same_text("room.close", "room.close"));
    assert!(!same_text("room.close", "room.closed"));
    assert_eq!(take_before_char("abc?d=1", '?'), "abc");
    assert_eq!(take_before_char("abc", '?'), "abc");
}

#[test]
fn later_and_earlier_moments() {
    assert_eq!(dt_options_cmp_max(Some(at(1)), Some(at(2))), Some(at(2)));
    assert_eq!(dt_options_cmp_max(Some(at(3)), None), Some(at(3)));
    assert_eq!(dt_options_cmp_max(None, None), None);
    assert_eq!(dt_options_cmp_min(Some(at(1)), Some(at(2))), Some(at(1)));
    assert_eq!(dt_options_cmp_min(None, Some(at(2))), Some(at(2)));
    let a = Moment { secs: 5, nanos: 10 };
    let b = Moment { secs: 5, nanos: 20 };
    assert_eq!(dt_options_cmp_max(Some(a), Some(b)), Some(b));
    assert!(a.le(&b));
    assert!(!b.le(&a));
}

#[test]
fn overlap_of_ranges() {
    let r = times_overlap(
        (Bound::Included(at(10)), Bound::Excluded(at(100))),
        (Bound::Excluded(at(50)), Bound::Unbounded),
    );
    assert_eq!(r, (Bound::Included(at(50)), Bound::Excluded(at(100))));

    let r = times_overlap(
        (Bound::Unbounded, Bound::Unbounded),
        (Bound::Unbounded, Bound::Included(at(7))),
    );
    assert_eq!(r, (Bound::Unbounded, Bound::Excluded(at(7))));

    // The order of the ranges does not matter.
    let t1 = (Bound::Included(at(1)), Bound::Included(at(9)));
    let t2 = (Bound::Included(at(4)), Bound::Excluded(at(20)));
    assert_eq!(times_overlap(t1, t2), times_overlap(t2, t1));
    // Nor does the grouping.
    let t3 = (Bound::Unbounded, Bound::Excluded(at(6)));
    assert_eq!(
        times_overlap(times_overlap(t1, t2), t3),
        times_overlap(t1, times_overlap(t2, t3))
    );
}

#[test]
fn reads_segment_lines() {
    match read_segment_line("1700000000000,12.5") {
        SegmentLine::Fields { started_at, duration } => {
            assert_eq!(started_at, 1700000000000);
            assert_eq!(duration, "12.5");
        }
        _ => panic!("expected fields"),
    }
    assert!(matches!(read_segment_line("no comma"), SegmentLine::Unsplittable));
    assert!(matches!(read_segment_line("x,1"), SegmentLine::InvalidStartedAt));
    match read_segment_line("5,1,2") {
        SegmentLine::Fields { started_at, duration } => {
            assert_eq!(started_at, 5);
            assert_eq!(duration, "1,2");
        }
        _ => panic!("expected fields"),
    }

    let lines = read_segment_lines("1,2\n3,4\n");
    assert_eq!(lines.len(), 3);
    assert!(matches!(lines[0], SegmentLine::Fields { started_at: 1, .. }));
    assert!(matches!(lines[1], SegmentLine::Fields { started_at: 3, .. }));
    assert!(matches!(lines[2], SegmentLine::Unsplittable));
}

#[test]
fn places_segments_relative_to_the_first() {
    let (start, segs) =
        relative_segments(&vec![1700000000123, 1700000005123], &vec![4000, 1000]).unwrap();
    assert_eq!(start, Moment { secs: 1700000000, nanos: 123_000_000 });
    assert_eq!(
        segs,
        vec![Segment { start: 0, end: 4000 }, Segment { start: 5000, end: 6000 }]
    );

    assert_eq!(
        relative_segments(&vec![], &vec![]).unwrap_err(),
        SegmentsError::NoSegments
    );
    // A start before the epoch with leftover milliseconds is no valid moment.
    assert_eq!(
        relative_segments(&vec![-1500], &vec![10]).unwrap_err(),
        SegmentsError::InvalidStart
    );
    // Whole seconds before the epoch are.
    let (start, _) = relative_segments(&vec![-2000], &vec![10]).unwrap();
    assert_eq!(start, Moment { secs: -2, nanos: 0 });
}
