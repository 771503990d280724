use dispatcher::authz::{
    apply_lookup_result, AuthzRequest, ClassLookupResult, Object, Subject, SubjectValue,
};
use dispatcher::authz::AccountId;
use dispatcher::ban::{mark_done, start_operation, BanOpRecord, BanPart};
use dispatcher::classes::Class;
use dispatcher::completion::ready_event;
use dispatcher::error::ErrorKind;
use dispatcher::events::rollback_event;
use dispatcher::postprocessing::{
    check_room_opening, host_room_adjustment, plan_adjustment, plan_transcoding, upload_step, AdjustPlan, AgentId, ClassType, PostprocessingError,
    Recording, RecordingSegments, Strategy, TranscodeMinigroupToHlsSuccess,
    TranscodeStreamToHlsSuccess, TranscodeSuccess, UploadStore,
};
use dispatcher::properties::KeyValueProperties;
use dispatcher::segments::{relative_segments, Segment, SegmentsError};
use dispatcher::time::{Bound, Moment};

fn at(secs: i64) -> Moment {
    Moment { secs, nanos: 0 }
}

fn agent(label: &str) -> AgentId {
    AgentId {
        label: "web".to_owned(),
        account: AccountId { label: label.to_owned(), audience: "usr.example.org".to_owned() },
    }
}

fn recording(id: u128, rtc_id: u128, by: &str, started: Moment) -> Recording {
    Recording {
        id,
        rtc_id,
        stream_uri: Some(format!("s3://rtc{}", rtc_id)),
        segments: Some(vec![Segment { start: 0, end: 1000 }]),
        modified_segments: None,
        started_at: Some(started),
        created_by: agent(by),
        transcoded_at: None,
        adjusted_at: None,
    }
}

fn adjusted(id: u128) -> RecordingSegments {
    RecordingSegments {
        id,
        modified_segments: vec![Segment { start: 0, end: 900 }],
        pin_segments: vec![],
        video_mute_segments: vec![],
        audio_mute_segments: vec![],
    }
}

fn class() -> Class {
    Class {
        id: 7,
        kind: ClassType::Minigroup,
        scope: "mg".to_owned(),
        audience: "usr.example.org".to_owned(),
        time: (Bound::Unbounded, Bound::Unbounded),
        conference_room_id: 1,
        event_room_id: 2,
        original_event_room_id: None,
        modified_event_room_id: None,
        original_class_id: None,
        content_id: None,
        timed_out: false,
        room_events_uri: None,
        tags: Some("{\"scope\":\"mg\"}".to_owned()),
        reserve: None,
        properties: KeyValueProperties::new(),
    }
}

#[test]
fn stream_offsets_are_millisecond_differences() {
    let recs = vec![
        recording(1, 11, "host", Moment { secs: 1000, nanos: 250_000_000 }),
        recording(2, 12, "guest", at(1000)),
        recording(3, 13, "late", at(1600)),
    ];
    let plan = plan_transcoding(&recs, &vec![adjusted(1), adjusted(2), adjusted(3)], &agent("host"))
        .ok()
        .unwrap();
    assert_eq!(plan.host_stream_id, 11);
    let offsets: Vec<u64> = plan.streams.iter().map(|s| s.offset).collect();
    assert_eq!(offsets, vec![250, 0, 600_000]);

    // A start that is no date makes no plan.
    let bad = vec![
        recording(1, 11, "host", at(1000)),
        recording(2, 12, "guest", Moment { secs: 1001, nanos: 1_500_000_000 }),
    ];
    assert_eq!(
        plan_transcoding(&bad, &vec![adjusted(1)], &agent("host")).err(),
        Some(PostprocessingError::UnrepresentableStart)
    );
}

#[test]
fn stream_offset_across_a_leap_second() {
    let recs = vec![
        recording(1, 11, "host", Moment { secs: 86_399, nanos: 1_500_000_000 }),
        recording(2, 12, "guest", at(86_400)),
    ];
    let plan = plan_transcoding(&recs, &vec![adjusted(2)], &agent("host")).ok().unwrap();
    // The leap second sorts first by key, so the host's recording is the
    // earliest; chrono does not count the leap second as elapsed time, so the
    // guest starts 500 ms "before" it and the offset wraps as a u64.
    assert_eq!(plan.streams.len(), 1);
    assert_eq!(plan.streams[0].offset, (-500i64) as u64);
}

#[test]
fn later_recording_with_an_id_is_taken() {
    let recs = vec![recording(5, 21, "host", at(10)), recording(5, 22, "host", at(20))];
    let plan = plan_transcoding(&recs, &vec![adjusted(5)], &agent("host")).ok().unwrap();
    assert_eq!(plan.streams.len(), 1);
    assert_eq!(plan.streams[0].id, 22);
    assert_eq!(plan.streams[0].offset, 10_000);
}

#[test]
fn valid_segment_lists_parse() {
    let (start, segs) = relative_segments(&vec![1000, 4000], &vec![1500, 2000]).unwrap();
    assert_eq!(start, at(1));
    assert_eq!(segs, vec![Segment { start: 0, end: 1500 }, Segment { start: 3000, end: 5000 }]);
}

#[test]
fn room_opening_is_checked() {
    assert_eq!(check_room_opening(&(Bound::Included(at(3)), Bound::Unbounded)), Ok(at(3)));
    assert_eq!(
        check_room_opening(&(Bound::Excluded(at(3)), Bound::Unbounded)),
        Err(PostprocessingError::WrongEventRoomOpeningTime)
    );
    assert_eq!(
        check_room_opening(&(Bound::Unbounded, Bound::Unbounded)),
        Err(PostprocessingError::WrongEventRoomOpeningTime)
    );
}

#[test]
fn uploads_are_stored_or_removed() {
    let ok: Result<(Moment, Vec<Segment>), String> = Ok((at(5), vec![Segment { start: 0, end: 10 }]));
    match upload_step(9, "s3://x".to_owned(), ok) {
        UploadStore::Update { stream_id, uri, started_at, segments } => {
            assert_eq!(stream_id, 9);
            assert_eq!(uri, "s3://x");
            assert_eq!(started_at, at(5));
            assert_eq!(segments, vec![Segment { start: 0, end: 10 }]);
        }
        UploadStore::Remove { .. } => panic!("expected an update"),
    }
    let failed: Result<(Moment, Vec<Segment>), String> = Err("bad".to_owned());
    assert!(matches!(upload_step(9, "s3://x".to_owned(), failed), UploadStore::Remove { stream_id: 9 }));
}

#[test]
fn ready_events() {
    let c = class();
    let mg = TranscodeSuccess::TranscodeMinigroupToHls(TranscodeMinigroupToHlsSuccess {
        recording_duration: "12.0".to_owned(),
    });
    let e = ready_event(Strategy::Minigroup, &c, &mg, 12).ok().unwrap();
    assert_eq!(e.label, "minigroup.ready");
    assert_eq!(e.path, "audiences/usr.example.org/events");
    assert_eq!(e.id, 7);
    assert_eq!(e.scope, "mg");
    assert_eq!(e.status, "success");
    assert_eq!(e.stream_duration, 12);
    assert_eq!(e.tags.as_deref(), Some("{\"scope\":\"mg\"}"));
    assert!(e.stream_id.is_none());

    let web = TranscodeSuccess::TranscodeStreamToHls(TranscodeStreamToHlsSuccess {
        stream_duration: "3".to_owned(),
        stream_id: 4,
        stream_uri: "s3://hls".to_owned(),
        event_room_id: 5,
    });
    let e = ready_event(Strategy::Webinar, &c, &web, 3).ok().unwrap();
    assert_eq!(e.label, "webinar.ready");
    assert_eq!(e.stream_id, Some(4));
    assert_eq!(e.stream_uri.as_deref(), Some("s3://hls"));
    assert_eq!(e.event_room_id, Some(5));
    assert_eq!(
        ready_event(Strategy::Minigroup, &c, &web, 3).err(),
        Some(PostprocessingError::UnexpectedTranscodingResult)
    );
}

fn request() -> AuthzRequest {
    AuthzRequest {
        subject: Subject { namespace: "ns".to_owned(), value: SubjectValue::New("u".to_owned()) },
        object: Object {
            namespace: "storage".to_owned(),
            value: vec!["sets".to_owned(), "ms.minigroup.a::b".to_owned()],
        },
        action: "read".to_owned(),
    }
}

#[test]
fn class_lookups_complete_the_substitution() {
    let mut r = request();
    apply_lookup_result(&mut r, ClassLookupResult::Found("cid".to_owned()), "dispatcher".to_owned())
        .unwrap();
    assert_eq!(r.object.value, vec!["classrooms".to_owned(), "cid".to_owned()]);
    assert_eq!(r.object.namespace, "dispatcher");

    let mut r = request();
    apply_lookup_result(&mut r, ClassLookupResult::NotFound, "dispatcher".to_owned()).unwrap();
    assert_eq!(r.object.value[0], "sets");
    assert_eq!(r.object.namespace, "storage");

    let mut r = request();
    let e = apply_lookup_result(
        &mut r,
        ClassLookupResult::QueryFailed(anyhow::Error::msg("query")),
        "dispatcher".to_owned(),
    )
    .unwrap_err();
    assert_eq!(e.kind(), ErrorKind::DbQueryFailed);
    let e = apply_lookup_result(
        &mut r,
        ClassLookupResult::ConnectionFailed(anyhow::Error::msg("conn")),
        "dispatcher".to_owned(),
    )
    .unwrap_err();
    assert_eq!(e.kind(), ErrorKind::DbConnAcquisitionFailed);
}

#[test]
fn handles_intents() {
    // The first intent starts an operation; a second one with another id,
    // while the first is in progress, is rejected.
    let op = start_operation(None, 0, 0).unwrap();
    assert_eq!(op, BanOpRecord { last_op_id: 0, video_streaming_banned: false, collaboration_banned: false });
    assert_eq!(start_operation(Some(op), 0, 1), None);
    // The same intent again leaves the operation as it is.
    assert_eq!(start_operation(Some(op), 0, 0), Some(op));
}

#[test]
fn finishes_operation() {
    let op = start_operation(None, 0, 0);
    let video = mark_done(op, 0, BanPart::VideoStreaming).unwrap();
    assert!(!video.account_op().completed);
    let both = mark_done(Some(video), 0, BanPart::Collaboration).unwrap();
    assert!(both.account_op().completed);
    assert_eq!(both.last_op_id, 0);
    // A part of another operation updates nothing.
    assert_eq!(mark_done(Some(both), 3, BanPart::Collaboration), None);
    assert_eq!(mark_done(None, 0, BanPart::Collaboration), None);
    // A completed operation lets the next one start.
    assert!(start_operation(Some(both), 0, 1).is_some());
}

#[test]
fn rollback_events() {
    let (label, path) = rollback_event("scope1");
    assert_eq!(label, "scope.frontend.rollback");
    assert_eq!(path, "scopes/scope1/events");
}

#[test]
fn stream_starts_at_the_calendar_edges() {
    assert!(relative_segments(&vec![8_210_266_876_799_999], &vec![1]).is_ok());
    assert_eq!(
        relative_segments(&vec![8_210_266_876_800_000], &vec![1]),
        Err(SegmentsError::InvalidStart)
    );
    assert!(relative_segments(&vec![-8_334_601_228_800_000], &vec![1]).is_ok());
    assert_eq!(
        relative_segments(&vec![-8_334_601_228_801_000], &vec![1]),
        Err(SegmentsError::InvalidStart)
    );
}

#[test]
fn adjustment_waits_for_every_stream() {
    let mut recs = vec![recording(1, 11, "host", at(10)), recording(2, 12, "guest", at(20))];
    recs[1].stream_uri = None;
    assert!(matches!(plan_adjustment(&recs, &Some(agent("host"))), AdjustPlan::WaitForRecordings));
    recs[1].stream_uri = Some("s3://rtc12".to_owned());
    match plan_adjustment(&recs, &Some(agent("host"))) {
        AdjustPlan::Adjust(list) => {
            assert_eq!(list.len(), 2);
            assert!(list[0].host);
            assert!(!list[1].host);
            assert_eq!(list[1].started_at, at(20));
        }
        _ => panic!("expected an adjustment"),
    }
    assert!(matches!(plan_adjustment(&recs, &None), AdjustPlan::NoHost));
    assert!(matches!(plan_adjustment(&recs, &Some(agent("other"))), AdjustPlan::NoHostRecording));
}

#[test]
fn host_stream_adjusts_the_room() {
    let mut host = recording(1, 11, "user1", at(100));
    host.segments = Some(vec![Segment { start: 0, end: 1_500_000 }, Segment { start: 1_800_000, end: 3_000_000 }]);
    let guest = recording(2, 12, "user2", at(700));
    let recs = vec![host, guest];
    match plan_adjustment(&recs, &Some(agent("user1"))) {
        AdjustPlan::Adjust(list) => {
            let (started_at, segments) = host_room_adjustment(&list).unwrap();
            assert_eq!(started_at, at(100));
            assert_eq!(
                segments,
                vec![Segment { start: 0, end: 1_500_000 }, Segment { start: 1_800_000, end: 3_000_000 }]
            );
        }
        _ => panic!("expected an adjustment"),
    }
    assert!(host_room_adjustment(&vec![]).is_none());
}
