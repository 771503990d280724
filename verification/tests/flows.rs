use dispatcher::authz::AccountId;
use dispatcher::classes::Class;
use dispatcher::convert::{classroom_event_room, RecordingConvertObject, RoomsRead, WebinarConvertObject};
use dispatcher::creation::{
    after_rooms, replica_plan, FollowUp, MinigroupCreatePayload, OriginalClass, P2PCreatePayload,
    RoomsOutcome, WebinarCreatePayload,
};
use dispatcher::downloads::{checked_webinar_download_url, minigroup_download_url, webinar_download_url};
use dispatcher::error::{AppError, ErrorKind};
use dispatcher::postprocessing::{
    pin_segments, preroll_offset, webinar_adjust_request, AgentId, PostprocessingError, Recording,
    RoomEvent, WEBINAR_PREROLL_OFFSET,
};
use dispatcher::frontend::redirect_location;
use dispatcher::postprocessing::ClassType;
use dispatcher::properties::KeyValueProperties;
use dispatcher::requests::LockedTypes;
use dispatcher::segments::Segment;
use dispatcher::time::{Bound, Moment};

fn at(secs: i64) -> Moment {
    Moment { secs, nanos: 0 }
}

fn props(entries: &[(&str, &str)]) -> KeyValueProperties {
    KeyValueProperties {
        entries: entries
            .iter()
            .map(|(k, v)| (k.to_string(), v.to_string()))
            .collect(),
    }
}

fn convert_object(time: bool, tags: bool) -> WebinarConvertObject {
    WebinarConvertObject {
        scope: "scope".to_owned(),
        audience: "usr.example.org".to_owned(),
        event_room_id: 1,
        conference_room_id: 2,
        time: if time { Some((Bound::Included(at(10)), Bound::Excluded(at(20)))) } else { None },
        tags: if tags { Some("{\"x\":1}".to_owned()) } else { None },
        original_event_room_id: Some(3),
        modified_event_room_id: None,
        recording: None,
    }
}

fn account() -> AccountId {
    AccountId { label: "user".to_owned(), audience: "usr.example.org".to_owned() }
}

#[test]
fn converted_webinar_uses_given_time_and_tags() {
    let body = convert_object(true, true);
    assert!(!body.needs_rooms());
    let plan = body.plan(&account(), None);
    assert_eq!(plan.insert.time, (Bound::Included(at(10)), Bound::Excluded(at(20))));
    assert_eq!(plan.insert.tags.as_deref(), Some("{\"x\":1}"));
    assert_eq!(plan.insert.original_event_room_id, Some(3));
    assert_eq!(plan.insert.event_room_id, 1);
    assert_eq!(plan.insert.conference_room_id, 2);
    assert!(plan.recording.is_none());
}

#[test]
fn converted_webinar_reads_its_rooms() {
    let body = convert_object(true, false);
    assert!(body.needs_rooms());
    let rooms = RoomsRead {
        event_time: (Bound::Included(at(5)), Bound::Unbounded),
        event_tags: Some("{\"y\":2}".to_owned()),
        conference_time: (Bound::Included(at(8)), Bound::Excluded(at(30))),
    };
    let plan = body.plan(&account(), Some(rooms));
    assert_eq!(plan.insert.time, (Bound::Included(at(8)), Bound::Excluded(at(30))));
    assert_eq!(plan.insert.tags.as_deref(), Some("{\"y\":2}"));

    // Rooms that could not be read leave the webinar unbounded and untagged.
    let plan = convert_object(false, true).plan(&account(), None);
    assert_eq!(plan.insert.time, (Bound::Unbounded, Bound::Unbounded));
    assert!(plan.insert.tags.is_none());
}

#[test]
fn converted_recording_is_created_by_the_portal() {
    let mut body = convert_object(true, true);
    body.recording = Some(RecordingConvertObject {
        stream_id: 9,
        segments: vec![Segment { start: 0, end: 100 }],
        modified_segments: vec![Segment { start: 0, end: 50 }],
        uri: "s3://x".to_owned(),
    });
    let plan = body.plan(&account(), None);
    let rec = plan.recording.unwrap();
    assert_eq!(rec.stream_id, 9);
    assert_eq!(rec.segments, vec![Segment { start: 0, end: 100 }]);
    assert_eq!(rec.modified_segments, vec![Segment { start: 0, end: 50 }]);
    assert_eq!(rec.uri, "s3://x");
    assert_eq!(rec.created_by.label, "portal");
    assert_eq!(rec.created_by.account.label, "user");
    assert_eq!(classroom_event_room(Some(7), 1), 7);
    assert_eq!(classroom_event_room(None, 1), 1);
}

#[test]
fn minigroup_creation_plan() {
    let plan = MinigroupCreatePayload {
        scope: "mg".to_owned(),
        audience: "usr.example.org".to_owned(),
        time: None,
        tags: Some("{}".to_owned()),
        properties: props(&[("a", "1")]),
        reserve: Some(10),
        locked_chat: true,
    }
    .plan();
    assert_eq!(plan.insert.kind, ClassType::Minigroup);
    assert_eq!(plan.insert.time, (Bound::Unbounded, Bound::Unbounded));
    assert_eq!(plan.insert.reserve, Some(10));
    assert!(plan.insert.preserve_history);
    assert_eq!(plan.original, OriginalClass::Itself);
    assert_eq!(plan.follow_up, FollowUp::LockChat);
    assert!(plan.shared_event_room.is_none());
}

#[test]
fn webinar_and_p2p_creation_plans() {
    let plan = WebinarCreatePayload {
        scope: "w".to_owned(),
        audience: "usr.example.org".to_owned(),
        time: Some((Bound::Included(at(1)), Bound::Excluded(at(2)))),
        tags: None,
        properties: KeyValueProperties::new(),
        reserve: None,
        locked_chat: false,
        locked_questions: true,
    }
    .plan();
    assert_eq!(plan.insert.kind, ClassType::Webinar);
    assert_eq!(plan.rooms_time, (Bound::Included(at(1)), Bound::Excluded(at(2))));
    assert_eq!(plan.original, OriginalClass::Unset);
    assert_eq!(
        plan.follow_up,
        FollowUp::Lock(LockedTypes {
            message: false,
            reaction: false,
            question: true,
            question_reaction: true
        })
    );

    let plan = P2PCreatePayload {
        scope: "p".to_owned(),
        audience: "usr.example.org".to_owned(),
        tags: None,
        properties: KeyValueProperties::new(),
        whiteboard: true,
    }
    .plan();
    assert_eq!(plan.insert.kind, ClassType::P2P);
    assert_eq!(plan.rooms_time, (Bound::Unbounded, Bound::Unbounded));
    assert_eq!(plan.follow_up, FollowUp::CreateWhiteboard);
}

#[test]
fn replica_copies_the_original() {
    let original = Class {
        id: 42,
        kind: ClassType::Webinar,
        scope: "orig".to_owned(),
        audience: "usr.example.org".to_owned(),
        time: (Bound::Included(at(3)), Bound::Unbounded),
        conference_room_id: 10,
        event_room_id: 20,
        original_event_room_id: None,
        modified_event_room_id: None,
        original_class_id: None,
        content_id: None,
        timed_out: false,
        room_events_uri: None,
        tags: Some("{\"t\":1}".to_owned()),
        reserve: Some(3),
        properties: props(&[("k", "v")]),
    };
    let plan = replica_plan("copy".to_owned(), &original);
    assert_eq!(plan.insert.scope, "copy");
    assert_eq!(plan.insert.audience, "usr.example.org");
    assert_eq!(plan.insert.time, (Bound::Included(at(3)), Bound::Unbounded));
    assert_eq!(plan.insert.tags.as_deref(), Some("{\"t\":1}"));
    assert_eq!(plan.insert.reserve, Some(3));
    assert_eq!(plan.insert.original_class_id, Some(42));
    assert_eq!(plan.insert.properties.entries, vec![("k".to_owned(), "v".to_owned())]);
    assert_eq!(plan.shared_event_room, Some(20));
    assert_eq!(plan.original, OriginalClass::Class(42));
}

#[test]
fn rooms_decide_the_fate_of_a_new_class() {
    match after_rooms(5, OriginalClass::Itself, FollowUp::LockChat, Ok((7, 8))) {
        RoomsOutcome::Establish {
            class_id,
            event_room_id,
            conference_room_id,
            original_class_id,
            follow_up,
        } => {
            assert_eq!(class_id, 5);
            assert_eq!(event_room_id, 7);
            assert_eq!(conference_room_id, 8);
            assert_eq!(original_class_id, Some(5));
            assert_eq!(follow_up, FollowUp::LockChat);
        }
        RoomsOutcome::Discard { .. } => panic!("expected rooms"),
    }
    match after_rooms(5, OriginalClass::Unset, FollowUp::Nothing, Ok((7, 8))) {
        RoomsOutcome::Establish { original_class_id, .. } => assert_eq!(original_class_id, None),
        RoomsOutcome::Discard { .. } => panic!("expected rooms"),
    }
    let failed = Err(AppError::new(ErrorKind::MqttRequestFailed, anyhow::Error::msg("timeout")));
    match after_rooms(5, OriginalClass::Class(1), FollowUp::Nothing, failed) {
        RoomsOutcome::Discard { class_id, error } => {
            assert_eq!(class_id, 5);
            assert_eq!(error.kind(), ErrorKind::MqttRequestFailed);
        }
        RoomsOutcome::Establish { .. } => panic!("expected a failure"),
    }
}

#[test]
fn redirects_to_the_frontend() {
    let r = redirect_location(
        Some("https://example.org/app/".to_owned()),
        None,
        "tenant",
        Some("a=1"),
        "https://disp/x",
    )
    .unwrap();
    assert_eq!(r, "https://example.org/app/?a=1&backurl=https%253A%252F%252Fdisp%252Fx");

    // A stored frontend that is no URL gives way to the default one.
    let r = redirect_location(
        Some("not a url".to_owned()),
        Some("https://default.example.org/".to_owned()),
        "tenant",
        None,
        "b",
    )
    .unwrap();
    assert_eq!(r, "https://default.example.org/?backurl=b");

    let e = redirect_location(None, None, "tenant", None, "b").unwrap_err();
    assert_eq!(e.kind(), ErrorKind::UnknownTenant);
    assert_eq!(e.source().to_string(), "tenant 'tenant' not found");
}

fn recording(rtc_id: u128, transcoded: bool) -> Recording {
    Recording {
        id: 1,
        rtc_id,
        stream_uri: Some("s3://stream".to_owned()),
        segments: Some(vec![Segment { start: 0, end: 100 }]),
        modified_segments: None,
        started_at: Some(at(1000)),
        created_by: AgentId { label: "web".to_owned(), account: account() },
        transcoded_at: if transcoded { Some(at(2000)) } else { None },
        adjusted_at: None,
    }
}

#[test]
fn minigroup_download_needs_every_recording_transcoded() {
    let url = minigroup_download_url(
        "https://storage.example.org/",
        "usr.example.org",
        "mg",
        &vec![recording(1, true), recording(2, true)],
    )
    .unwrap();
    assert_eq!(
        url,
        "https://storage.example.org/api/v2/backends/yandex/sets/ms.minigroup.usr.example.org::mg/objects/mp4"
    );
    let e = minigroup_download_url(
        "https://storage.example.org/",
        "usr.example.org",
        "mg",
        &vec![recording(1, true), recording(2, false)],
    )
    .unwrap_err();
    assert_eq!(e.kind(), ErrorKind::RecordingNotFound);
}

#[test]
fn webinar_download_of_the_first_recording() {
    let url = webinar_download_url("https://storage.example.org/base", "usr.example.org", &vec![recording(3, false)])
        .unwrap();
    assert_eq!(
        url,
        "https://storage.example.org/base/api/v2/backends/yandex/sets/ms.webinar.usr.example.org::00000000-0000-0000-0000-000000000003/objects/mp4"
    );
    let e = webinar_download_url("https://storage.example.org/", "usr.example.org", &vec![]).unwrap_err();
    assert_eq!(e.kind(), ErrorKind::RecordingNotFound);
    assert!(checked_webinar_download_url("mailto:x@example.org", "a", &vec![]).is_none());
    assert!(checked_webinar_download_url("https://s/", "a", &vec![recording(3, false)]).is_some());
}

#[test]
fn uploaded_webinar_stream_is_adjusted() {
    let a = webinar_adjust_request(20, &recording(3, false)).unwrap();
    assert_eq!(a.event_room_id, 20);
    assert_eq!(a.started_at, at(1000));
    assert_eq!(a.segments, vec![Segment { start: 0, end: 100 }]);
    assert_eq!(a.offset, WEBINAR_PREROLL_OFFSET);
    assert_eq!(WEBINAR_PREROLL_OFFSET, 4018);

    let mut r = recording(3, false);
    r.segments = None;
    assert_eq!(
        webinar_adjust_request(20, &r).err(),
        Some(PostprocessingError::MissingSegments)
    );
    r.started_at = None;
    assert_eq!(
        webinar_adjust_request(20, &r).err(),
        Some(PostprocessingError::MissingStartedAt)
    );
}

#[test]
fn preroll_offsets_by_audience() {
    let settings = vec![("a".to_owned(), 100), ("b".to_owned(), 200)];
    assert_eq!(preroll_offset(&settings, "b"), 200);
    assert_eq!(preroll_offset(&settings, "c"), 0);
    assert_eq!(preroll_offset(&vec![], "a"), 0);
}

fn user(label: &str) -> AgentId {
    AgentId {
        label: "web".to_owned(),
        account: AccountId { label: label.to_owned(), audience: "usr.example.org".to_owned() },
    }
}

#[test]
fn pin_segments_of_a_minigroup() {
    let events = vec![
        RoomEvent::Pin { occurred_at: 0, agent_id: Some(user("user1")) },
        RoomEvent::Other,
        RoomEvent::Pin { occurred_at: 1_000_000_000_000, agent_id: None },
    ];
    let segs1 = vec![Segment { start: 0, end: 1_500_000 }, Segment { start: 1_800_000, end: 3_000_000 }];
    let segs2 = vec![Segment { start: 0, end: 2_700_000 }];
    assert_eq!(
        pin_segments(&user("user1"), &segs1, &events, 0),
        vec![Segment { start: 0, end: 1_000_000 }]
    );
    assert_eq!(pin_segments(&user("user2"), &segs2, &events, 600_000), vec![]);

    // A stream still pinned at the end stays pinned to its end.
    let still = vec![RoomEvent::Pin { occurred_at: 2_000_000, agent_id: Some(user("user1")) }];
    assert_eq!(
        pin_segments(&user("user1"), &segs1, &still, 1),
        vec![Segment { start: 1, end: 3_000_000 }]
    );
    // Another agent's pin unpins the stream.
    let other = vec![
        RoomEvent::Pin { occurred_at: 5_000_000, agent_id: Some(user("user1")) },
        RoomEvent::Pin { occurred_at: 9_000_000, agent_id: Some(user("user2")) },
    ];
    assert_eq!(
        pin_segments(&user("user1"), &segs2, &other, 0),
        vec![Segment { start: 5, end: 9 }]
    );
}
