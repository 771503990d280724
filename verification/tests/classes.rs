use dispatcher::authz::AccountId;
use dispatcher::classes::{Class, ClassResponseBody, ClassStatus, TurnHost};
use dispatcher::error::ErrorKind;
use dispatcher::http::{
    insert_header, CorsMiddlewareLayer, Json, JsonRejection, LogLevel, LogMiddleware,
};
use dispatcher::postprocessing::{AgentId, ClassType, Recording};
use dispatcher::properties::KeyValueProperties;
use dispatcher::requests::{
    default_locked_chat, default_locked_questions, ClassRecreatePayload, LockedTypes, Priority,
    PropertyFilters, RedirQuery, ReplicaCreatePayload, RestartTranscodingPayload,
};
use dispatcher::rooms::{
    classroom_id_updates, conference_time, get_conference_update, get_event_update,
    new_room_times, ClassUpdate, ConfRoomUpdate, EventRoomUpdate,
};
use dispatcher::time::{Bound, Moment};
use dispatcher::turn_host::TurnHostSelector;

fn at(secs: i64) -> Moment {
    Moment { secs, nanos: 0 }
}

fn props(entries: &[(&str, &str)]) -> KeyValueProperties {
    KeyValueProperties {
        entries: entries
            .iter()
            .map(|(k, v)| (k.to_string(), v.to_string()))
            .collect(),
    }
}

fn agent(label: &str) -> AgentId {
    AgentId {
        label: label.to_owned(),
        account: AccountId {
            label: "user".to_owned(),
            audience: "usr.example.org".to_owned(),
        },
    }
}

fn class(kind: ClassType, scope: &str) -> Class {
    Class {
        id: 1,
        kind,
        scope: scope.to_owned(),
        audience: "usr.example.org".to_owned(),
        time: (Bound::Included(at(100)), Bound::Excluded(at(200))),
        conference_room_id: 10,
        event_room_id: 20,
        original_event_room_id: None,
        modified_event_room_id: None,
        original_class_id: None,
        content_id: None,
        timed_out: false,
        room_events_uri: None,
        tags: None,
        reserve: None,
        properties: props(&[("is_adult", "true"), ("color", "\"red\"")]),
    }
}

fn recording(transcoded: bool, adjusted: bool) -> Recording {
    Recording {
        id: 5,
        rtc_id: 77,
        stream_uri: Some("s3://bucket/stream".to_owned()),
        segments: None,
        modified_segments: None,
        started_at: Some(at(100)),
        created_by: agent("web"),
        transcoded_at: if transcoded { Some(at(300)) } else { None },
        adjusted_at: if adjusted { Some(at(250)) } else { None },
    }
}

fn has(p: &KeyValueProperties, k: &str, v: &str) -> bool {
    p.entries.iter().any(|(a, b)| a == k && b == v)
}

#[test]
fn restricting_properties_keeps_named_keys() {
    let p = props(&[("a", "1"), ("b", "2"), ("c", "3")]);
    let r = p.restricted_to(&vec!["c".to_owned(), "a".to_owned(), "z".to_owned()]);
    assert_eq!(r.entries.len(), 2);
    assert!(has(&r, "a", "1"));
    assert!(has(&r, "c", "3"));
    assert!(!has(&r, "b", "2"));
    assert_eq!(KeyValueProperties::new().entries.len(), 0);
}

#[test]
fn p2p_peers_get_the_same_turn_host() {
    let hosts = vec![
        TurnHost("turn1.example.org".to_owned()),
        TurnHost("turn2.example.org".to_owned()),
        TurnHost("turn3.example.org".to_owned()),
    ];
    let hosts = vec1::Vec1::try_from_vec(hosts).unwrap();
    let s1 = TurnHostSelector::new(&hosts);
    let s2 = TurnHostSelector::new(&hosts);
    let c = class(ClassType::P2P, "p2p_scope");
    let h1 = s1.get(&c).0;
    let h2 = s2.get(&c).0;
    assert_eq!(h1, h2);
    assert_eq!(s1.get(&c).0, h1);
    assert!(h1.starts_with("turn"));
    let w = s1.get(&class(ClassType::Webinar, "web")).0;
    assert!(hosts.iter().any(|h| h.0 == w));
}

#[test]
fn response_body_of_a_class() {
    let mut c = class(ClassType::Webinar, "web_scope");
    c.original_class_id = Some(3);
    let body = ClassResponseBody::new(&c, TurnHost("turn".to_owned()));
    assert_eq!(body.class_id, 3);
    assert_eq!(body.id, "web_scope");
    assert_eq!(body.content_id, "00000000-0000-0000-0000-000000000003");
    assert_eq!(body.real_time.conference_room_id, 10);
    assert_eq!(body.real_time.event_room_id, 20);
    assert!(body.status.is_none());
    assert!(has(&body.properties, "is_adult", "true"));

    c.content_id = Some("content".to_owned());
    let body = ClassResponseBody::new(&c, TurnHost("turn".to_owned()));
    assert_eq!(body.content_id, "content");
}

#[test]
fn class_status_follows_its_recording() {
    let mut c = class(ClassType::Webinar, "s");
    c.original_event_room_id = Some(30);
    c.modified_event_room_id = Some(40);
    c.tags = Some("{\"a\":1}".to_owned());
    c.room_events_uri = Some("uri".to_owned());

    let base = || ClassResponseBody::new(&c, TurnHost("t".to_owned()));

    let mut b = base();
    let rec = recording(true, true);
    b.record_state(&c, Some(&rec), Some(42), at(150));
    assert_eq!(b.status, Some(ClassStatus::Transcoded));
    assert_eq!(b.on_demand.len(), 2);
    assert_eq!(b.on_demand[0].version, "original");
    assert_eq!(b.on_demand[0].event_room_id, 30);
    assert_eq!(b.on_demand[0].stream_id, 77);
    assert!(b.on_demand[0].room_events_uri.is_none());
    assert_eq!(b.on_demand[1].version, "modified");
    assert_eq!(b.on_demand[1].event_room_id, 40);
    assert_eq!(b.on_demand[1].room_events_uri.as_deref(), Some("uri"));
    assert_eq!(b.real_time.rtc_id, Some(77));
    assert_eq!(b.position, Some(42));

    let mut b = base();
    b.record_state(&c, Some(&recording(false, true)), Some(42), at(150));
    assert_eq!(b.status, Some(ClassStatus::Adjusted));
    assert_eq!(b.on_demand.len(), 1);
    assert_eq!(b.position, None);

    let mut b = base();
    b.record_state(&c, Some(&recording(false, false)), None, at(150));
    assert_eq!(b.status, Some(ClassStatus::Finished));

    let mut b = base();
    b.record_state(&c, None, None, at(150));
    assert_eq!(b.status, Some(ClassStatus::RealTime));
    assert!(b.real_time.rtc_id.is_none());

    let mut b = base();
    b.record_state(&c, None, None, at(250));
    assert_eq!(b.status, Some(ClassStatus::Closed));

    // The end itself is not yet past.
    let mut b = base();
    b.record_state(&c, None, None, at(200));
    assert_eq!(b.status, Some(ClassStatus::RealTime));
}

#[test]
fn property_filters_pick_what_is_shown() {
    let c = class(ClassType::Webinar, "s");
    let mut b = ClassResponseBody::new(&c, TurnHost("t".to_owned()));
    let filters = PropertyFilters {
        class_keys: Some(vec!["is_adult".to_owned()]),
        account_keys: Some(vec!["onboarding".to_owned()]),
    };
    filters.apply(&mut b, Some(props(&[("onboarding", "true"), ("other", "1")])));
    assert_eq!(b.properties.entries.len(), 1);
    assert!(has(&b.properties, "is_adult", "true"));
    assert_eq!(b.account_properties.entries.len(), 1);
    assert!(has(&b.account_properties, "onboarding", "true"));

    let mut b = ClassResponseBody::new(&c, TurnHost("t".to_owned()));
    PropertyFilters::default().apply(&mut b, None);
    assert_eq!(b.properties.entries.len(), 0);
    assert_eq!(b.account_properties.entries.len(), 0);
}

#[test]
fn recreate_payload_defaults_and_plan() {
    assert!(default_locked_chat());
    assert!(!default_locked_questions());
    let p = ClassRecreatePayload::with_defaults();
    let plan = p.plan();
    assert_eq!(plan.time, (Bound::Unbounded, Bound::Unbounded));
    assert_eq!(
        plan.lock,
        Some(LockedTypes { message: true, reaction: true, question: false, question_reaction: false })
    );

    let p = ClassRecreatePayload {
        time: Some((Bound::Included(at(1)), Bound::Excluded(at(2)))),
        locked_chat: false,
        locked_questions: false,
    };
    let plan = p.plan();
    assert_eq!(plan.time, (Bound::Included(at(1)), Bound::Excluded(at(2))));
    assert_eq!(plan.lock, None);
    assert!(!p.locked_types().any_locked());

    let p = ClassRecreatePayload { time: None, locked_chat: false, locked_questions: true };
    assert_eq!(
        p.locked_types(),
        LockedTypes { message: false, reaction: false, question: true, question_reaction: true }
    );
}

#[test]
fn other_payloads() {
    assert_eq!(RestartTranscodingPayload::default().priority, Priority::Normal);
    assert_eq!(RestartTranscodingPayload::priority_of(None), Priority::Normal);
    assert_eq!(
        RestartTranscodingPayload::priority_of(Some(RestartTranscodingPayload {
            priority: Priority::High
        })),
        Priority::High
    );
    let q = RedirQuery { scope: "s".to_owned() };
    assert_eq!(q.scope, "s");
    let r = ReplicaCreatePayload { scope: "s".to_owned(), audience: "a".to_owned() };
    assert_eq!(r.audience, "a");
}

#[test]
fn room_updates_of_a_class_change() {
    let upd = ClassUpdate {
        time: Some((Bound::Excluded(at(10)), Bound::Excluded(at(20)))),
        reserve: Some(5),
        host: Some(agent("host")),
    };
    let (id, conf) = get_conference_update(10, &upd).unwrap();
    assert_eq!(id, 10);
    assert_eq!(conf.time, Some((Bound::Included(at(10)), Bound::Excluded(at(20)))));
    assert_eq!(conf.reserve, Some(5));
    assert!(conf.classroom_id.is_none());
    assert_eq!(conf.host.unwrap().label, "host");
    let (id, ev) = get_event_update(20, &upd, at(5)).unwrap();
    assert_eq!(id, 20);
    assert_eq!(ev.time, Some((Bound::Included(at(5)), Bound::Unbounded)));

    let only_reserve = ClassUpdate { time: None, reserve: Some(1), host: None };
    assert!(get_conference_update(10, &only_reserve).is_some());
    assert!(get_event_update(20, &only_reserve, at(5)).is_none());

    let nothing = ClassUpdate { time: None, reserve: None, host: None };
    assert!(get_conference_update(10, &nothing).is_none());
    assert!(get_event_update(20, &nothing, at(5)).is_none());

    let unbounded = ClassUpdate {
        time: Some((Bound::Unbounded, Bound::Excluded(at(20)))),
        reserve: None,
        host: None,
    };
    let (_, conf) = get_conference_update(10, &unbounded).unwrap();
    assert_eq!(conf.time, Some((Bound::Unbounded, Bound::Unbounded)));
    assert_eq!(
        conference_time(&(Bound::Included(at(3)), Bound::Unbounded)),
        (Bound::Included(at(3)), Bound::Unbounded)
    );
}

#[test]
fn rooms_of_a_new_class() {
    let (ev, conf) = new_room_times(&(Bound::Excluded(at(50)), Bound::Excluded(at(60))), at(7));
    assert_eq!(ev, (Bound::Included(at(7)), Bound::Unbounded));
    assert_eq!(conf, (Bound::Included(at(50)), Bound::Unbounded));
    let (_, conf) = new_room_times(&(Bound::Unbounded, Bound::Unbounded), at(7));
    assert_eq!(conf, (Bound::Included(at(7)), Bound::Unbounded));

    let (ev, conf): (EventRoomUpdate, ConfRoomUpdate) = classroom_id_updates(99);
    assert_eq!(ev.classroom_id, Some(99));
    assert!(ev.time.is_none());
    assert_eq!(conf.classroom_id, Some(99));
    assert!(conf.reserve.is_none() && conf.host.is_none() && conf.time.is_none());
    assert!(!ev.is_empty_update());
    assert!(EventRoomUpdate { time: None, classroom_id: None }.is_empty_update());
}

#[test]
fn json_rejections() {
    assert_eq!(
        Json::<u8>::rejection_kind(JsonRejection::JsonSyntaxError),
        ErrorKind::InvalidPayload
    );
    assert_eq!(
        Json::<u8>::rejection_kind(JsonRejection::MissingJsonContentType),
        ErrorKind::InvalidPayload
    );
    assert_eq!(
        Json::<u8>::rejection_kind(JsonRejection::BytesRejection),
        ErrorKind::InternalFailure
    );
    let Json(v) = Json(5u8);
    assert_eq!(v, 5);
}

#[test]
fn cors_headers_are_set_once() {
    let mut headers = vec![
        ("content-type".to_owned(), "application/json".to_owned()),
        ("access-control-allow-origin".to_owned(), "example.org".to_owned()),
    ];
    let cors = CorsMiddlewareLayer.layer(());
    cors.decorate(&mut headers);
    assert_eq!(
        headers,
        vec![
            ("content-type".to_owned(), "application/json".to_owned()),
            ("access-control-allow-methods".to_owned(), "GET, OPTIONS, PUT".to_owned()),
            ("access-control-allow-origin".to_owned(), "*".to_owned()),
            ("access-control-allow-headers".to_owned(), "*".to_owned()),
        ]
    );
    let once = headers.clone();
    cors.decorate(&mut headers);
    assert_eq!(headers, once);
    let mut h = vec![("a".to_owned(), "1".to_owned()), ("a".to_owned(), "2".to_owned())];
    insert_header(&mut h, "a", "3");
    assert_eq!(h, vec![("a".to_owned(), "3".to_owned())]);
}

#[test]
fn request_log_levels() {
    let m = LogMiddleware::new();
    assert_eq!(m.level(200), LogLevel::Info);
    assert_eq!(m.level(307), LogLevel::Info);
    assert_eq!(m.level(404), LogLevel::Warn);
    assert_eq!(m.level(500), LogLevel::Error);
    assert_eq!(m.level(599), LogLevel::Error);
    assert!(!m.logs_body("GET"));
    assert!(m.logs_body("POST"));
}
