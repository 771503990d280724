use dispatcher::authz::{
    extract_audience_and_scope, extract_event_room_id, extract_rtc_id, granted_actions,
    make_finder, substitute_found_class, substitution_for, transform_authz_request,
    transform_conference_authz_request, transform_event_authz_request,
    transform_nats_gatekeeper_authz_request, transform_presence_authz_request,
    transform_storage_authz_request, validate_client, AccountId, AuthzReadQuery, AuthzRequest,
    Finder, FinderError, Object, Subject, SubjectValue, Substitution,
};
use dispatcher::error::ErrorKind;

fn request(value: &[&str], action: &str) -> AuthzRequest {
    AuthzRequest {
        subject: Subject {
            namespace: "foobar".to_owned(),
            value: SubjectValue::New("barbaz".to_owned()),
        },
        object: Object {
            namespace: "foobar".to_owned(),
            value: value.iter().map(|s| s.to_string()).collect(),
        },
        action: action.to_owned(),
    }
}

fn account(label: &str, audience: &str) -> AccountId {
    AccountId {
        label: label.to_owned(),
        audience: audience.to_owned(),
    }
}

#[test]
fn test_extract_audience_and_scope() {
    let r = extract_audience_and_scope("content.webinar.testing01.foxford.ru::p2p_48wmpa")
        .expect("Failed to extract audience and scope");
    assert_eq!(r.audience, "testing01.foxford.ru");
    assert_eq!(r.scope, "p2p_48wmpa");
}

#[test]
fn test_extract_rtc_id() {
    let r = extract_rtc_id("ms.webinar.testing01.foxford.ru::14aa9730-26e1-487c-9153-bc8cb28d8eb0")
        .expect("Failed to extract rtc_id");
    assert_eq!(r, "14aa9730-26e1-487c-9153-bc8cb28d8eb0");
}

#[test]
fn test_transform_event_authz_request() {
    // ["classrooms", CLASSROOM_ID, "agents"]::list
    // becomes ["classrooms", CLASSROOM_ID]::read
    let mut authz_req = request(&["classrooms", "uuid", "agents"], "list");
    transform_event_authz_request(&mut authz_req);

    assert_eq!(authz_req.action, "read");
    assert_eq!(authz_req.object.value, ["classrooms", "uuid"]);
}

#[test]
fn test_transform_event_authz_request_2() {
    let mut authz_req = request(
        &["classrooms", "uuid", "events", "draw_lock", "authors", "account_id"],
        "create",
    );
    transform_event_authz_request(&mut authz_req);

    assert_eq!(authz_req.action, "create");
    assert_eq!(
        authz_req.object.value,
        ["classrooms", "uuid", "events", "draw", "authors", "account_id"]
    );
}

#[test]
fn test_transform_event_authz_request_3() {
    let mut authz_req = request(
        &["classrooms", "uuid", "events", "document_page", "authors", "account_id"],
        "create",
    );
    transform_event_authz_request(&mut authz_req);

    assert_eq!(authz_req.action, "create");
    assert_eq!(
        authz_req.object.value,
        ["classrooms", "uuid", "events", "document", "authors", "account_id"]
    );
}

#[test]
fn test_transform_nats_gatekeeper_authz_request() {
    let mut authz_req = request(
        &["classrooms", "f793a4da-c726-4a55-b069-f5b19c13597d", "nats"],
        "connect",
    );
    transform_nats_gatekeeper_authz_request(&mut authz_req);

    assert_eq!(authz_req.action, "read");
    assert_eq!(
        authz_req.object.value,
        ["classrooms", "f793a4da-c726-4a55-b069-f5b19c13597d"]
    );
}

#[test]
fn event_rewrite_keeps_other_requests() {
    let mut authz_req = request(&["classrooms", "uuid", "agents"], "update");
    transform_event_authz_request(&mut authz_req);
    assert_eq!(authz_req.action, "update");
    assert_eq!(authz_req.object.value, ["classrooms", "uuid", "agents"]);

    let mut authz_req = request(&["classrooms", "uuid", "events"], "subscribe");
    transform_event_authz_request(&mut authz_req);
    assert_eq!(authz_req.action, "read");
    assert_eq!(authz_req.object.value, ["classrooms", "uuid"]);
}

#[test]
fn conference_rewrites() {
    let mut r = request(&["classrooms", "id", "rtcs"], "list");
    transform_conference_authz_request(&mut r);
    assert_eq!(r.action, "read");
    assert_eq!(r.object.value, ["classrooms", "id"]);

    let mut r = request(&["classrooms", "id", "rtcs", "rtc"], "read");
    transform_conference_authz_request(&mut r);
    assert_eq!(r.action, "read");
    assert_eq!(r.object.value, ["classrooms", "id"]);

    let mut r = request(&["rooms", "id", "rtcs"], "list");
    transform_conference_authz_request(&mut r);
    assert_eq!(r.action, "list");
    assert_eq!(r.object.value, ["rooms", "id", "rtcs"]);
}

#[test]
fn storage_rewrites() {
    let mut r = request(&["sets", "origin.webinar.example.org::abc"], "create");
    transform_storage_authz_request(&mut r);
    assert_eq!(r.action, "upload");

    let mut r = request(&["sets", "ms.webinar.example.org::abc"], "read");
    transform_storage_authz_request(&mut r);
    assert_eq!(r.action, "download");

    let mut r = request(&["sets", "hls.webinar.example.org::abc", "object"], "read");
    transform_storage_authz_request(&mut r);
    assert_eq!(r.action, "read");
    assert_eq!(r.object.value, ["sets", "hls.webinar.example.org::abc"]);

    let mut r = request(&["sets", "content.webinar.example.org::abc"], "delete");
    transform_storage_authz_request(&mut r);
    assert_eq!(r.action, "update");
    assert_eq!(
        r.object.value,
        ["sets", "content.webinar.example.org::abc", "content"]
    );

    let mut r = request(&["buckets", "origin.webinar.example.org"], "create");
    transform_storage_authz_request(&mut r);
    assert_eq!(r.action, "create");
}

#[test]
fn presence_and_dispatch() {
    let mut r = request(&["classrooms", "id"], "subscribe");
    transform_presence_authz_request(&mut r);
    assert_eq!(r.action, "read");

    let mut r = request(&["classrooms", "id", "nats"], "connect");
    transform_authz_request(&mut r, &account("nats-gatekeeper", "svc.example.org"));
    assert_eq!(r.action, "read");

    let mut r = request(&["classrooms", "id", "nats"], "connect");
    transform_authz_request(&mut r, &account("someone", "svc.example.org"));
    assert_eq!(r.action, "connect");
    assert_eq!(r.object.value, ["classrooms", "id", "nats"]);
}

#[test]
fn audience_of_short_buckets() {
    let r = extract_audience_and_scope("content.webinar::scope").expect("two components");
    assert_eq!(r.audience, "");
    assert_eq!(r.scope, "scope");
    assert!(extract_audience_and_scope("content::scope").is_none());
    assert!(extract_audience_and_scope("content.webinar.example.org").is_none());
    assert!(extract_rtc_id("no separator").is_none());
    assert_eq!(extract_event_room_id("eventsdump.x::a::b"), Some("a::b"));
}

#[test]
fn finders_by_label() {
    assert!(make_finder(&account("event", "a")).unwrap() == Finder::Event);
    assert!(make_finder(&account("storage", "a")).unwrap() == Finder::Storage);
    let e = make_finder(&account("other", "a")).err().expect("no finder");
    assert!(e.kind() == ErrorKind::Unauthorized);
}

#[test]
fn storage_lookups() {
    let id = "14aa9730-26e1-487c-9153-bc8cb28d8eb0";
    let n = u128::from_str_radix("14aa973026e1487c9153bc8cb28d8eb0", 16).unwrap();
    match Finder::Storage.lookup(&format!("ms.webinar.example.org::{}", id)) {
        Ok(AuthzReadQuery::ByRtcId(u)) => assert_eq!(u, n),
        _ => panic!("expected a lookup by rtc"),
    }
    match Finder::Storage.lookup("content.webinar.example.org::p2p_1") {
        Ok(AuthzReadQuery::ByScope { audience, scope }) => {
            assert_eq!(audience, "example.org");
            assert_eq!(scope, "p2p_1");
        }
        _ => panic!("expected a lookup by scope"),
    }
    match Finder::Storage.lookup(&format!("content.webinar.example.org::{}", id)) {
        Ok(AuthzReadQuery::ById(u)) => assert_eq!(u, n),
        _ => panic!("expected a lookup by id"),
    }
    match Finder::Storage.lookup("ms.minigroup.example.org::scope1") {
        Ok(AuthzReadQuery::ByScope { audience, scope }) => {
            assert_eq!(audience, "example.org");
            assert_eq!(scope, "scope1");
        }
        _ => panic!("expected a lookup by scope"),
    }
    match Finder::Storage.lookup(&format!("eventsdump.example.org::{}", id)) {
        Ok(AuthzReadQuery::ByEvent(u)) => assert_eq!(u, n),
        _ => panic!("expected a lookup by event room"),
    }
    assert!(matches!(
        Finder::Storage.lookup("ms.webinar.example.org::not-an-id"),
        Err(FinderError::InvalidId)
    ));
    assert!(matches!(
        Finder::Storage.lookup("other.webinar.example.org::x"),
        Err(FinderError::BucketNotProxied)
    ));
    assert!(matches!(
        Finder::Storage.lookup("content.webinar"),
        Err(FinderError::SetNotProxied)
    ));
    match Finder::Conference.lookup(id) {
        Ok(AuthzReadQuery::ByConference(u)) => assert_eq!(u, n),
        _ => panic!("expected a lookup by conference room"),
    }
    assert!(matches!(Finder::Event.lookup("x"), Err(FinderError::InvalidId)));
}

#[test]
fn clients_of_other_audiences_are_refused() {
    assert!(validate_client(&account("event", "svc.example.org"), "svc.example.org").is_ok());
    assert!(validate_client(&account("event", "svc.example.org:extra"), "svc.example.org").is_ok());
    let e = validate_client(&account("event", "other.org"), "svc.example.org")
        .err()
        .expect("refused");
    assert!(e.kind() == ErrorKind::Unauthorized);
}

#[test]
fn substitution_plans() {
    let r = request(&["sets", "content.webinar.example.org::p2p_1"], "read");
    match substitution_for(&r, Finder::Storage) {
        Substitution::Lookup(AuthzReadQuery::ByScope { scope, .. }) => assert_eq!(scope, "p2p_1"),
        _ => panic!("expected a lookup"),
    }
    let r = request(&["classrooms", "id"], "read");
    assert!(matches!(substitution_for(&r, Finder::Storage), Substitution::SetNamespace));
    let r = request(&["sets", "bogus"], "read");
    assert!(matches!(substitution_for(&r, Finder::Storage), Substitution::Nothing));
    let r = request(&["sets"], "read");
    assert!(matches!(substitution_for(&r, Finder::Storage), Substitution::Nothing));

    let mut r = request(&["sets", "content.webinar.example.org::p2p_1", "x"], "read");
    substitute_found_class(&mut r, "class-id".to_owned(), "dispatcher.svc".to_owned());
    assert_eq!(r.object.value, ["classrooms", "class-id", "x"]);
    assert_eq!(r.object.namespace, "dispatcher.svc");
}

#[test]
fn granted_only_when_allowed() {
    let allowed = vec!["read".to_owned(), "update".to_owned()];
    assert_eq!(granted_actions(&allowed, "update".to_owned()), vec!["update".to_owned()]);
    assert!(granted_actions(&allowed, "delete".to_owned()).is_empty());
}

#[test]
fn subject_names_an_account() {
    let s = Subject {
        namespace: "usr.example.org".to_owned(),
        value: SubjectValue::New("user1".to_owned()),
    };
    let a = s.into_account_id();
    assert_eq!(a.label, "user1");
    assert_eq!(a.audience, "usr.example.org");
}
