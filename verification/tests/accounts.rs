use dispatcher::accounts::{
    merge_properties, property_update, read_class_property, read_property, store_property,
    update_class_property,
};
use dispatcher::authz::classroom_object;
use dispatcher::classes::Class;
use dispatcher::postprocessing::ClassType;
use dispatcher::time::Bound;
use dispatcher::error::ErrorKind;
use dispatcher::properties::KeyValueProperties;

fn props(entries: &[(&str, &str)]) -> KeyValueProperties {
    KeyValueProperties {
        entries: entries
            .iter()
            .map(|(k, v)| (k.to_string(), v.to_string()))
            .collect(),
    }
}

#[test]
fn update_property() {
    let props = store_property(None, "test1".to_owned(), "\"test2\"".to_owned());
    assert!(props.entries.iter().any(|(k, _)| k == "test1"));
}

#[test]
fn read_property_after_update() {
    let props = store_property(None, "test1".to_owned(), "\"test2\"".to_owned());
    assert_eq!(read_property(Some(&props), "test1").unwrap(), "\"test2\"");
}

#[test]
fn merge_properties_keeps_both() {
    let first = store_property(None, "test1".to_owned(), "\"test2\"".to_owned());
    let second = store_property(Some(first), "test3".to_owned(), "\"test4\"".to_owned());
    assert_eq!(read_property(Some(&second), "test1").unwrap(), "\"test2\"");
    assert_eq!(read_property(Some(&second), "test3").unwrap(), "\"test4\"");
}

#[test]
fn overwrite_property() {
    let first = store_property(None, "test1".to_owned(), "\"test2\"".to_owned());
    assert_eq!(read_property(Some(&first), "test1").unwrap(), "\"test2\"");
    let second = store_property(Some(first), "test1".to_owned(), "\"test4\"".to_owned());
    assert_eq!(read_property(Some(&second), "test1").unwrap(), "\"test4\"");
    assert_eq!(second.entries.len(), 1);
}

#[test]
fn overwrite_property_complex() {
    let first = store_property(
        None,
        "test1".to_owned(),
        "{\"test\":\"tset\",\"first\":\"second\"}".to_owned(),
    );
    let second = store_property(Some(first), "test2".to_owned(), "\"simple\"".to_owned());
    assert_eq!(
        read_property(Some(&second), "test1").unwrap(),
        "{\"test\":\"tset\",\"first\":\"second\"}"
    );
    let third = store_property(Some(second), "test1".to_owned(), "{\"tata\":\"tata\"}".to_owned());
    assert_eq!(read_property(Some(&third), "test1").unwrap(), "{\"tata\":\"tata\"}");
    assert_eq!(read_property(Some(&third), "test2").unwrap(), "\"simple\"");
}

#[test]
fn missing_accounts_and_properties() {
    let e = read_property(None, "test1").unwrap_err();
    assert_eq!(e.kind(), ErrorKind::AccountNotFound);
    let p = props(&[("a", "1")]);
    let e = read_property(Some(&p), "b").unwrap_err();
    assert_eq!(e.kind(), ErrorKind::AccountPropertyNotFound);
}

#[test]
fn merging_updates_into_stored_properties() {
    let stored = props(&[("a", "1"), ("b", "2")]);
    let update = props(&[("b", "3"), ("c", "4")]);
    let merged = merge_properties(stored, &update);
    assert_eq!(merged.get("a"), Some("1".to_owned()));
    assert_eq!(merged.get("b"), Some("3".to_owned()));
    assert_eq!(merged.get("c"), Some("4".to_owned()));
    assert_eq!(merged.get("d"), None);
    let one = property_update("k".to_owned(), "v".to_owned());
    assert_eq!(one.entries, vec![("k".to_owned(), "v".to_owned())]);

    let mut p = KeyValueProperties::new();
    p.insert("x".to_owned(), "1".to_owned());
    p.insert("y".to_owned(), "2".to_owned());
    p.insert("x".to_owned(), "3".to_owned());
    assert_eq!(p.get("x"), Some("3".to_owned()));
    assert_eq!(p.entries.len(), 2);
}

fn class_with(p: KeyValueProperties) -> Class {
    Class {
        id: 1,
        kind: ClassType::Webinar,
        scope: "s".to_owned(),
        audience: "a".to_owned(),
        time: (Bound::Unbounded, Bound::Unbounded),
        conference_room_id: 2,
        event_room_id: 3,
        original_event_room_id: None,
        modified_event_room_id: None,
        original_class_id: None,
        content_id: None,
        timed_out: false,
        room_events_uri: None,
        tags: None,
        reserve: None,
        properties: p,
    }
}

#[test]
fn class_properties_read_and_update() {
    let c = class_with(props(&[("is_adult", "true")]));
    assert_eq!(read_class_property(&c, "is_adult").unwrap(), "true");
    assert_eq!(
        read_class_property(&c, "missing").unwrap_err().kind(),
        ErrorKind::ClassPropertyNotFound
    );
    let updated = update_class_property(&c, "color".to_owned(), "\"red\"".to_owned());
    assert_eq!(updated.get("color"), Some("\"red\"".to_owned()));
    assert_eq!(updated.get("is_adult"), Some("true".to_owned()));
    let updated = update_class_property(&c, "is_adult".to_owned(), "false".to_owned());
    assert_eq!(updated.get("is_adult"), Some("false".to_owned()));
    assert_eq!(updated.entries.len(), 1);
}

#[test]
fn classroom_objects() {
    assert_eq!(
        classroom_object(5),
        vec!["classrooms".to_owned(), "00000000-0000-0000-0000-000000000005".to_owned()]
    );
}

#[test]
fn latest_store_wins_across_stores() {
    let a = store_property(None, "p".to_owned(), "1".to_owned());
    let b = store_property(Some(a), "q".to_owned(), "2".to_owned());
    let c = store_property(Some(b), "r".to_owned(), "3".to_owned());
    assert_eq!(read_property(Some(&c), "p").unwrap(), "1");
    let d = store_property(Some(c), "p".to_owned(), "4".to_owned());
    assert_eq!(read_property(Some(&d), "p").unwrap(), "4");
    assert_eq!(read_property(Some(&d), "q").unwrap(), "2");
    assert_eq!(read_property(Some(&d), "r").unwrap(), "3");
}
