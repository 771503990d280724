use dispatcher::clients::{created_room_id, room_adjust_outcome, room_update_outcome, ClientError};
use dispatcher::ban::{
    ban_event_id, check_ban_request, completion_outcome, intent_outcome, last_ban_operation,
    BanAccountOp, BanRequestError, BanStage, CompletionOutcome, IntentOutcome,
};
use dispatcher::error::{AppError, ErrorKind};
use dispatcher::events::{
    adjust_lookup, audience_events_path, audience_subscriptions, class_stop, close_label, close_lookup, closed_room,
    notification_action, route_event, task_step, topic_audience, ClassLookup, ClosedRoom,
    ConvertMjrDumpsToStreamSuccess, EditionCommitResult, EventHandler, Notification,
    NotificationAction, RoomAdjustResult, TaskCompleteResult, TaskCompleteSuccess, TaskStep,
};
use dispatcher::postprocessing::{TranscodeMinigroupToHlsSuccess, TranscodeSuccess};
use dispatcher::segments::Segment;
use dispatcher::metrics::{
    AuthMetrics, AuthorizeMetrics, AuthzElapsed, MqttCounter, MqttMethod, MqttMetrics,
    MqttStatus,
};
use dispatcher::postprocessing::ClassType;

#[test]
fn topic_audience_is_read_from_the_topic() {
    assert_eq!(
        topic_audience("apps/event.svc.example.org/api/v1/audiences/usr.example.org/events"),
        "usr.example.org"
    );
    assert_eq!(topic_audience("audiences/a/events"), "audiences/a");
    assert_eq!(topic_audience("x/audiences/a/events"), "a");
    assert_eq!(topic_audience("x/audiences/a/audiences/b/events/c"), "b");
    assert_eq!(topic_audience("no audience here"), "no audience here");
}

#[test]
fn events_are_routed_by_label() {
    assert_eq!(
        route_event(Some("room.close")),
        Some((EventHandler::Close, ErrorKind::ClassClosingFailed))
    );
    assert_eq!(
        route_event(Some("room.upload")),
        Some((EventHandler::StreamUpload, ErrorKind::TranscodingFlowFailed))
    );
    assert_eq!(
        route_event(Some("edition.commit")),
        Some((EventHandler::EditionCommit, ErrorKind::EditionFailed))
    );
    assert_eq!(route_event(Some("room.enter")), None);
    assert_eq!(route_event(None), None);
}

#[test]
fn closing_events_name_their_room() {
    let parts = |a: &str, b: &str| vec![a.to_owned(), b.to_owned()];
    assert_eq!(
        closed_room(&parts("apps", "event.svc.example.org")),
        Some(ClosedRoom::EventRoom)
    );
    assert_eq!(
        closed_room(&parts("apps", "conference.svc.example.org")),
        Some(ClosedRoom::ConferenceRoom)
    );
    assert_eq!(closed_room(&parts("apps", "storage.svc.example.org")), None);
    assert_eq!(closed_room(&vec!["apps".to_owned()]), None);
}

#[test]
fn close_labels_and_paths() {
    assert_eq!(close_label(ClassType::P2P), "p2p.close");
    assert_eq!(close_label(ClassType::Minigroup), "minigroup.close");
    assert_eq!(close_label(ClassType::Webinar), "webinar.close");
    assert_eq!(audience_events_path("usr.example.org"), "audiences/usr.example.org/events");
}

#[test]
fn notifications_lead_to_actions() {
    assert_eq!(notification_action(Notification::Event), NotificationAction::HandleEvent);
    assert_eq!(notification_action(Notification::Response), NotificationAction::HandleResponse);
    assert_eq!(notification_action(Notification::Reconnection), NotificationAction::Resubscribe);
    assert_eq!(
        notification_action(Notification::Disconnect),
        NotificationAction::CountDisconnect
    );
    assert_eq!(
        notification_action(Notification::ConnectionError),
        NotificationAction::CountConnectionError
    );
    assert_eq!(notification_action(Notification::Protocol), NotificationAction::Ignore);
}

#[test]
fn broker_counters() {
    assert_eq!(MqttMetrics::observe_disconnect(), MqttCounter::Disconnect);
    assert_eq!(MqttMetrics::observe_reconnect(), MqttCounter::Reconnect);
    assert_eq!(MqttMetrics::observe_connection_error(), MqttCounter::ConnectionError);

    let ok: Result<(), AppError> = Ok(());
    assert_eq!(
        MqttMetrics::observe_event_result(&ok, Some("room.adjust")),
        Some(MqttCounter::Stats(MqttMethod::RoomAdjust, MqttStatus::Success))
    );
    let failed: Result<(), AppError> = Err(AppError::new(
        ErrorKind::TranscodingFlowFailed,
        anyhow::Error::msg("failed"),
    ));
    assert_eq!(
        MqttMetrics::observe_event_result(&failed, Some("task.complete")),
        Some(MqttCounter::Stats(MqttMethod::TaskComplete, MqttStatus::Failure))
    );
    assert_eq!(MqttMetrics::observe_event_result(&ok, Some("room.enter")), None);
    assert_eq!(MqttMetrics::observe_event_result(&ok, None), None);
}

#[test]
fn every_routed_event_is_counted() {
    for label in [
        "room.close",
        "room.upload",
        "room.adjust",
        "task.complete",
        "room.dump_events",
        "edition.commit",
        "room.enter",
        "",
    ] {
        let ok: Result<(), AppError> = Ok(());
        assert_eq!(
            route_event(Some(label)).is_some(),
            MqttMetrics::observe_event_result(&ok, Some(label)).is_some()
        );
    }
}

#[test]
fn authorization_time_is_recorded_for_successes() {
    let ok: Result<AuthzElapsed, String> = Ok(AuthzElapsed { secs: 1, nanos: 500 });
    assert_eq!(AuthMetrics::observation(&ok), Some((1, 500)));
    let (back, observed) = ok.measure();
    assert_eq!(back, Ok(AuthzElapsed { secs: 1, nanos: 500 }));
    assert_eq!(observed, Some((1, 500)));

    let backwards: Result<AuthzElapsed, String> = Ok(AuthzElapsed { secs: -1, nanos: 0 });
    assert_eq!(backwards.measure().1, None);

    let failed: Result<AuthzElapsed, String> = Err("denied".to_owned());
    let (back, observed) = failed.measure();
    assert_eq!(back, Err("denied".to_owned()));
    assert_eq!(observed, None);
}

#[test]
fn ban_requests_are_checked() {
    assert_eq!(check_ban_request(None, 0), Ok(()));
    let done = BanAccountOp { last_op_id: 5, completed: true };
    let running = BanAccountOp { last_op_id: 5, completed: false };
    assert_eq!(check_ban_request(Some(done), 5), Ok(()));
    assert_eq!(
        check_ban_request(Some(done), 4),
        Err(BanRequestError::OperationIdObsolete)
    );
    assert_eq!(
        check_ban_request(Some(running), 5),
        Err(BanRequestError::OperationInProgress)
    );
    assert_eq!(
        check_ban_request(Some(running), 3),
        Err(BanRequestError::OperationIdObsolete)
    );
    assert_eq!(last_ban_operation(None).last_seen_op_id, 0);
    assert_eq!(last_ban_operation(Some(done)).last_seen_op_id, 5);
}

#[test]
fn ban_stages() {
    let id = ban_event_id(BanStage::Accepted, 12);
    assert_eq!(id.entity_type, "ban");
    assert_eq!(id.operation, "accepted");
    assert_eq!(id.sequence_id, 12);
    assert_eq!(ban_event_id(BanStage::Intent, 1).operation, "intent");
    assert_eq!(ban_event_id(BanStage::Rejected, 1).operation, "rejected");
    assert_eq!(ban_event_id(BanStage::Completed, 1).operation, "completed");

    assert_eq!(
        intent_outcome(Some(BanAccountOp { last_op_id: 8, completed: false }), true),
        IntentOutcome::Accept { ban: true, last_op_id: 8 }
    );
    assert_eq!(intent_outcome(None, false), IntentOutcome::Reject);

    assert_eq!(completion_outcome(None), CompletionOutcome::OperationFailed);
    assert_eq!(
        completion_outcome(Some(BanAccountOp { last_op_id: 8, completed: false })),
        CompletionOutcome::Wait
    );
    assert_eq!(
        completion_outcome(Some(BanAccountOp { last_op_id: 8, completed: true })),
        CompletionOutcome::Finish
    );
}

#[test]
fn classes_of_incoming_events_are_looked_up() {
    let parts = vec!["apps".to_owned(), "conference.svc.example.org".to_owned()];
    assert!(matches!(close_lookup(&parts, 4), Some(ClassLookup::ByConferenceRoom(4))));
    let parts = vec!["apps".to_owned(), "event.svc.example.org".to_owned()];
    assert!(matches!(close_lookup(&parts, 4), Some(ClassLookup::ByEventRoom(4))));
    let parts = vec!["apps".to_owned(), "tq.svc.example.org".to_owned()];
    assert!(close_lookup(&parts, 4).is_none());

    assert!(matches!(
        adjust_lookup(Some(9), "a".to_owned(), Some("s".to_owned())),
        Some(ClassLookup::ByEventRoom(9))
    ));
    match adjust_lookup(None, "aud".to_owned(), Some("scope".to_owned())) {
        Some(ClassLookup::ByScope { audience, scope }) => {
            assert_eq!(audience, "aud");
            assert_eq!(scope, "scope");
        }
        _ => panic!("expected a lookup by scope"),
    }
    assert!(adjust_lookup(None, "aud".to_owned(), None).is_none());
}

#[test]
fn committed_editions_are_adjustments() {
    let commit = EditionCommitResult::Success {
        source_room_id: 1,
        committed_room_id: 2,
        modified_segments: vec![Segment { start: 0, end: 10 }],
    };
    assert!(matches!(commit.lookup(), Some(ClassLookup::ByOriginalEventRoom(1))));
    match commit.into_adjust_result() {
        RoomAdjustResult::Success { original_room_id, modified_room_id, modified_segments } => {
            assert_eq!(original_room_id, 1);
            assert_eq!(modified_room_id, 2);
            assert_eq!(modified_segments, vec![Segment { start: 0, end: 10 }]);
        }
        RoomAdjustResult::Error { .. } => panic!("expected success"),
    }
    let failed = EditionCommitResult::Error { error: "{}".to_owned() };
    assert!(failed.lookup().is_none());
    assert!(matches!(failed.into_adjust_result(), RoomAdjustResult::Error { .. }));
}

#[test]
fn completed_tasks_lead_to_steps() {
    let done = TaskCompleteResult::Success(TaskCompleteSuccess::TranscodeMinigroupToHls(
        TranscodeMinigroupToHlsSuccess { recording_duration: "12.3".to_owned() },
    ));
    assert!(matches!(
        task_step(done),
        TaskStep::Transcoded(TranscodeSuccess::TranscodeMinigroupToHls(_))
    ));
    let converted = TaskCompleteResult::Success(TaskCompleteSuccess::ConvertMjrDumpsToStream(
        ConvertMjrDumpsToStreamSuccess {
            stream_id: 3,
            stream_uri: "s3://x".to_owned(),
            segments: "1,2".to_owned(),
        },
    ));
    match task_step(converted) {
        TaskStep::StreamUploaded(s) => assert_eq!(s.stream_id, 3),
        _ => panic!("expected an upload"),
    }
    match task_step(TaskCompleteResult::Failure { error: "bad".to_owned() }) {
        TaskStep::Failed { error } => assert_eq!(error, "bad"),
        _ => panic!("expected a failure"),
    }
}

#[test]
fn class_stop_announcement() {
    let (label, path, payload) = class_stop(
        ClassType::Minigroup,
        7,
        "scope",
        "usr.example.org",
        &Some("{}".to_owned()),
    );
    assert_eq!(label, "minigroup.close");
    assert_eq!(path, "audiences/usr.example.org/events");
    assert_eq!(payload.id, 7);
    assert_eq!(payload.scope, "scope");
    assert_eq!(payload.tags.as_deref(), Some("{}"));
}

#[test]
fn broadcasts_followed_for_each_tenant() {
    let services = vec![
        ("conference.svc.example.org".to_owned(), "v1".to_owned()),
        ("event.svc.example.org".to_owned(), "v1".to_owned()),
        ("tq.svc.example.org".to_owned(), "v2".to_owned()),
    ];
    let tenants = vec!["a.example.org".to_owned(), "b.example.org".to_owned()];
    let subs = audience_subscriptions(&services, &tenants);
    assert_eq!(subs.len(), 6);
    assert_eq!(subs[0].account_id, "conference.svc.example.org");
    assert_eq!(subs[0].path, "audiences/a.example.org/events");
    assert_eq!(subs[2].account_id, "tq.svc.example.org");
    assert_eq!(subs[2].api_version, "v2");
    assert_eq!(subs[4].account_id, "event.svc.example.org");
    assert_eq!(subs[4].path, "audiences/b.example.org/events");
    assert!(audience_subscriptions(&services, &vec![]).is_empty());
}

#[test]
fn answers_of_other_services() {
    assert_eq!(
        created_room_id(Some("14aa9730-26e1-487c-9153-bc8cb28d8eb0")).ok(),
        Some(0x14aa973026e1487c9153bc8cb28d8eb0)
    );
    assert!(matches!(created_room_id(None), Err(ClientError::PayloadError(_))));
    assert!(matches!(created_room_id(Some("nope")), Err(ClientError::PayloadError(_))));
    assert!(room_update_outcome(200).is_ok());
    assert!(matches!(room_update_outcome(500), Err(ClientError::PayloadError(_))));
    assert!(room_adjust_outcome(202).is_ok());
    assert!(matches!(room_adjust_outcome(200), Err(ClientError::PayloadError(_))));
}
