//! Incoming broker traffic: which handler an event goes to, the audience a
//! topic names, and what each broker notification leads to.
use vstd::prelude::*;
use vstd::string::*;
use crate::classes::copy_opt;
use crate::error::{AppError, ErrorKind};
use crate::postprocessing::{
    ClassType, TranscodeMinigroupToHlsSuccess, TranscodeStreamToHlsSuccess, TranscodeSuccess,
};
use crate::segments::Segment;
use crate::text::{find_str, first_occurrence, is_first_occurrence, lemma_first_occurrence_is, lemma_no_occurrence, occurs_at, same_text, starts_with};

verus! {

/// The last piece of `s` when it is split at `pat`, scanning from the left
/// for non-overlapping occurrences.
pub open spec fn last_piece(s: Seq<char>, pat: Seq<char>) -> Seq<char>
    decreases s.len(),
{
    match first_occurrence(s, pat) {
        Some(i) => if pat.len() > 0 && 0 <= i && i + pat.len() <= s.len() {
            last_piece(s.skip(i + pat.len()), pat)
        } else {
            s
        },
        None => s,
    }
}

/// The first piece of `s` when it is split at `pat`.
pub open spec fn first_piece(s: Seq<char>, pat: Seq<char>) -> Seq<char> {
    match first_occurrence(s, pat) {
        Some(i) => s.take(i),
        None => s,
    }
}

/// The audience an event topic names: the text after the last
/// `/audiences/`, up to its first `/events`.
pub open spec fn spec_topic_audience(topic: Seq<char>) -> Seq<char> {
    first_piece(last_piece(topic, "/audiences/"@), "/events"@)
}

/// A topic `<prefix>/audiences/<audience>/events<rest>` in which
/// `/audiences/` occurs only where it stands there, and `/events` does not
/// occur before the one after the audience, names that audience.
pub proof fn lemma_topic_audience(prefix: Seq<char>, audience: Seq<char>, rest: Seq<char>)
    requires
        forall|i: int|
            i != prefix.len() ==> !occurs_at(
                prefix + "/audiences/"@ + audience + "/events"@ + rest,
                "/audiences/"@,
                i,
            ),
        forall|j: int| 0 <= j < audience.len() ==> !occurs_at(audience + "/events"@ + rest, "/events"@, j),
    ensures
        spec_topic_audience(prefix + "/audiences/"@ + audience + "/events"@ + rest) == audience,
{
    reveal_strlit("/audiences/");
    reveal_strlit("/events");
    let topic = prefix + "/audiences/"@ + audience + "/events"@ + rest;
    let tail = audience + "/events"@ + rest;
    let p = prefix.len() as int;
    assert(topic.subrange(p, p + 11) =~= "/audiences/"@);
    assert(is_first_occurrence(topic, "/audiences/"@, p));
    lemma_first_occurrence_is(topic, "/audiences/"@, p);
    assert(topic.skip(p + 11) =~= tail);
    assert forall|i: int| !occurs_at(tail, "/audiences/"@, i) by {
        if occurs_at(tail, "/audiences/"@, i) {
            assert(topic.subrange(p + 11 + i, p + 11 + i + 11) =~= tail.subrange(i, i + 11));
            assert(occurs_at(topic, "/audiences/"@, p + 11 + i));
        }
    }
    lemma_no_occurrence(tail, "/audiences/"@);
    assert(last_piece(tail, "/audiences/"@) == tail);
    assert(last_piece(topic, "/audiences/"@) == tail);
    let a = audience.len() as int;
    assert(tail.subrange(a, a + 7) =~= "/events"@);
    assert(is_first_occurrence(tail, "/events"@, a));
    lemma_first_occurrence_is(tail, "/events"@, a);
    assert(tail.take(a) =~= audience);
}

/// The audience an event topic names.
pub fn topic_audience(topic: &str) -> (r: String)
    ensures
        r@ == spec_topic_audience(topic@),
{
    proof {
        reveal_strlit("/audiences/");
        reveal_strlit("/events");
    }
    let mut rest: &str = topic;
    loop
        invariant
            "/audiences/"@.len() == 11,
            last_piece(rest@, "/audiences/"@) == last_piece(topic@, "/audiences/"@),
        ensures
            rest@ == last_piece(topic@, "/audiences/"@),
        decreases rest@.len(),
    {
        let n = rest.unicode_len();
        match find_str(rest, "/audiences/") {
            Some(i) => {
                rest = rest.substring_char(i + 11, n);
            },
            None => {
                assert(last_piece(rest@, "/audiences/"@) == rest@);
                break ;
            },
        }
    }
    match find_str(rest, "/events") {
        Some(j) => rest.substring_char(0, j).to_owned(),
        None => rest.to_owned(),
    }
}

/// The handlers of incoming events.
#[derive(Clone, Copy, Debug, PartialEq, Eq, Structural)]
pub enum EventHandler {
    Close,
    StreamUpload,
    Adjust,
    TaskCompletion,
    DumpEvents,
    EditionCommit,
}

/// The handler of an event label and the kind of error its failures get.
pub open spec fn spec_route(label: Option<Seq<char>>) -> Option<(EventHandler, ErrorKind)> {
    match label {
        Some(l) => if l == "room.close"@ {
            Some((EventHandler::Close, ErrorKind::ClassClosingFailed))
        } else if l == "room.upload"@ {
            Some((EventHandler::StreamUpload, ErrorKind::TranscodingFlowFailed))
        } else if l == "room.adjust"@ {
            Some((EventHandler::Adjust, ErrorKind::TranscodingFlowFailed))
        } else if l == "task.complete"@ {
            Some((EventHandler::TaskCompletion, ErrorKind::TranscodingFlowFailed))
        } else if l == "room.dump_events"@ {
            Some((EventHandler::DumpEvents, ErrorKind::TranscodingFlowFailed))
        } else if l == "edition.commit"@ {
            Some((EventHandler::EditionCommit, ErrorKind::EditionFailed))
        } else {
            None
        },
        None => None,
    }
}

/// Every handler is reached by one label only; an event without a label is
/// ignored; failures of closing a room are class-closing failures, those of
/// committing an edition are edition failures, and those of every stage of
/// transcoding are transcoding failures.
pub proof fn lemma_routes(l1: Seq<char>, l2: Seq<char>)
    ensures
        spec_route(None) is None,
        (spec_route(Some(l1)) matches Some((h1, _)) && spec_route(Some(l2)) matches Some((h2, _))
            && h1 == h2) ==> l1 == l2,
        spec_route(Some(l1)) matches Some((h, k)) ==> k == match h {
            EventHandler::Close => ErrorKind::ClassClosingFailed,
            EventHandler::EditionCommit => ErrorKind::EditionFailed,
            _ => ErrorKind::TranscodingFlowFailed,
        },
{
}

/// Routes an incoming event by its label; events with other labels, or
/// none, are ignored.
pub fn route_event(label: Option<&str>) -> (r: Option<(EventHandler, ErrorKind)>)
    ensures
        r == spec_route(
            match label {
                Some(l) => Some(l@),
                None => None,
            },
        ),
{
    match label {
        None => None,
        Some(l) => if same_text(l, "room.close") {
            Some((EventHandler::Close, ErrorKind::ClassClosingFailed))
        } else if same_text(l, "room.upload") {
            Some((EventHandler::StreamUpload, ErrorKind::TranscodingFlowFailed))
        } else if same_text(l, "room.adjust") {
            Some((EventHandler::Adjust, ErrorKind::TranscodingFlowFailed))
        } else if same_text(l, "task.complete") {
            Some((EventHandler::TaskCompletion, ErrorKind::TranscodingFlowFailed))
        } else if same_text(l, "room.dump_events") {
            Some((EventHandler::DumpEvents, ErrorKind::TranscodingFlowFailed))
        } else if same_text(l, "edition.commit") {
            Some((EventHandler::EditionCommit, ErrorKind::EditionFailed))
        } else {
            None
        },
    }
}

/// The room whose closing an event reports.
#[derive(Clone, Copy, Debug, PartialEq, Eq, Structural)]
pub enum ClosedRoom {
    EventRoom,
    ConferenceRoom,
}

/// The kind of room a closing event is about, by the application named in
/// the second part of the topic; events of other applications are ignored.
pub open spec fn spec_closed_room(parts: Seq<Seq<char>>) -> Option<ClosedRoom> {
    if parts.len() > 1 && occurs_at(parts[1], "event."@, 0) {
        Some(ClosedRoom::EventRoom)
    } else if parts.len() > 1 && occurs_at(parts[1], "conference."@, 0) {
        Some(ClosedRoom::ConferenceRoom)
    } else {
        None
    }
}

/// The kind of room a closing event is about.
pub fn closed_room(topic_parts: &Vec<String>) -> (r: Option<ClosedRoom>)
    ensures
        r == spec_closed_room(topic_parts@.map_values(|s: String| s@)),
{
    if topic_parts.len() > 1 {
        if starts_with(topic_parts[1].as_str(), "event.") {
            return Some(ClosedRoom::EventRoom);
        } else if starts_with(topic_parts[1].as_str(), "conference.") {
            return Some(ClosedRoom::ConferenceRoom);
        }
    }
    None
}

/// The label of the event announcing that a class has closed.
pub fn close_label(kind: ClassType) -> (r: &'static str)
    ensures
        r@ == (match kind {
            ClassType::P2P => "p2p.close"@,
            ClassType::Minigroup => "minigroup.close"@,
            ClassType::Webinar => "webinar.close"@,
        }),
{
    match kind {
        ClassType::P2P => "p2p.close",
        ClassType::Minigroup => "minigroup.close",
        ClassType::Webinar => "webinar.close",
    }
}

/// The path events of an audience are broadcast to.
pub fn audience_events_path(audience: &str) -> (r: String)
    ensures
        r@ == "audiences/"@ + audience@ + "/events"@,
{
    let r = "audiences/".to_owned();
    let r = r.concat(audience);
    r.concat("/events")
}

/// Which broker notifications there are, as far as they matter here.
#[derive(Clone, Copy, Debug, PartialEq, Eq, Structural)]
pub enum Notification {
    /// A response to a request of this service.
    Response,
    /// An event.
    Event,
    /// A message that could not be read, or of another kind.
    OtherMessage,
    ConnectionError,
    Reconnection,
    Disconnect,
    /// Acknowledgements, pings and the like.
    Protocol,
}

/// What a broker notification leads to.
#[derive(Clone, Copy, Debug, PartialEq, Eq, Structural)]
pub enum NotificationAction {
    HandleResponse,
    HandleEvent,
    Ignore,
    /// Count a connection error.
    CountConnectionError,
    /// Count a reconnection and subscribe to the topics again.
    Resubscribe,
    /// Count a disconnection.
    CountDisconnect,
}

/// What a broker notification leads to.
pub fn notification_action(n: Notification) -> (r: NotificationAction)
    ensures
        r == (match n {
            Notification::Response => NotificationAction::HandleResponse,
            Notification::Event => NotificationAction::HandleEvent,
            Notification::ConnectionError => NotificationAction::CountConnectionError,
            Notification::Reconnection => NotificationAction::Resubscribe,
            Notification::Disconnect => NotificationAction::CountDisconnect,
            _ => NotificationAction::Ignore,
        }),
{
    match n {
        Notification::Response => NotificationAction::HandleResponse,
        Notification::Event => NotificationAction::HandleEvent,
        Notification::OtherMessage => NotificationAction::Ignore,
        Notification::ConnectionError => NotificationAction::CountConnectionError,
        Notification::Reconnection => NotificationAction::Resubscribe,
        Notification::Disconnect => NotificationAction::CountDisconnect,
        Notification::Protocol => NotificationAction::Ignore,
    }
}

/// How the class an incoming event is about is found.
pub enum ClassLookup {
    ByEventRoom(u128),
    ByConferenceRoom(u128),
    ByOriginalEventRoom(u128),
    ByScope { audience: String, scope: String },
}

/// The class a closing event is about: the one of the closed room, by the
/// kind of room the topic names; events of other applications are about no
/// class and are ignored.
pub fn close_lookup(topic_parts: &Vec<String>, room_id: u128) -> (r: Option<ClassLookup>)
    ensures
        match spec_closed_room(topic_parts@.map_values(|s: String| s@)) {
            Some(ClosedRoom::EventRoom) => r matches Some(ClassLookup::ByEventRoom(id)) && id == room_id,
            Some(ClosedRoom::ConferenceRoom) => r matches Some(ClassLookup::ByConferenceRoom(id))
                && id == room_id,
            None => r is None,
        },
{
    match closed_room(topic_parts) {
        Some(ClosedRoom::EventRoom) => Some(ClassLookup::ByEventRoom(room_id)),
        Some(ClosedRoom::ConferenceRoom) => Some(ClassLookup::ByConferenceRoom(room_id)),
        None => None,
    }
}

/// The class an adjusted room belongs to: by the room, where the event names
/// one, else by the scope its tags carry, within the topic's audience;
/// without either no class can be found.
pub fn adjust_lookup(room_id: Option<u128>, audience: String, tags_scope: Option<String>) -> (r: Option<
    ClassLookup,
>)
    ensures
        match room_id {
            Some(id) => r matches Some(ClassLookup::ByEventRoom(x)) && x == id,
            None => match tags_scope {
                Some(scope) => r matches Some(ClassLookup::ByScope { audience: a, scope: s })
                    && a@ == audience@ && s@ == scope@,
                None => r is None,
            },
        },
{
    match room_id {
        Some(id) => Some(ClassLookup::ByEventRoom(id)),
        None => match tags_scope {
            Some(scope) => Some(ClassLookup::ByScope { audience, scope }),
            None => None,
        },
    }
}

/// What adjusting an event room gave.
pub enum RoomAdjustResult {
    Success { original_room_id: u128, modified_room_id: u128, modified_segments: Vec<Segment> },
    /// The adjustment failed; the error as JSON text.
    Error { error: String },
}

/// What committing an edition of an event room gave.
pub enum EditionCommitResult {
    Success { source_room_id: u128, committed_room_id: u128, modified_segments: Vec<Segment> },
    /// The commit failed; the error as JSON text.
    Error { error: String },
}

impl EditionCommitResult {
    /// A committed edition is handled as an adjustment: the source room is
    /// the original room and the committed room the modified one.
    pub fn into_adjust_result(self) -> (r: RoomAdjustResult)
        ensures
            match self {
                EditionCommitResult::Success { source_room_id, committed_room_id, modified_segments } =>
                    r matches RoomAdjustResult::Success {
                    original_room_id: o,
                    modified_room_id: m,
                    modified_segments: s,
                } && o == source_room_id && m == committed_room_id && s@ == modified_segments@,
                EditionCommitResult::Error { error } => r matches RoomAdjustResult::Error { error: e }
                    && e@ == error@,
            },
    {
        match self {
            EditionCommitResult::Success { source_room_id, committed_room_id, modified_segments } =>
                RoomAdjustResult::Success {
                original_room_id: source_room_id,
                modified_room_id: committed_room_id,
                modified_segments,
            },
            EditionCommitResult::Error { error } => RoomAdjustResult::Error { error },
        }
    }

    /// The class a committed edition belongs to: the one whose original event
    /// room is the edition's source room; a failed commit belongs to none.
    pub fn lookup(&self) -> (r: Option<ClassLookup>)
        ensures
            match self {
                EditionCommitResult::Success { source_room_id, .. } => r matches Some(
                    ClassLookup::ByOriginalEventRoom(id),
                ) && id == source_room_id,
                EditionCommitResult::Error { .. } => r is None,
            },
    {
        match self {
            EditionCommitResult::Success { source_room_id, .. } => Some(
                ClassLookup::ByOriginalEventRoom(*source_room_id),
            ),
            EditionCommitResult::Error { .. } => None,
        }
    }
}

/// The stream that converting uploaded dumps gave.
pub struct ConvertMjrDumpsToStreamSuccess {
    pub stream_id: u128,
    pub stream_uri: String,
    /// The segment list as the media server reports it.
    pub segments: String,
}

/// A successful task of the transcoding queue, by its template.
pub enum TaskCompleteSuccess {
    TranscodeStreamToHls(TranscodeStreamToHlsSuccess),
    TranscodeMinigroupToHls(TranscodeMinigroupToHlsSuccess),
    ConvertMjrDumpsToStream(ConvertMjrDumpsToStreamSuccess),
}

/// How a task of the transcoding queue ended.
pub enum TaskCompleteResult {
    Success(TaskCompleteSuccess),
    /// The task failed; the error as JSON text.
    Failure { error: String },
}

/// What a completed task leads to, for the class its tags name.
pub enum TaskStep {
    /// The class's flow handles a finished transcoding.
    Transcoded(TranscodeSuccess),
    /// The class's flow handles an uploaded stream.
    StreamUploaded(ConvertMjrDumpsToStreamSuccess),
    /// The task failed: the event handler fails.
    Failed { error: String },
}

/// What a completed task leads to: a transcoding, of either template, goes to
/// the flow's transcoding completion; converted dumps are a stream upload; a
/// failure fails.
pub fn task_step(result: TaskCompleteResult) -> (r: TaskStep)
    ensures
        match result {
            TaskCompleteResult::Success(TaskCompleteSuccess::TranscodeStreamToHls(s)) => r matches TaskStep::Transcoded(
                TranscodeSuccess::TranscodeStreamToHls(t),
            ) && t == s,
            TaskCompleteResult::Success(TaskCompleteSuccess::TranscodeMinigroupToHls(s)) => r matches TaskStep::Transcoded(
                TranscodeSuccess::TranscodeMinigroupToHls(t),
            ) && t == s,
            TaskCompleteResult::Success(TaskCompleteSuccess::ConvertMjrDumpsToStream(s)) => r matches TaskStep::StreamUploaded(
                t,
            ) && t == s,
            TaskCompleteResult::Failure { error } => r matches TaskStep::Failed { error: e } && e == error,
        },
{
    match result {
        TaskCompleteResult::Success(TaskCompleteSuccess::TranscodeStreamToHls(s)) => TaskStep::Transcoded(
            TranscodeSuccess::TranscodeStreamToHls(s),
        ),
        TaskCompleteResult::Success(TaskCompleteSuccess::TranscodeMinigroupToHls(s)) => TaskStep::Transcoded(
            TranscodeSuccess::TranscodeMinigroupToHls(s),
        ),
        TaskCompleteResult::Success(TaskCompleteSuccess::ConvertMjrDumpsToStream(s)) => TaskStep::StreamUploaded(s),
        TaskCompleteResult::Failure { error } => TaskStep::Failed { error },
    }
}

/// What dumping the events of a room gave.
pub enum DumpEventsResult {
    /// The dump of the room is stored at the given uri.
    Success { room_id: u128, s3_uri: String },
    /// The dump failed; the error as JSON text.
    Error { error: String },
}

/// The event announcing that a class has stopped: its tags, scope and id.
pub struct ClassStop {
    pub tags: Option<String>,
    pub scope: String,
    pub id: u128,
}

/// The announcement that a class has closed: its label, the path it is
/// broadcast to, and its payload.
pub fn class_stop(kind: ClassType, id: u128, scope: &str, audience: &str, tags: &Option<String>) -> (r: (
    &'static str,
    String,
    ClassStop,
))
    ensures
        r.0@ == (match kind {
            ClassType::P2P => "p2p.close"@,
            ClassType::Minigroup => "minigroup.close"@,
            ClassType::Webinar => "webinar.close"@,
        }),
        r.1@ == "audiences/"@ + audience@ + "/events"@,
        r.2.id == id,
        r.2.scope@ == scope@,
        r.2.tags is Some <==> tags is Some,
        r.2.tags is Some ==> r.2.tags.unwrap()@ == tags.unwrap()@,
{
    (
        close_label(kind),
        audience_events_path(audience),
        ClassStop { tags: copy_opt(tags), scope: scope.to_owned(), id },
    )
}

/// A subscription to the events a service broadcasts to a path of it.
pub struct BroadcastSubscription {
    pub account_id: String,
    pub api_version: String,
    pub path: String,
}

/// The subscription to the audience events of tenant `t` from service `s`
/// (its account id and api version).
pub open spec fn is_audience_subscription(
    sub: BroadcastSubscription,
    service: (String, String),
    tenant: String,
) -> bool {
    &&& sub.account_id@ == service.0@
    &&& sub.api_version@ == service.1@
    &&& sub.path@ == "audiences/"@ + tenant@ + "/events"@
}

/// The broadcasts the service follows: for each tenant audience in turn, the
/// audience events of each of the given services, in their order (the
/// conference, event and transcoding-queue services).
pub fn audience_subscriptions(services: &Vec<(String, String)>, tenants: &Vec<String>) -> (r: Vec<
    BroadcastSubscription,
>)
    requires
        tenants@.len() * services@.len() <= usize::MAX,
    ensures
        r@.len() == tenants@.len() * services@.len(),
        forall|i: int, j: int|
            0 <= i < tenants@.len() && 0 <= j < services@.len() ==> is_audience_subscription(
                #[trigger] r@[i * services@.len() + j],
                services@[j],
                tenants@[i],
            ),
{
    let n = services.len();
    let mut r: Vec<BroadcastSubscription> = Vec::new();
    proof {
        assert(0 * n == 0) by (nonlinear_arith);
    }
    for i in 0..tenants.len()
        invariant
            n == services@.len(),
            tenants@.len() * n <= usize::MAX,
            r@.len() == i * n,
            forall|a: int, b: int|
                0 <= a < i && 0 <= b < n ==> is_audience_subscription(
                    #[trigger] r@[a * n + b],
                    services@[b],
                    tenants@[a],
                ),
    {
        let path = audience_events_path(tenants[i].as_str());
        for j in 0..n
            invariant
                n == services@.len(),
                i < tenants@.len(),
                tenants@.len() * n <= usize::MAX,
                path@ == "audiences/"@ + tenants@[i as int]@ + "/events"@,
                r@.len() == i * n + j,
                forall|a: int, b: int|
                    0 <= a < i && 0 <= b < n ==> is_audience_subscription(
                        #[trigger] r@[a * n + b],
                        services@[b],
                        tenants@[a],
                    ),
                forall|b: int|
                    0 <= b < j ==> is_audience_subscription(
                        #[trigger] r@[i * n + b],
                        services@[b],
                        tenants@[i as int],
                    ),
        {
            let ghost before = r@;
            r.push(
                BroadcastSubscription {
                    account_id: services[j].0.clone(),
                    api_version: services[j].1.clone(),
                    path: path.clone(),
                },
            );
            proof {
                assert forall|a: int, b: int|
                    0 <= a < i && 0 <= b < n implies is_audience_subscription(
                        #[trigger] r@[a * n + b],
                        services@[b],
                        tenants@[a],
                    ) by {
                    assert(a * n + b < i * n) by (nonlinear_arith)
                        requires
                            0 <= a < i,
                            0 <= b < n,
                    ;
                    assert(r@[a * n + b] == before[a * n + b]);
                }
                assert forall|b: int|
                    0 <= b < j + 1 implies is_audience_subscription(
                        #[trigger] r@[i * n + b],
                        services@[b],
                        tenants@[i as int],
                    ) by {
                    if b < j {
                        assert(r@[i * n + b] == before[i * n + b]);
                    }
                }
            }
        }
        proof {
            assert((i + 1) * n == i * n + n) by (nonlinear_arith);
            assert forall|a: int, b: int|
                0 <= a < i + 1 && 0 <= b < n implies is_audience_subscription(
                    #[trigger] r@[a * n + b],
                    services@[b],
                    tenants@[a],
                ) by {
                if a == i {
                    assert(r@[i * n + b] == r@[a * n + b]);
                }
            }
            assert((i + 1) * n <= tenants@.len() * n) by (nonlinear_arith)
                requires
                    i + 1 <= tenants@.len(),
                    n >= 0,
            ;
        }
    }
    r
}

/// The event that tells everyone in a scope to reload its frontend, once the
/// scope's frontend was rolled back: its label and the path it is broadcast
/// to.
pub fn rollback_event(scope: &str) -> (r: (&'static str, String))
    ensures
        r.0@ == "scope.frontend.rollback"@,
        r.1@ == "scopes/"@ + scope@ + "/events"@,
{
    let path = "scopes/".to_owned().concat(scope).concat("/events");
    ("scope.frontend.rollback", path)
}

} // verus!
