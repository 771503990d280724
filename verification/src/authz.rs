//! The authorization proxy: requests of other services are rewritten into
//! requests about classrooms before they are passed on.
use vstd::prelude::*;
use vstd::string::*;
use crate::error::{failure, AppError, ErrorKind};
use crate::ids::{parse_uuid, uuid_text, uuid_parse, uuid_to_string};
use crate::text::{before_char, contains, contains_text, find_str, starts_with, take_before_char, first_occurrence, lemma_first_occurrence_is, occurs_at, same_text};

verus! {

/// The texts held by a list of strings.
pub open spec fn texts(v: Seq<String>) -> Seq<Seq<char>> {
    v.map_values(|s: String| s@)
}

/// `p` begins `s`.
pub open spec fn has_prefix(s: Seq<char>, p: Seq<char>) -> bool {
    occurs_at(s, p, 0)
}

/// The value that identifies a subject: a single label, or the legacy list form.
pub enum SubjectValue {
    New(String),
    Old(Vec<String>),
}

/// Who asks for access.
pub struct Subject {
    pub namespace: String,
    pub value: SubjectValue,
}

/// What access is asked for: a path of names within a namespace.
pub struct Object {
    pub namespace: String,
    pub value: Vec<String>,
}

/// A request to the authorization service.
pub struct AuthzRequest {
    pub subject: Subject,
    pub object: Object,
    pub action: String,
}

/// An account: a label within an audience.
pub struct AccountId {
    pub label: String,
    pub audience: String,
}

/// How the event service's requests are rewritten:
/// listing the agents or events of a classroom, or subscribing to its events,
/// is reading the classroom; creating draw-lock or document-page events is
/// checked as creating draw or document events.
pub open spec fn event_rewrite(act: Seq<char>, val: Seq<Seq<char>>) -> (Seq<char>, Seq<Seq<char>>) {
    if val.len() == 3 && ((act == "list"@ && (val[2] == "agents"@ || val[2] == "events"@)) || (
    act == "subscribe"@ && val[2] == "events"@)) {
        ("read"@, val.take(2))
    } else if val.len() == 6 && act == "create"@ && val[2] == "events"@ && val[3] == "draw_lock"@ {
        (act, val.update(3, "draw"@))
    } else if val.len() == 6 && act == "create"@ && val[2] == "events"@ && val[3]
        == "document_page"@ {
        (act, val.update(3, "document"@))
    } else {
        (act, val)
    }
}

/// How the conference service's requests about classrooms are rewritten:
/// listing agents or rtcs of a classroom, reading one of its rtcs and
/// subscribing to its events are all reading the classroom.
pub open spec fn conference_rewrite(act: Seq<char>, val: Seq<Seq<char>>) -> (
    Seq<char>,
    Seq<Seq<char>>,
) {
    if val.len() == 0 || val[0] != "classrooms"@ {
        (act, val)
    } else if val.len() == 3 && act == "list"@ && (val[2] == "agents"@ || val[2] == "rtcs"@) {
        ("read"@, val.take(2))
    } else if val.len() == 4 && act == "read"@ && val[2] == "rtcs"@ {
        (act, val.take(2))
    } else if val.len() == 3 && act == "subscribe"@ && val[2] == "events"@ {
        ("read"@, val.take(2))
    } else {
        (act, val)
    }
}

/// How the storage service's requests about sets are rewritten: any access to
/// an origin set is an upload, to an ms set a download; reading an object of
/// a meta, hls or content set is reading the set; changing a content set is
/// updating the class content.
pub open spec fn storage_rewrite(act: Seq<char>, val: Seq<Seq<char>>) -> (
    Seq<char>,
    Seq<Seq<char>>,
) {
    if val.len() == 0 || val[0] != "sets"@ {
        (act, val)
    } else if val.len() == 2 && has_prefix(val[1], "origin."@) {
        ("upload"@, val)
    } else if val.len() == 2 && has_prefix(val[1], "ms."@) {
        ("download"@, val)
    } else if val.len() == 3 && act == "read"@ && (has_prefix(val[1], "meta."@) || has_prefix(
        val[1],
        "hls."@,
    ) || has_prefix(val[1], "content."@)) {
        (act, val.take(2))
    } else if val.len() == 2 && has_prefix(val[1], "content."@) && (act == "create"@ || act
        == "delete"@ || act == "update"@) {
        ("update"@, val.push("content"@))
    } else {
        (act, val)
    }
}

/// How the nats gatekeeper's requests are rewritten: connecting to the nats
/// of a classroom is reading the classroom.
pub open spec fn nats_gatekeeper_rewrite(act: Seq<char>, val: Seq<Seq<char>>) -> (
    Seq<char>,
    Seq<Seq<char>>,
) {
    if val.len() == 3 && val[0] == "classrooms"@ && act == "connect"@ && val[2] == "nats"@ {
        ("read"@, val.take(2))
    } else {
        (act, val)
    }
}

/// How the presence service's requests are rewritten: everything is reading.
pub open spec fn presence_rewrite(act: Seq<char>, val: Seq<Seq<char>>) -> (
    Seq<char>,
    Seq<Seq<char>>,
) {
    ("read"@, val)
}

/// The rewrite applied to a request from an account with the given label.
pub open spec fn rewrite_for(label: Seq<char>, act: Seq<char>, val: Seq<Seq<char>>) -> (
    Seq<char>,
    Seq<Seq<char>>,
) {
    if label == "event"@ {
        event_rewrite(act, val)
    } else if label == "conference"@ {
        conference_rewrite(act, val)
    } else if label == "storage"@ {
        storage_rewrite(act, val)
    } else if label == "nats-gatekeeper"@ {
        nats_gatekeeper_rewrite(act, val)
    } else if label == "presence"@ {
        presence_rewrite(act, val)
    } else {
        (act, val)
    }
}

impl AuthzRequest {
    /// The action and the object path, as texts.
    pub open spec fn action_and_path(&self) -> (Seq<char>, Seq<Seq<char>>) {
        (self.action@, texts(self.object.value@))
    }

    /// Everything but the action and the object path.
    pub open spec fn same_parties(&self, other: &AuthzRequest) -> bool {
        &&& self.subject == other.subject
        &&& self.object.namespace == other.object.namespace
    }
}

proof fn lemma_texts_take(v: Seq<String>, n: int)
    requires
        0 <= n <= v.len(),
    ensures
        texts(v.subrange(0, n)) == texts(v).take(n),
{
    assert(texts(v.subrange(0, n)) =~= texts(v).take(n));
}

proof fn lemma_texts_update(v: Seq<String>, i: int, s: String)
    requires
        0 <= i < v.len(),
    ensures
        texts(v.update(i, s)) == texts(v).update(i, s@),
{
    assert(texts(v.update(i, s)) =~= texts(v).update(i, s@));
}

proof fn lemma_texts_push(v: Seq<String>, s: String)
    ensures
        texts(v.push(s)) == texts(v).push(s@),
{
    assert(texts(v.push(s)) =~= texts(v).push(s@));
}

proof fn lemma_first_underscore(s: Seq<char>, i: int)
    requires
        0 <= i < s.len(),
        s[i] == '_',
        forall|j: int| 0 <= j < i ==> s[j] != '_',
    ensures
        first_occurrence(s, "_"@) == Some(i),
{
    reveal_strlit("_");
    assert(s.subrange(i, i + 1) =~= "_"@);
    assert forall|j: int| 0 <= j < i implies !occurs_at(s, "_"@, j) by {
        assert(s.subrange(j, j + 1)[0] == s[j]);
    }
    lemma_first_occurrence_is(s, "_"@, i);
}

proof fn lemma_event_kinds()
    ensures
        first_occurrence("draw_lock"@, "_"@) == Some(4int),
        first_occurrence("document_page"@, "_"@) == Some(8int),
        "draw_lock"@.subrange(0, 4) == "draw"@,
        "document_page"@.subrange(0, 8) == "document"@,
{
    reveal_strlit("draw_lock");
    reveal_strlit("document_page");
    reveal_strlit("draw");
    reveal_strlit("document");
    lemma_first_underscore("draw_lock"@, 4);
    lemma_first_underscore("document_page"@, 8);
    assert("draw_lock"@.subrange(0, 4) =~= "draw"@);
    assert("document_page"@.subrange(0, 8) =~= "document"@);
}

/// Keeps the first two names of the object path and sets the action to reading.
fn read_whole_classroom(authz_req: &mut AuthzRequest)
    requires
        old(authz_req).object.value@.len() >= 2,
    ensures
        final(authz_req).action_and_path() == ("read"@, texts(old(authz_req).object.value@).take(2)),
        final(authz_req).same_parties(&*old(authz_req)),
{
    authz_req.action = "read".to_owned();
    authz_req.object.value.truncate(2);
    proof {
        lemma_texts_take(old(authz_req).object.value@, 2);
    }
}

/// Rewrites a request of the event service.
pub fn transform_event_authz_request(authz_req: &mut AuthzRequest)
    ensures
        final(authz_req).action_and_path() == event_rewrite(
            old(authz_req).action@,
            texts(old(authz_req).object.value@),
        ),
        final(authz_req).same_parties(&*old(authz_req)),
{
    let ghost val = texts(authz_req.object.value@);
    let n = authz_req.object.value.len();
    if n == 3 {
        let act_list = same_text(authz_req.action.as_str(), "list");
        let act_subscribe = same_text(authz_req.action.as_str(), "subscribe");
        let third_agents = same_text(authz_req.object.value[2].as_str(), "agents");
        let third_events = same_text(authz_req.object.value[2].as_str(), "events");
        if (act_list && (third_agents || third_events)) || (act_subscribe && third_events) {
            read_whole_classroom(authz_req);
        }
    } else if n == 6 {
        let act_create = same_text(authz_req.action.as_str(), "create");
        let third_events = same_text(authz_req.object.value[2].as_str(), "events");
        let kind_draw = same_text(authz_req.object.value[3].as_str(), "draw_lock");
        let kind_document = same_text(authz_req.object.value[3].as_str(), "document_page");
        if act_create && third_events && (kind_draw || kind_document) {
            let kind = authz_req.object.value[3].as_str();
            proof {
                lemma_event_kinds();
            }
            let offset = match find_str(kind, "_") {
                Some(i) => i,
                None => 0,
            };
            let shortened = kind.substring_char(0, offset).to_owned();
            authz_req.object.value.set(3, shortened);
            proof {
                lemma_texts_update(old(authz_req).object.value@, 3, shortened);
            }
        }
    }
}

/// Whether the object path begins with the given name.
fn path_starts_with(authz_req: &AuthzRequest, name: &str) -> (r: bool)
    ensures
        r == (authz_req.object.value@.len() > 0 && authz_req.object.value@[0]@ == name@),
{
    if authz_req.object.value.len() == 0 {
        return false;
    }
    same_text(authz_req.object.value[0].as_str(), name)
}

/// Rewrites a request of the conference service.
pub fn transform_conference_authz_request(authz_req: &mut AuthzRequest)
    ensures
        final(authz_req).action_and_path() == conference_rewrite(
            old(authz_req).action@,
            texts(old(authz_req).object.value@),
        ),
        final(authz_req).same_parties(&*old(authz_req)),
{
    if !path_starts_with(authz_req, "classrooms") {
        return;
    }
    let n = authz_req.object.value.len();
    if n == 3 {
        let act_list = same_text(authz_req.action.as_str(), "list");
        let act_subscribe = same_text(authz_req.action.as_str(), "subscribe");
        let third_agents = same_text(authz_req.object.value[2].as_str(), "agents");
        let third_rtcs = same_text(authz_req.object.value[2].as_str(), "rtcs");
        let third_events = same_text(authz_req.object.value[2].as_str(), "events");
        if (act_list && (third_agents || third_rtcs)) || (act_subscribe && third_events) {
            read_whole_classroom(authz_req);
        }
    } else if n == 4 {
        let act_read = same_text(authz_req.action.as_str(), "read");
        let third_rtcs = same_text(authz_req.object.value[2].as_str(), "rtcs");
        if act_read && third_rtcs {
            authz_req.object.value.truncate(2);
            proof {
                lemma_texts_take(old(authz_req).object.value@, 2);
            }
        }
    }
}

/// Rewrites a request of the storage service.
pub fn transform_storage_authz_request(authz_req: &mut AuthzRequest)
    ensures
        final(authz_req).action_and_path() == storage_rewrite(
            old(authz_req).action@,
            texts(old(authz_req).object.value@),
        ),
        final(authz_req).same_parties(&*old(authz_req)),
{
    if !path_starts_with(authz_req, "sets") {
        return;
    }
    let n = authz_req.object.value.len();
    if n == 2 {
        let origin = starts_with(authz_req.object.value[1].as_str(), "origin.");
        let ms = starts_with(authz_req.object.value[1].as_str(), "ms.");
        let content = starts_with(authz_req.object.value[1].as_str(), "content.");
        let changes = same_text(authz_req.action.as_str(), "create") || same_text(
            authz_req.action.as_str(),
            "delete",
        ) || same_text(authz_req.action.as_str(), "update");
        if origin {
            authz_req.action = "upload".to_owned();
        } else if ms {
            authz_req.action = "download".to_owned();
        } else if content && changes {
            authz_req.action = "update".to_owned();
            authz_req.object.value.push("content".to_owned());
            proof {
                lemma_texts_push(old(authz_req).object.value@, authz_req.object.value@[2]);
            }
        }
    } else if n == 3 {
        let act_read = same_text(authz_req.action.as_str(), "read");
        let readable = starts_with(authz_req.object.value[1].as_str(), "meta.") || starts_with(
            authz_req.object.value[1].as_str(),
            "hls.",
        ) || starts_with(authz_req.object.value[1].as_str(), "content.");
        if act_read && readable {
            authz_req.object.value.truncate(2);
            proof {
                lemma_texts_take(old(authz_req).object.value@, 2);
            }
        }
    }
}

/// Rewrites a request of the nats gatekeeper.
pub fn transform_nats_gatekeeper_authz_request(authz_req: &mut AuthzRequest)
    ensures
        final(authz_req).action_and_path() == nats_gatekeeper_rewrite(
            old(authz_req).action@,
            texts(old(authz_req).object.value@),
        ),
        final(authz_req).same_parties(&*old(authz_req)),
{
    if !path_starts_with(authz_req, "classrooms") {
        return;
    }
    if authz_req.object.value.len() == 3 {
        let act_connect = same_text(authz_req.action.as_str(), "connect");
        let third_nats = same_text(authz_req.object.value[2].as_str(), "nats");
        if act_connect && third_nats {
            read_whole_classroom(authz_req);
        }
    }
}

/// Rewrites a request of the presence service.
pub fn transform_presence_authz_request(authz_req: &mut AuthzRequest)
    ensures
        final(authz_req).action_and_path() == presence_rewrite(
            old(authz_req).action@,
            texts(old(authz_req).object.value@),
        ),
        final(authz_req).same_parties(&*old(authz_req)),
{
    authz_req.action = "read".to_owned();
}

/// Rewrites a request according to the service the asking account belongs to.
pub fn transform_authz_request(authz_req: &mut AuthzRequest, account_id: &AccountId)
    ensures
        final(authz_req).action_and_path() == rewrite_for(
            account_id.label@,
            old(authz_req).action@,
            texts(old(authz_req).object.value@),
        ),
        final(authz_req).same_parties(&*old(authz_req)),
{
    let label = account_id.label.as_str();
    if same_text(label, "event") {
        transform_event_authz_request(authz_req)
    } else if same_text(label, "conference") {
        transform_conference_authz_request(authz_req)
    } else if same_text(label, "storage") {
        transform_storage_authz_request(authz_req)
    } else if same_text(label, "nats-gatekeeper") {
        transform_nats_gatekeeper_authz_request(authz_req)
    } else if same_text(label, "presence") {
        transform_presence_authz_request(authz_req)
    }
}

/// The part of a set id after its first `::`.
pub open spec fn after_separator(s: Seq<char>) -> Option<Seq<char>> {
    match first_occurrence(s, "::"@) {
        Some(i) => Some(s.skip(i + 2)),
        None => None,
    }
}

/// The audience named by a bucket: what follows its first two dot-separated
/// components (empty where there are exactly two), or nothing where the
/// bucket has no dot.
pub open spec fn bucket_audience(bucket: Seq<char>) -> Option<Seq<char>> {
    match first_occurrence(bucket, "."@) {
        None => None,
        Some(i) => {
            let rest = bucket.skip(i + 1);
            match first_occurrence(rest, "."@) {
                None => Some(Seq::<char>::empty()),
                Some(j) => Some(rest.skip(j + 1)),
            }
        },
    }
}

/// The audience and the scope named by a set id `<bucket>::<scope>`.
pub open spec fn spec_audience_and_scope(s: Seq<char>) -> Option<(Seq<char>, Seq<char>)> {
    match first_occurrence(s, "::"@) {
        None => None,
        Some(i) => match bucket_audience(s.take(i)) {
            None => None,
            Some(a) => Some((a, s.skip(i + 2))),
        },
    }
}

/// An audience and a scope, as named by a set id.
pub struct AudienceScope {
    pub audience: String,
    pub scope: String,
}

/// The rtc id of a set id `<bucket>::<rtc id>`.
pub fn extract_rtc_id<'a>(set_id: &'a str) -> (r: Option<&'a str>)
    ensures
        match r {
            Some(x) => after_separator(set_id@) == Some(x@),
            None => after_separator(set_id@) is None,
        },
{
    match find_str(set_id, "::") {
        Some(idx) => {
            proof {
                reveal_strlit("::");
            }
            let n = set_id.unicode_len();
            Some(set_id.substring_char(idx + 2, n))
        },
        None => None,
    }
}

/// The event room id of a set id `<bucket>::<event room id>`.
pub fn extract_event_room_id<'a>(set_id: &'a str) -> (r: Option<&'a str>)
    ensures
        match r {
            Some(x) => after_separator(set_id@) == Some(x@),
            None => after_separator(set_id@) is None,
        },
{
    extract_rtc_id(set_id)
}

/// The audience and the scope of a set id `<kind>.<class type>.<audience>::<scope>`.
pub fn extract_audience_and_scope(set_id: &str) -> (r: Option<AudienceScope>)
    ensures
        match r {
            Some(x) => spec_audience_and_scope(set_id@) == Some((x.audience@, x.scope@)),
            None => spec_audience_and_scope(set_id@) is None,
        },
{
    proof {
        reveal_strlit("::");
        reveal_strlit(".");
    }
    let idx = match find_str(set_id, "::") {
        Some(idx) => idx,
        None => return None,
    };
    let n = set_id.unicode_len();
    let bucket = set_id.substring_char(0, idx);
    let scope = set_id.substring_char(idx + 2, n).to_owned();
    let blen = bucket.unicode_len();
    let first = match find_str(bucket, ".") {
        Some(i) => i,
        None => return None,
    };
    let rest = bucket.substring_char(first + 1, blen);
    let rlen = rest.unicode_len();
    let audience = match find_str(rest, ".") {
        Some(j) => rest.substring_char(j + 1, rlen).to_owned(),
        None => String::new(),
    };
    Some(AudienceScope { audience, scope })
}

/// The lookups the proxy knows for each asking service.
#[derive(Clone, Copy, PartialEq, Eq, Structural)]
pub enum Finder {
    Event,
    Conference,
    Storage,
    NatsGatekeeper,
    Presence,
}

/// Two prefixes that differ at a position both reach never both begin a text.
proof fn lemma_prefixes_exclusive(s: Seq<char>, p: Seq<char>, q: Seq<char>, i: int)
    requires
        0 <= i < p.len(),
        i < q.len(),
        p[i] != q[i],
        has_prefix(s, p),
    ensures
        !has_prefix(s, q),
{
    assert(s.subrange(0, p.len() as int)[i] == s[i]);
    if has_prefix(s, q) {
        assert(s.subrange(0, q.len() as int)[i] == s[i]);
    }
}

/// A storage set of one of the recording buckets (`hls.`, `origin.`, `ms.`,
/// `meta.`) that is not a minigroup's is looked up by the rtc id after its
/// first `::`, whichever of the four buckets it lies in.
pub proof fn lemma_recording_set_by_rtc(id: Seq<char>, rtc: u128)
    requires
        has_prefix(id, "hls."@) || has_prefix(id, "origin."@) || has_prefix(id, "ms."@)
            || has_prefix(id, "meta."@),
        !contains_text(id, "minigroup"@),
        after_separator(id) matches Some(r) && uuid_parse(r) == Some(rtc),
    ensures
        spec_lookup(Finder::Storage, id) == Ok::<ReadQueryView, FinderError>(
            ReadQueryView::ByRtcId(rtc),
        ),
{
    reveal_strlit("hls.");
    reveal_strlit("origin.");
    reveal_strlit("ms.");
    reveal_strlit("meta.");
    reveal_strlit("content.");
    reveal_strlit("eventsdump.");
    let prefix = if has_prefix(id, "hls."@) {
        "hls."@
    } else if has_prefix(id, "origin."@) {
        "origin."@
    } else if has_prefix(id, "ms."@) {
        "ms."@
    } else {
        "meta."@
    };
    lemma_prefixes_exclusive(id, prefix, "content."@, 0);
    lemma_prefixes_exclusive(id, prefix, "eventsdump."@, 0);
}

/// A storage set of one of the recording buckets that is a minigroup's is
/// looked up by the audience and scope its id names; one that names none is
/// not proxied.
pub proof fn lemma_minigroup_set_by_scope(id: Seq<char>)
    requires
        has_prefix(id, "hls."@) || has_prefix(id, "origin."@) || has_prefix(id, "ms."@)
            || has_prefix(id, "meta."@),
        contains_text(id, "minigroup"@),
    ensures
        spec_audience_and_scope(id) matches Some((audience, scope)) ==> spec_lookup(
            Finder::Storage,
            id,
        ) == Ok::<ReadQueryView, FinderError>(ReadQueryView::ByScope(audience, scope)),
        spec_audience_and_scope(id) is None ==> spec_lookup(Finder::Storage, id) == Err::<
            ReadQueryView,
            FinderError,
        >(FinderError::SetNotProxied),
{
    reveal_strlit("hls.");
    reveal_strlit("origin.");
    reveal_strlit("ms.");
    reveal_strlit("meta.");
    reveal_strlit("content.");
    reveal_strlit("eventsdump.");
    let prefix = if has_prefix(id, "hls."@) {
        "hls."@
    } else if has_prefix(id, "origin."@) {
        "origin."@
    } else if has_prefix(id, "ms."@) {
        "ms."@
    } else {
        "meta."@
    };
    lemma_prefixes_exclusive(id, prefix, "content."@, 0);
    lemma_prefixes_exclusive(id, prefix, "eventsdump."@, 0);
}

/// A content set is looked up by the class id its scope holds, or, where
/// the scope is no id, by its audience and scope; an events dump set is
/// looked up by the event room id after its first `::`.
pub proof fn lemma_content_and_dump_sets(id: Seq<char>)
    ensures
        has_prefix(id, "content."@) ==> match spec_audience_and_scope(id) {
            Some((audience, scope)) => spec_lookup(Finder::Storage, id) == match uuid_parse(scope) {
                Some(u) => Ok::<ReadQueryView, FinderError>(ReadQueryView::ById(u)),
                None => Ok::<ReadQueryView, FinderError>(ReadQueryView::ByScope(audience, scope)),
            },
            None => spec_lookup(Finder::Storage, id) == Err::<ReadQueryView, FinderError>(
                FinderError::SetNotProxied,
            ),
        },
        has_prefix(id, "eventsdump."@) ==> match after_separator(id) {
            Some(room) => spec_lookup(Finder::Storage, id) == match uuid_parse(room) {
                Some(u) => Ok::<ReadQueryView, FinderError>(ReadQueryView::ByEvent(u)),
                None => Err::<ReadQueryView, FinderError>(FinderError::InvalidId),
            },
            None => spec_lookup(Finder::Storage, id) == Err::<ReadQueryView, FinderError>(
                FinderError::BucketNotProxied,
            ),
        },
{
    reveal_strlit("content.");
    reveal_strlit("eventsdump.");
    if has_prefix(id, "eventsdump."@) {
        lemma_prefixes_exclusive(id, "eventsdump."@, "content."@, 0);
    }
}

/// The event, conference, nats gatekeeper and presence services name a
/// classroom by an id: an event room, a conference room, or the class
/// itself; a name that is no id is refused as invalid.
pub proof fn lemma_lookup_by_id(id: Seq<char>)
    ensures
        spec_lookup(Finder::Event, id) == match uuid_parse(id) {
            Some(u) => Ok::<ReadQueryView, FinderError>(ReadQueryView::ByEvent(u)),
            None => Err::<ReadQueryView, FinderError>(FinderError::InvalidId),
        },
        spec_lookup(Finder::Conference, id) == match uuid_parse(id) {
            Some(u) => Ok::<ReadQueryView, FinderError>(ReadQueryView::ByConference(u)),
            None => Err::<ReadQueryView, FinderError>(FinderError::InvalidId),
        },
        spec_lookup(Finder::NatsGatekeeper, id) == spec_lookup(Finder::Presence, id),
        spec_lookup(Finder::Presence, id) == match uuid_parse(id) {
            Some(u) => Ok::<ReadQueryView, FinderError>(ReadQueryView::ById(u)),
            None => Err::<ReadQueryView, FinderError>(FinderError::InvalidId),
        },
{
}

/// A storage set in none of the proxied buckets (`content.`, `eventsdump.`
/// and the recording buckets) is refused as not proxied.
pub proof fn lemma_other_buckets_refused(id: Seq<char>)
    requires
        !has_prefix(id, "content."@),
        !has_prefix(id, "eventsdump."@),
        !has_prefix(id, "hls."@),
        !has_prefix(id, "origin."@),
        !has_prefix(id, "ms."@),
        !has_prefix(id, "meta."@),
    ensures
        spec_lookup(Finder::Storage, id) == Err::<ReadQueryView, FinderError>(
            FinderError::BucketNotProxied,
        ),
{
}

/// For the event service, listing the agents or the events of a classroom,
/// or subscribing to its events, is checked as reading the classroom: the
/// action becomes reading and the path is cut to the classroom's two names.
pub proof fn lemma_event_listing_reads_classroom(act: Seq<char>, val: Seq<Seq<char>>)
    requires
        val.len() == 3,
        (act == "list"@ && (val[2] == "agents"@ || val[2] == "events"@)) || (act == "subscribe"@
            && val[2] == "events"@),
    ensures
        rewrite_for("event"@, act, val) == ("read"@, seq![val[0], val[1]]),
{
    assert(val.take(2) =~= seq![val[0], val[1]]);
}

/// For the event service, creating a draw-lock or a document-page event is
/// checked as creating a draw or a document event; the rest of the request
/// stays as it is.
pub proof fn lemma_event_lock_kinds(act: Seq<char>, val: Seq<Seq<char>>)
    requires
        val.len() == 6,
        act == "create"@,
        val[2] == "events"@,
        val[3] == "draw_lock"@ || val[3] == "document_page"@,
    ensures
        rewrite_for("event"@, act, val) == (act, val.update(
            3,
            if val[3] == "draw_lock"@ {
                "draw"@
            } else {
                "document"@
            },
        )),
{
}

/// For the conference service, listing the agents or the rtcs of a
/// classroom, or subscribing to its events, is checked as reading the
/// classroom, and reading one of its rtcs is reading the classroom too.
pub proof fn lemma_conference_reads_classroom(act: Seq<char>, val: Seq<Seq<char>>)
    requires
        val.len() >= 3,
        val[0] == "classrooms"@,
        (val.len() == 3 && act == "list"@ && (val[2] == "agents"@ || val[2] == "rtcs"@)) || (
        val.len() == 4 && act == "read"@ && val[2] == "rtcs"@) || (val.len() == 3 && act
            == "subscribe"@ && val[2] == "events"@),
    ensures
        rewrite_for("conference"@, act, val) == ("read"@, seq![val[0], val[1]]),
{
    reveal_strlit("read");
    reveal_strlit("conference");
    reveal_strlit("event");
    assert("conference"@.len() != "event"@.len());
    assert(val.take(2) =~= seq![val[0], val[1]]);
}

/// For the storage service, any access to an origin set is an upload and
/// any access to an ms set a download, on the set itself.
pub proof fn lemma_storage_transfer_sets(act: Seq<char>, val: Seq<Seq<char>>)
    requires
        val.len() == 2,
        val[0] == "sets"@,
        has_prefix(val[1], "origin."@) || has_prefix(val[1], "ms."@),
    ensures
        rewrite_for("storage"@, act, val) == (if has_prefix(val[1], "origin."@) {
            "upload"@
        } else {
            "download"@
        }, val),
{
    reveal_strlit("storage");
    reveal_strlit("event");
    reveal_strlit("conference");
    assert("storage"@.len() != "event"@.len());
    assert("storage"@.len() != "conference"@.len());
}

/// For the storage service, reading an object of a meta, hls or content set
/// is reading the set, and creating, deleting or updating an object of a
/// content set is updating the content of the set's class.
pub proof fn lemma_storage_set_objects(act: Seq<char>, val: Seq<Seq<char>>)
    requires
        val.len() >= 2,
        val[0] == "sets"@,
        (val.len() == 3 && act == "read"@ && (has_prefix(val[1], "meta."@) || has_prefix(
            val[1],
            "hls."@,
        ) || has_prefix(val[1], "content."@))) || (val.len() == 2 && has_prefix(
            val[1],
            "content."@,
        ) && (act == "create"@ || act == "delete"@ || act == "update"@)),
    ensures
        val.len() == 3 ==> rewrite_for("storage"@, act, val) == ("read"@, seq![val[0], val[1]]),
        val.len() == 2 ==> rewrite_for("storage"@, act, val) == (
            "update"@,
            seq![val[0], val[1], "content"@],
        ),
{
    reveal_strlit("storage");
    reveal_strlit("event");
    reveal_strlit("conference");
    reveal_strlit("meta.");
    reveal_strlit("hls.");
    reveal_strlit("content.");
    reveal_strlit("origin.");
    reveal_strlit("ms.");
    assert("storage"@.len() != "event"@.len());
    assert("storage"@.len() != "conference"@.len());
    let p = if has_prefix(val[1], "meta."@) {
        "meta."@
    } else if has_prefix(val[1], "hls."@) {
        "hls."@
    } else {
        "content."@
    };
    lemma_prefixes_exclusive(val[1], p, "origin."@, 0);
    lemma_prefixes_exclusive(val[1], p, "ms."@, if p == "meta."@ { 1 } else { 0 });
    if val.len() == 3 {
        assert(val.take(2) =~= seq![val[0], val[1]]);
    } else {
        assert(val.push("content"@) =~= seq![val[0], val[1], "content"@]);
    }
}

/// For the nats gatekeeper, connecting to the nats of a classroom is
/// checked as reading the classroom.
pub proof fn lemma_nats_connect_reads_classroom(act: Seq<char>, val: Seq<Seq<char>>)
    requires
        val.len() == 3,
        val[0] == "classrooms"@,
        act == "connect"@,
        val[2] == "nats"@,
    ensures
        rewrite_for("nats-gatekeeper"@, act, val) == ("read"@, seq![val[0], val[1]]),
{
    reveal_strlit("nats-gatekeeper");
    reveal_strlit("event");
    reveal_strlit("conference");
    reveal_strlit("storage");
    assert("nats-gatekeeper"@.len() != "event"@.len());
    assert("nats-gatekeeper"@.len() != "conference"@.len());
    assert("nats-gatekeeper"@.len() != "storage"@.len());
    assert(val.take(2) =~= seq![val[0], val[1]]);
}

/// Whatever the presence service asks is checked as reading, on the same
/// object.
pub proof fn lemma_presence_reads(act: Seq<char>, val: Seq<Seq<char>>)
    ensures
        rewrite_for("presence"@, act, val) == ("read"@, val),
{
    reveal_strlit("presence");
    reveal_strlit("event");
    reveal_strlit("conference");
    reveal_strlit("storage");
    reveal_strlit("nats-gatekeeper");
    assert("presence"@.len() != "event"@.len());
    assert("presence"@.len() != "conference"@.len());
    assert("presence"@.len() != "storage"@.len());
    assert("presence"@.len() != "nats-gatekeeper"@.len());
}

/// Requests of accounts of other services than these five are left as they
/// are.
pub proof fn lemma_other_services_unchanged(label: Seq<char>, act: Seq<char>, val: Seq<Seq<char>>)
    requires
        label != "event"@,
        label != "conference"@,
        label != "storage"@,
        label != "nats-gatekeeper"@,
        label != "presence"@,
    ensures
        rewrite_for(label, act, val) == (act, val),
{
}

/// The lookup for an account of the given label, if there is one.
pub open spec fn finder_for_label(label: Seq<char>) -> Option<Finder> {
    if label == "event"@ {
        Some(Finder::Event)
    } else if label == "conference"@ {
        Some(Finder::Conference)
    } else if label == "storage"@ {
        Some(Finder::Storage)
    } else if label == "nats-gatekeeper"@ {
        Some(Finder::NatsGatekeeper)
    } else if label == "presence"@ {
        Some(Finder::Presence)
    } else {
        None
    }
}

/// Exactly the accounts of the five proxied services have a lookup, and
/// each has a lookup of its own.
pub proof fn lemma_finders(l1: Seq<char>, l2: Seq<char>)
    ensures
        finder_for_label(l1) is Some <==> (l1 == "event"@ || l1 == "conference"@ || l1
            == "storage"@ || l1 == "nats-gatekeeper"@ || l1 == "presence"@),
        finder_for_label(l1) is Some && finder_for_label(l1) == finder_for_label(l2) ==> l1 == l2,
{
}

/// How a classroom is looked up for an authorization request.
pub enum AuthzReadQuery {
    ByEvent(u128),
    ByConference(u128),
    ById(u128),
    ByScope { audience: String, scope: String },
    ByRtcId(u128),
}

/// A classroom lookup, with texts for strings.
pub enum ReadQueryView {
    ByEvent(u128),
    ByConference(u128),
    ById(u128),
    ByScope(Seq<char>, Seq<char>),
    ByRtcId(u128),
}

impl View for AuthzReadQuery {
    type V = ReadQueryView;

    open spec fn view(&self) -> ReadQueryView {
        match self {
            AuthzReadQuery::ByEvent(id) => ReadQueryView::ByEvent(*id),
            AuthzReadQuery::ByConference(id) => ReadQueryView::ByConference(*id),
            AuthzReadQuery::ById(id) => ReadQueryView::ById(*id),
            AuthzReadQuery::ByScope { audience, scope } => ReadQueryView::ByScope(
                audience@,
                scope@,
            ),
            AuthzReadQuery::ByRtcId(id) => ReadQueryView::ByRtcId(*id),
        }
    }
}

/// Why no classroom lookup could be made of an object name.
#[derive(Debug, Clone, Copy, PartialEq, Eq, Structural)]
pub enum FinderError {
    /// The name holds no valid id where an id was expected.
    InvalidId,
    /// The set is not one whose access is proxied.
    SetNotProxied,
    /// The bucket is not one whose access is proxied.
    BucketNotProxied,
}

/// The buckets of recordings whose sets are looked up by rtc or by scope.
pub open spec fn is_recording_bucket(id: Seq<char>) -> bool {
    ||| has_prefix(id, "hls."@)
    ||| has_prefix(id, "origin."@)
    ||| has_prefix(id, "ms."@)
    ||| has_prefix(id, "meta."@)
}

/// The classroom lookup for the name of a storage set.
pub open spec fn storage_lookup(id: Seq<char>) -> Result<ReadQueryView, FinderError> {
    if has_prefix(id, "content."@) {
        match spec_audience_and_scope(id) {
            Some((audience, scope)) => match uuid_parse(scope) {
                Some(u) => Ok(ReadQueryView::ById(u)),
                None => Ok(ReadQueryView::ByScope(audience, scope)),
            },
            None => Err(FinderError::SetNotProxied),
        }
    } else if has_prefix(id, "eventsdump."@) {
        match after_separator(id) {
            Some(room) => match uuid_parse(room) {
                Some(u) => Ok(ReadQueryView::ByEvent(u)),
                None => Err(FinderError::InvalidId),
            },
            None => Err(FinderError::BucketNotProxied),
        }
    } else if is_recording_bucket(id) {
        if contains_text(id, "minigroup"@) {
            match spec_audience_and_scope(id) {
                Some((audience, scope)) => Ok(ReadQueryView::ByScope(audience, scope)),
                None => Err(FinderError::SetNotProxied),
            }
        } else {
            match after_separator(id) {
                Some(rtc) => match uuid_parse(rtc) {
                    Some(u) => Ok(ReadQueryView::ByRtcId(u)),
                    None => Err(FinderError::InvalidId),
                },
                None => Err(FinderError::SetNotProxied),
            }
        }
    } else {
        Err(FinderError::BucketNotProxied)
    }
}

/// The classroom lookup that a finder makes of an object name.
pub open spec fn spec_lookup(finder: Finder, id: Seq<char>) -> Result<ReadQueryView, FinderError> {
    match finder {
        Finder::Event => match uuid_parse(id) {
            Some(u) => Ok(ReadQueryView::ByEvent(u)),
            None => Err(FinderError::InvalidId),
        },
        Finder::Conference => match uuid_parse(id) {
            Some(u) => Ok(ReadQueryView::ByConference(u)),
            None => Err(FinderError::InvalidId),
        },
        Finder::Storage => storage_lookup(id),
        Finder::NatsGatekeeper | Finder::Presence => match uuid_parse(id) {
            Some(u) => Ok(ReadQueryView::ById(u)),
            None => Err(FinderError::InvalidId),
        },
    }
}

/// The lookup for the asking account; accounts of other services are not
/// authenticated here.
pub fn make_finder(account_id: &AccountId) -> (r: Result<Finder, AppError>)
    ensures
        match r {
            Ok(f) => finder_for_label(account_id.label@) == Some(f),
            Err(e) => finder_for_label(account_id.label@) is None && e.spec_kind()
                == ErrorKind::Unauthorized,
        },
{
    let label = account_id.label.as_str();
    if same_text(label, "event") {
        Ok(Finder::Event)
    } else if same_text(label, "conference") {
        Ok(Finder::Conference)
    } else if same_text(label, "storage") {
        Ok(Finder::Storage)
    } else if same_text(label, "nats-gatekeeper") {
        Ok(Finder::NatsGatekeeper)
    } else if same_text(label, "presence") {
        Ok(Finder::Presence)
    } else {
        Err(AppError::new(ErrorKind::Unauthorized, failure("No finder")))
    }
}

fn lookup_storage(id: &str) -> (r: Result<AuthzReadQuery, FinderError>)
    ensures
        match r {
            Ok(q) => storage_lookup(id@) == Ok::<ReadQueryView, FinderError>(q@),
            Err(e) => storage_lookup(id@) == Err::<ReadQueryView, FinderError>(e),
        },
{
    if starts_with(id, "content.") {
        match extract_audience_and_scope(id) {
            Some(AudienceScope { audience, scope }) => match parse_uuid(scope.as_str()) {
                Some(u) => Ok(AuthzReadQuery::ById(u)),
                None => Ok(AuthzReadQuery::ByScope { audience, scope }),
            },
            None => Err(FinderError::SetNotProxied),
        }
    } else if starts_with(id, "eventsdump.") {
        match extract_event_room_id(id) {
            Some(room) => match parse_uuid(room) {
                Some(u) => Ok(AuthzReadQuery::ByEvent(u)),
                None => Err(FinderError::InvalidId),
            },
            None => Err(FinderError::BucketNotProxied),
        }
    } else if starts_with(id, "hls.") || starts_with(id, "origin.") || starts_with(id, "ms.")
        || starts_with(id, "meta.") {
        if contains(id, "minigroup") {
            match extract_audience_and_scope(id) {
                Some(AudienceScope { audience, scope }) => Ok(
                    AuthzReadQuery::ByScope { audience, scope },
                ),
                None => Err(FinderError::SetNotProxied),
            }
        } else {
            match extract_rtc_id(id) {
                Some(rtc) => match parse_uuid(rtc) {
                    Some(u) => Ok(AuthzReadQuery::ByRtcId(u)),
                    None => Err(FinderError::InvalidId),
                },
                None => Err(FinderError::SetNotProxied),
            }
        }
    } else {
        Err(FinderError::BucketNotProxied)
    }
}

impl Finder {
    /// The classroom lookup for an object name.
    pub fn lookup(self, id: &str) -> (r: Result<AuthzReadQuery, FinderError>)
        ensures
            match r {
                Ok(q) => spec_lookup(self, id@) == Ok::<ReadQueryView, FinderError>(q@),
                Err(e) => spec_lookup(self, id@) == Err::<ReadQueryView, FinderError>(e),
            },
    {
        match self {
            Finder::Event => match parse_uuid(id) {
                Some(u) => Ok(AuthzReadQuery::ByEvent(u)),
                None => Err(FinderError::InvalidId),
            },
            Finder::Conference => match parse_uuid(id) {
                Some(u) => Ok(AuthzReadQuery::ByConference(u)),
                None => Err(FinderError::InvalidId),
            },
            Finder::Storage => lookup_storage(id),
            Finder::NatsGatekeeper | Finder::Presence => match parse_uuid(id) {
                Some(u) => Ok(AuthzReadQuery::ById(u)),
                None => Err(FinderError::InvalidId),
            },
        }
    }
}

/// The audience an account belongs to, without any `:`-suffix.
pub open spec fn account_base_audience(account_id: &AccountId) -> Seq<char> {
    before_char(account_id.audience@, ':')
}

/// Only accounts of the service's own audience may use the proxy.
pub fn validate_client(account_id: &AccountId, service_audience: &str) -> (r: Result<
    (),
    AppError,
>)
    ensures
        r is Ok <==> account_base_audience(account_id) == service_audience@,
        r matches Err(e) ==> e.spec_kind() == ErrorKind::Unauthorized,
{
    let account_audience = take_before_char(account_id.audience.as_str(), ':');
    if !same_text(account_audience, service_audience) {
        return Err(AppError::new(ErrorKind::Unauthorized, failure("Not allowed")));
    }
    Ok(())
}

/// What has to happen to an object before it is authorized: nothing, stating
/// the service's own namespace, or looking up the classroom a set or a scope
/// belongs to.
pub enum Substitution {
    Nothing,
    SetNamespace,
    Lookup(AuthzReadQuery),
}

/// The substitution of an object path, made with the texts of strings.
pub open spec fn spec_substitution(finder: Finder, val: Seq<Seq<char>>) -> Option<
    Option<ReadQueryView>,
> {
    if val.len() >= 2 && (val[0] == "sets"@ || val[0] == "scopes"@) {
        match spec_lookup(finder, val[1]) {
            Ok(q) => Some(Some(q)),
            Err(_) => None,
        }
    } else if val.len() >= 2 && val[0] == "classrooms"@ {
        Some(None)
    } else {
        None
    }
}

/// Sets and scopes are substituted alike: by the lookup the asking service's
/// finder makes of their second name alone, and not at all where it makes
/// none; any object among the classrooms gets the service's namespace,
/// whatever the service; shorter paths and other objects are left alone.
pub proof fn lemma_substitution(finder: Finder, other: Finder, val: Seq<Seq<char>>, rest: Seq<Seq<char>>)
    ensures
        val.len() >= 2 && (val[0] == "sets"@ || val[0] == "scopes"@) ==> {
            &&& spec_substitution(finder, val) == match spec_lookup(finder, val[1]) {
                Ok(q) => Some(Some(q)),
                Err(_) => None::<Option<ReadQueryView>>,
            }
            &&& spec_substitution(finder, val) == spec_substitution(
                finder,
                seq!["sets"@, val[1]] + rest,
            )
            &&& spec_substitution(finder, val) == spec_substitution(
                finder,
                seq!["scopes"@, val[1]] + rest,
            )
        },
        val.len() >= 2 && val[0] == "classrooms"@ ==> spec_substitution(finder, val) == Some(
            None::<ReadQueryView>,
        ) && spec_substitution(other, val) == spec_substitution(finder, val),
        val.len() < 2 ==> spec_substitution(finder, val) is None,
        val.len() >= 2 && val[0] != "sets"@ && val[0] != "scopes"@ && val[0] != "classrooms"@
            ==> spec_substitution(finder, val) is None,
{
    reveal_strlit("sets");
    reveal_strlit("scopes");
    reveal_strlit("classrooms");
    let a = seq!["sets"@, val[1]] + rest;
    let b = seq!["scopes"@, val[1]] + rest;
    if val.len() >= 2 {
        assert(a[0] == "sets"@ && a[1] == val[1] && a.len() >= 2);
        assert(b[0] == "scopes"@ && b[1] == val[1] && b.len() >= 2);
    }
    assert("sets"@.len() != "classrooms"@.len());
    assert("scopes"@.len() != "classrooms"@.len());
}

impl Substitution {
    /// `Some(Some(q))` for a lookup `q`, `Some(None)` for stating the
    /// namespace, `None` for nothing.
    pub open spec fn plan(&self) -> Option<Option<ReadQueryView>> {
        match self {
            Substitution::Nothing => None,
            Substitution::SetNamespace => Some(None),
            Substitution::Lookup(q) => Some(Some(q@)),
        }
    }
}

/// Decides how the object of a request is to be substituted. Sets and scopes
/// are looked up with the finder of the asking service (where it cannot make
/// a lookup, the object is left as it is); classrooms get the service's
/// namespace.
pub fn substitution_for(authz_req: &AuthzRequest, finder: Finder) -> (r: Substitution)
    ensures
        r.plan() == spec_substitution(finder, texts(authz_req.object.value@)),
{
    let value = &authz_req.object.value;
    if value.len() < 2 {
        return Substitution::Nothing;
    }
    if same_text(value[0].as_str(), "sets") || same_text(value[0].as_str(), "scopes") {
        match finder.lookup(value[1].as_str()) {
            Ok(q) => Substitution::Lookup(q),
            Err(_) => Substitution::Nothing,
        }
    } else if same_text(value[0].as_str(), "classrooms") {
        Substitution::SetNamespace
    } else {
        Substitution::Nothing
    }
}

/// States the service's own namespace as the object's namespace.
pub fn set_namespace(authz_req: &mut AuthzRequest, namespace: String)
    ensures
        final(authz_req).object.namespace == namespace,
        final(authz_req).object.value == old(authz_req).object.value,
        final(authz_req).subject == old(authz_req).subject,
        final(authz_req).action == old(authz_req).action,
{
    authz_req.object.namespace = namespace;
}

/// Turns an object naming a set or a scope into one naming the classroom
/// found for it, in the service's own namespace.
pub fn substitute_found_class(authz_req: &mut AuthzRequest, class_id: String, namespace: String)
    requires
        old(authz_req).object.value@.len() >= 2,
    ensures
        texts(final(authz_req).object.value@) == texts(old(authz_req).object.value@).update(
            0,
            "classrooms"@,
        ).update(1, class_id@),
        final(authz_req).object.namespace == namespace,
        final(authz_req).subject == old(authz_req).subject,
        final(authz_req).action == old(authz_req).action,
{
    let classrooms = "classrooms".to_owned();
    let ghost v0 = authz_req.object.value@;
    authz_req.object.value.set(0, classrooms);
    proof {
        lemma_texts_update(v0, 0, classrooms);
    }
    let ghost v1 = authz_req.object.value@;
    authz_req.object.value.set(1, class_id);
    proof {
        lemma_texts_update(v1, 1, class_id);
    }
    authz_req.object.namespace = namespace;
}

/// The answer of the proxy: the action that was asked for, where the
/// authorization service allows it for the rewritten request, else nothing.
pub fn granted_actions(allowed: &Vec<String>, requested: String) -> (r: Vec<String>)
    ensures
        texts(r@) == (if texts(allowed@).contains(requested@) {
            seq![requested@]
        } else {
            Seq::<Seq<char>>::empty()
        }),
{
    let mut found = false;
    for i in 0..allowed.len()
        invariant
            found <==> exists|j: int| 0 <= j < i && allowed@[j]@ == requested@,
    {
        if same_text(allowed[i].as_str(), requested.as_str()) {
            found = true;
        }
    }
    proof {
        if found {
            let j = choose|j: int| 0 <= j < allowed@.len() && allowed@[j]@ == requested@;
            assert(texts(allowed@)[j] == requested@);
        } else {
            assert forall|j: int| 0 <= j < allowed@.len() implies texts(allowed@)[j] != requested@ by {}
        }
    }
    let mut r: Vec<String> = Vec::new();
    if found {
        r.push(requested);
        assert(texts(r@) =~= seq![requested@]);
    } else {
        assert(texts(r@) =~= Seq::<Seq<char>>::empty());
    }
    r
}

impl Subject {
    /// The account of a subject: the label within the subject's namespace.
    /// Only the single-label form names an account.
    pub fn into_account_id(self) -> (a: AccountId)
        requires
            self.value is New,
        ensures
            a.label == self.value->New_0,
            a.audience == self.namespace,
    {
        match self.value {
            SubjectValue::New(label) => AccountId { label, audience: self.namespace },
            SubjectValue::Old(_) => AccountId { label: String::new(), audience: self.namespace },
        }
    }
}

/// The object a request about one class is authorized on: the class among
/// the classrooms.
pub fn classroom_object(id: u128) -> (r: Vec<String>)
    ensures
        r@.len() == 2,
        r@[0]@ == "classrooms"@,
        r@[1]@ == uuid_text(id),
{
    vec!["classrooms".to_owned(), uuid_to_string(id)]
}

/// What looking up the class of a set or scope gave.
pub enum ClassLookupResult {
    /// No database connection could be had.
    ConnectionFailed(anyhow::Error),
    /// The query failed.
    QueryFailed(anyhow::Error),
    /// No class belongs to the set or scope.
    NotFound,
    /// The class found, by its id as text.
    Found(String),
}

/// Completes the substitution of a set or scope with what the lookup gave:
/// a found class takes the object's place, in the service's namespace; with
/// no class found the request is left as it is; a failed lookup fails the
/// request, as a failed connection or a failed query.
pub fn apply_lookup_result(
    authz_req: &mut AuthzRequest,
    found: ClassLookupResult,
    namespace: String,
) -> (r: Result<(), AppError>)
    requires
        old(authz_req).object.value@.len() >= 2,
    ensures
        match found {
            ClassLookupResult::ConnectionFailed(e) => *final(authz_req) == *old(authz_req) && (r matches Err(x)
                && x.spec_kind() == ErrorKind::DbConnAcquisitionFailed && x.spec_cause() == e),
            ClassLookupResult::QueryFailed(e) => *final(authz_req) == *old(authz_req) && (r matches Err(x)
                && x.spec_kind() == ErrorKind::DbQueryFailed && x.spec_cause() == e),
            ClassLookupResult::NotFound => *final(authz_req) == *old(authz_req) && r is Ok,
            ClassLookupResult::Found(id) => {
                &&& r is Ok
                &&& texts(final(authz_req).object.value@) == texts(old(authz_req).object.value@).update(
                    0,
                    "classrooms"@,
                ).update(1, id@)
                &&& final(authz_req).object.namespace == namespace
                &&& final(authz_req).subject == old(authz_req).subject
                &&& final(authz_req).action == old(authz_req).action
            },
        },
{
    match found {
        ClassLookupResult::ConnectionFailed(e) => Err(AppError::new(ErrorKind::DbConnAcquisitionFailed, e)),
        ClassLookupResult::QueryFailed(e) => Err(AppError::new(ErrorKind::DbQueryFailed, e)),
        ClassLookupResult::NotFound => Ok(()),
        ClassLookupResult::Found(id) => {
            substitute_found_class(authz_req, id, namespace);
            Ok(())
        },
    }
}

} // verus!
