//! Postprocessing of class recordings: what happens when the media server
//! has uploaded dumps, when streams are ready, when the event room has been
//! adjusted, and when transcoding has completed.
use std::collections::HashMap;
use vstd::prelude::*;
use crate::authz::AccountId;
use crate::segments::{
    chrono_accepts, moment_from_timestamp, Segment,
};
use crate::text::same_text;
use crate::time::{Bound, BoundedDateTimeTuple, Moment};

verus! {

/// An agent: a label within an account.
pub struct AgentId {
    pub label: String,
    pub account: AccountId,
}

impl AgentId {
    /// The label, account label and audience of the agent.
    pub open spec fn parts(&self) -> (Seq<char>, Seq<char>, Seq<char>) {
        (self.label@, self.account.label@, self.account.audience@)
    }

    /// Whether two agent ids are the same.
    pub fn same_as(&self, other: &AgentId) -> (r: bool)
        ensures
            r == (self.parts() == other.parts()),
    {
        same_text(self.label.as_str(), other.label.as_str()) && same_text(
            self.account.label.as_str(),
            other.account.label.as_str(),
        ) && same_text(self.account.audience.as_str(), other.account.audience.as_str())
    }
}

/// The dumps of one rtc that the media server has uploaded.
pub struct MjrDumpsUploadReadyData {
    pub id: u128,
    pub created_by: AgentId,
    pub uri: String,
    pub mjr_dumps_uris: Vec<String>,
}

/// An rtc whose dumps are missing.
pub struct MjrDumpsUploadMissingData {
    pub id: u128,
}

/// What the media server reports of the dumps of one rtc.
pub enum MjrDumpsUploadResult {
    Ready(MjrDumpsUploadReadyData),
    Missing(MjrDumpsUploadMissingData),
}

/// The dumps of every rtc, in the reported order, where all of them are
/// ready; otherwise the id of the first rtc whose dumps are missing.
pub fn extract_ready_dumps(rtcs: Vec<MjrDumpsUploadResult>) -> (r: Result<
    Vec<MjrDumpsUploadReadyData>,
    u128,
>)
    ensures
        match r {
            Ok(ready) => {
                &&& ready@.len() == rtcs@.len()
                &&& forall|k: int|
                    0 <= k < rtcs@.len() ==> (#[trigger] rtcs@[k] matches MjrDumpsUploadResult::Ready(
                        d,
                    ) && d == ready@[k])
            },
            Err(id) => exists|k: int|
                0 <= k < rtcs@.len() && (#[trigger] rtcs@[k] matches MjrDumpsUploadResult::Missing(
                    m,
                ) && m.id == id) && forall|j: int|
                    0 <= j < k ==> rtcs@[j] is Ready,
        },
{
    let ghost all = rtcs@;
    let mut ready: Vec<MjrDumpsUploadReadyData> = Vec::new();
    for rtc in it: rtcs
        invariant
            it.seq() == all,
            ready@.len() == it.index(),
            forall|k: int|
                0 <= k < it.index() ==> (#[trigger] all[k] matches MjrDumpsUploadResult::Ready(d)
                    && d == ready@[k]),
    {
        match rtc {
            MjrDumpsUploadResult::Ready(d) => ready.push(d),
            MjrDumpsUploadResult::Missing(m) => {
                proof {
                    assert(all[it.index() as int] matches MjrDumpsUploadResult::Missing(x) && x.id == m.id);
                    assert forall|j: int| 0 <= j < it.index() implies all[j] is Ready by {
                        assert(all[j] matches MjrDumpsUploadResult::Ready(d) && d == ready@[j]);
                    }
                }
                return Err(m.id);
            },
        }
    }
    Ok(ready)
}

impl AgentId {
    /// A copy of the agent id.
    pub fn duplicate(&self) -> (r: AgentId)
        ensures
            r.parts() == self.parts(),
    {
        AgentId {
            label: self.label.clone(),
            account: AccountId {
                label: self.account.label.clone(),
                audience: self.account.audience.clone(),
            },
        }
    }
}

/// The kinds of classes.
#[derive(Clone, Copy, Debug, PartialEq, Eq, Structural)]
pub enum ClassType {
    P2P,
    Minigroup,
    Webinar,
}

/// Why a postprocessing step stopped with an error.
#[derive(Clone, Copy, Debug, PartialEq, Eq, Structural)]
pub enum PostprocessingError {
    /// Recordings of p2p classes are not postprocessed.
    NotAvailableForP2p,
    /// An upload named no rtc at all.
    NoRtcs,
    /// The dumps of this rtc are missing.
    MissingDumps(u128),
    /// A webinar upload must carry the dumps of exactly one rtc.
    NotExactlyOneDump,
    /// Only the second version of adjustment results is handled.
    UnsupportedAdjustVersion,
    /// The host has no recording among the class's recordings.
    HostRecordNotFound,
    /// The adjustment results have no segments for the host's recording.
    HostSegmentsNotFound,
    /// Some recording has not been uploaded yet.
    NotAllRecordingsReady,
    /// The host has no ready stream.
    NoHostStream,
    /// The class is of another type than the step expects.
    InvalidClassType,
    /// The class's event room has not been adjusted yet.
    NotAdjustedYet,
    /// This recording has no stream uri.
    MissingStreamUri(u128),
    /// The transcoding result is of the other class type's template.
    UnexpectedTranscodingResult,
    /// The uploaded recording has no start.
    MissingStartedAt,
    /// The uploaded recording has no segments.
    MissingSegments,
    /// A recording's start is no date that chrono can make.
    UnrepresentableStart,
    /// The event room was not opened at a time that belongs to it.
    WrongEventRoomOpeningTime,
}

/// The postprocessing flows there are.
#[derive(Clone, Copy, Debug, PartialEq, Eq, Structural)]
pub enum Strategy {
    Minigroup,
    Webinar,
}

/// The postprocessing flow of a class type: minigroups and webinars each
/// have theirs, p2p classes have none.
pub fn strategy_for(kind: ClassType) -> (r: Result<Strategy, PostprocessingError>)
    ensures
        kind == ClassType::P2P ==> r == Err::<Strategy, PostprocessingError>(
            PostprocessingError::NotAvailableForP2p,
        ),
        kind == ClassType::Minigroup ==> r == Ok::<Strategy, PostprocessingError>(
            Strategy::Minigroup,
        ),
        kind == ClassType::Webinar ==> r == Ok::<Strategy, PostprocessingError>(Strategy::Webinar),
{
    match kind {
        ClassType::P2P => Err(PostprocessingError::NotAvailableForP2p),
        ClassType::Minigroup => Ok(Strategy::Minigroup),
        ClassType::Webinar => Ok(Strategy::Webinar),
    }
}

/// The dumps a minigroup upload hands on for conversion: those of every rtc,
/// where there is at least one and none is missing.
pub fn minigroup_ready_dumps(rtcs: Vec<MjrDumpsUploadResult>) -> (r: Result<
    Vec<MjrDumpsUploadReadyData>,
    PostprocessingError,
>)
    ensures
        rtcs@.len() == 0 ==> r is Err && r->Err_0 == PostprocessingError::NoRtcs,
        rtcs@.len() > 0 ==> match r {
            Ok(ready) => ready@.len() == rtcs@.len() && forall|k: int|
                0 <= k < rtcs@.len() ==> (#[trigger] rtcs@[k] matches MjrDumpsUploadResult::Ready(
                    d,
                ) && d == ready@[k]),
            Err(e) => exists|k: int|
                0 <= k < rtcs@.len() && (#[trigger] rtcs@[k] matches MjrDumpsUploadResult::Missing(
                    m,
                ) && e == PostprocessingError::MissingDumps(m.id)) && forall|j: int|
                    0 <= j < k ==> rtcs@[j] is Ready,
        },
{
    if rtcs.len() == 0 {
        return Err(PostprocessingError::NoRtcs);
    }
    match extract_ready_dumps(rtcs) {
        Ok(ready) => Ok(ready),
        Err(id) => Err(PostprocessingError::MissingDumps(id)),
    }
}

/// The one dump a webinar upload hands on for conversion.
pub fn webinar_ready_dump(rtcs: Vec<MjrDumpsUploadResult>) -> (r: Result<
    MjrDumpsUploadReadyData,
    PostprocessingError,
>)
    ensures
        match r {
            Ok(d) => rtcs@.len() == 1 && (rtcs@[0] matches MjrDumpsUploadResult::Ready(x) && x == d),
            Err(PostprocessingError::NotExactlyOneDump) => rtcs@.len() != 1 && forall|k: int|
                0 <= k < rtcs@.len() ==> rtcs@[k] is Ready,
            Err(PostprocessingError::MissingDumps(id)) => exists|k: int|
                0 <= k < rtcs@.len() && (#[trigger] rtcs@[k] matches MjrDumpsUploadResult::Missing(
                    m,
                ) && m.id == id) && forall|j: int| 0 <= j < k ==> rtcs@[j] is Ready,
            Err(_) => false,
        },
{
    let ghost all = rtcs@;
    match extract_ready_dumps(rtcs) {
        Ok(mut ready) => {
            if ready.len() != 1 {
                proof {
                    assert forall|k: int| 0 <= k < all.len() implies all[k] is Ready by {
                        assert(all[k] matches MjrDumpsUploadResult::Ready(d) && d == ready@[k]);
                    }
                }
                return Err(PostprocessingError::NotExactlyOneDump);
            }
            let d = ready.pop().unwrap();
            proof {
                assert(all[0] matches MjrDumpsUploadResult::Ready(x) && x == d);
            }
            Ok(d)
        },
        Err(id) => Err(PostprocessingError::MissingDumps(id)),
    }
}

/// A recording of a class, as stored.
pub struct Recording {
    pub id: u128,
    pub rtc_id: u128,
    pub stream_uri: Option<String>,
    pub segments: Option<Vec<Segment>>,
    pub modified_segments: Option<Vec<Segment>>,
    pub started_at: Option<Moment>,
    pub created_by: AgentId,
    pub transcoded_at: Option<Moment>,
    pub adjusted_at: Option<Moment>,
}

impl Recording {
    /// A recording is ready once its stream has been uploaded: it has a
    /// stream uri, segments and a start.
    pub open spec fn is_ready(&self) -> bool {
        &&& self.stream_uri is Some
        &&& self.segments is Some
        &&& self.started_at is Some
    }
}

/// A recording whose stream has been uploaded.
pub struct ReadyRecording {
    pub id: u128,
    pub rtc_id: u128,
    pub stream_uri: String,
    pub segments: Vec<Segment>,
    pub modified_segments: Vec<Segment>,
    pub started_at: Moment,
    pub created_by: AgentId,
}

/// A copy of a list of segments.
pub fn copy_segments(v: &Vec<Segment>) -> (r: Vec<Segment>)
    ensures
        r@ == v@,
{
    let mut r: Vec<Segment> = Vec::new();
    for k in 0..v.len()
        invariant
            r@ == v@.take(k as int),
    {
        r.push(v[k]);
        assert(r@ =~= v@.take(k + 1));
    }
    assert(v@.take(v@.len() as int) =~= v@);
    r
}

impl ReadyRecording {
    /// `self` holds what the stored recording `rec` holds; the modified
    /// segments are the original ones where there are no modified ones.
    pub open spec fn describes(&self, rec: &Recording) -> bool {
        &&& self.id == rec.id
        &&& self.rtc_id == rec.rtc_id
        &&& rec.stream_uri == Some(self.stream_uri)
        &&& rec.segments matches Some(s) && s@ == self.segments@
        &&& match rec.modified_segments {
            Some(m) => m@ == self.modified_segments@,
            None => self.modified_segments@ == self.segments@,
        }
        &&& rec.started_at == Some(self.started_at)
        &&& self.created_by.parts() == rec.created_by.parts()
    }

    /// The recording, where its stream has been uploaded.
    pub fn from_db_object(recording: &Recording) -> (r: Option<ReadyRecording>)
        ensures
            r is Some <==> recording.is_ready(),
            r matches Some(x) ==> x.describes(recording),
    {
        let stream_uri = match &recording.stream_uri {
            Some(u) => u.clone(),
            None => return None,
        };
        let segments = match &recording.segments {
            Some(s) => copy_segments(s),
            None => return None,
        };
        let modified_segments = match &recording.modified_segments {
            Some(m) => copy_segments(m),
            None => copy_segments(&segments),
        };
        let started_at = match recording.started_at {
            Some(t) => t,
            None => return None,
        };
        Some(ReadyRecording {
            id: recording.id,
            rtc_id: recording.rtc_id,
            stream_uri,
            segments,
            modified_segments,
            started_at,
            created_by: recording.created_by.duplicate(),
        })
    }
}

/// The position of the first recording made by `host`.
pub open spec fn is_first_by(recs: Seq<Recording>, host: (Seq<char>, Seq<char>, Seq<char>), k: int) -> bool {
    &&& 0 <= k < recs.len()
    &&& recs[k].created_by.parts() == host
    &&& forall|j: int| 0 <= j < k ==> recs[j].created_by.parts() != host
}

/// No recording was made by `host`.
pub open spec fn none_by(recs: Seq<Recording>, host: (Seq<char>, Seq<char>, Seq<char>)) -> bool {
    forall|j: int| 0 <= j < recs.len() ==> recs[j].created_by.parts() != host
}

/// The position of the first recording made by `host`, if there is one.
pub fn first_by(recs: &Vec<Recording>, host: &AgentId) -> (r: Option<usize>)
    ensures
        match r {
            Some(k) => is_first_by(recs@, host.parts(), k as int),
            None => none_by(recs@, host.parts()),
        },
{
    for k in 0..recs.len()
        invariant
            forall|j: int| 0 <= j < k ==> recs@[j].created_by.parts() != host.parts(),
    {
        if recs[k].created_by.same_as(host) {
            return Some(k);
        }
    }
    None
}

/// A recording as the event service adjusts it.
pub struct AdjustRecording {
    pub id: u128,
    pub rtc_id: u128,
    pub host: bool,
    pub segments: Vec<Segment>,
    pub started_at: Moment,
    pub created_by: AgentId,
}

/// What follows the upload of a stream of a minigroup.
pub enum AdjustPlan {
    /// Some recording has not been uploaded yet: nothing happens until it is.
    WaitForRecordings,
    /// The room has no host: nothing happens.
    NoHost,
    /// The host has no recording: nothing happens.
    NoHostRecording,
    /// The event room is adjusted with these recordings.
    Adjust(Vec<AdjustRecording>),
}

/// `a` is what the event service is told of the stored recording `rec`,
/// given who hosts the room.
pub open spec fn adjusts(a: &AdjustRecording, rec: &Recording, host: (Seq<char>, Seq<char>, Seq<char>)) -> bool {
    &&& a.id == rec.id
    &&& a.rtc_id == rec.rtc_id
    &&& a.host == (rec.created_by.parts() == host)
    &&& rec.segments matches Some(s) && s@ == a.segments@
    &&& rec.started_at == Some(a.started_at)
    &&& a.created_by.parts() == rec.created_by.parts()
}

/// Decides what follows the upload of a stream of a minigroup, given the
/// class's recordings and the host of its event room.
pub fn plan_adjustment(recordings: &Vec<Recording>, host: &Option<AgentId>) -> (r: AdjustPlan)
    ensures
        match r {
            AdjustPlan::WaitForRecordings => exists|k: int|
                0 <= k < recordings@.len() && !(#[trigger] recordings@[k]).is_ready(),
            AdjustPlan::NoHost => host is None && forall|k: int|
                0 <= k < recordings@.len() ==> (#[trigger] recordings@[k]).is_ready(),
            AdjustPlan::NoHostRecording => host matches Some(h) && none_by(recordings@, h.parts())
                && forall|k: int| 0 <= k < recordings@.len() ==> (#[trigger] recordings@[k]).is_ready(),
            AdjustPlan::Adjust(list) => host matches Some(h) && (exists|k: int|
                is_first_by(recordings@, h.parts(), k)) && list@.len() == recordings@.len()
                && (forall|k: int|
                0 <= k < recordings@.len() ==> (#[trigger] recordings@[k]).is_ready())
                && forall|k: int|
                0 <= k < recordings@.len() ==> adjusts(
                    &#[trigger] list@[k],
                    &recordings@[k],
                    h.parts(),
                ),
        },
{
    for k in 0..recordings.len()
        invariant
            forall|j: int| 0 <= j < k ==> (#[trigger] recordings@[j]).is_ready(),
    {
        let r = &recordings[k];
        if r.stream_uri.is_none() || r.segments.is_none() || r.started_at.is_none() {
            return AdjustPlan::WaitForRecordings;
        }
    }
    let host = match host {
        None => return AdjustPlan::NoHost,
        Some(h) => h,
    };
    let host_index = match first_by(recordings, host) {
        None => return AdjustPlan::NoHostRecording,
        Some(k) => k,
    };
    let mut list: Vec<AdjustRecording> = Vec::new();
    for k in 0..recordings.len()
        invariant
            forall|j: int| 0 <= j < recordings@.len() ==> (#[trigger] recordings@[j]).is_ready(),
            list@.len() == k,
            forall|j: int|
                0 <= j < k ==> adjusts(&#[trigger] list@[j], &recordings@[j], host.parts()),
    {
        let r = &recordings[k];
        assert(recordings@[k as int].is_ready());
        let segments = match &r.segments {
            Some(s) => copy_segments(s),
            None => Vec::new(),
        };
        let started_at = match r.started_at {
            Some(t) => t,
            None => Moment { secs: 0, nanos: 0 },
        };
        list.push(AdjustRecording {
            id: r.id,
            rtc_id: r.rtc_id,
            host: r.created_by.same_as(host),
            segments,
            started_at,
            created_by: r.created_by.duplicate(),
        });
    }
    AdjustPlan::Adjust(list)
}

/// The start and segments of the host's recording among those an
/// adjustment names: the event room is adjusted by them when the event
/// service is told of the host's stream alone. None where no recording is
/// the host's.
pub fn host_room_adjustment(list: &Vec<AdjustRecording>) -> (r: Option<(Moment, Vec<Segment>)>)
    ensures
        match r {
            Some((t, segs)) => exists|k: int|
                0 <= k < list@.len() && (#[trigger] list@[k]).host && (forall|j: int|
                    0 <= j < k ==> !list@[j].host) && t == list@[k].started_at && segs@
                    == list@[k].segments@,
            None => forall|k: int| 0 <= k < list@.len() ==> !(#[trigger] list@[k]).host,
        },
{
    for k in 0..list.len()
        invariant
            forall|j: int| 0 <= j < k ==> !(#[trigger] list@[j]).host,
    {
        if list[k].host {
            return Some((list[k].started_at, copy_segments(&list[k].segments)));
        }
    }
    None
}

/// The segments the event service reports for one recording after adjusting
/// the event room.
pub struct RecordingSegments {
    pub id: u128,
    pub modified_segments: Vec<Segment>,
    pub pin_segments: Vec<Segment>,
    pub video_mute_segments: Vec<Segment>,
    pub audio_mute_segments: Vec<Segment>,
}

/// The modified segments of the host's recording, once the event room of a
/// minigroup has been adjusted.
pub fn host_modified_segments(
    records: &Vec<Recording>,
    record_segments: &Vec<RecordingSegments>,
    host: &AgentId,
) -> (r: Result<Vec<Segment>, PostprocessingError>)
    ensures
        match r {
            Ok(segs) => exists|k: int, m: int|
                is_first_by(records@, host.parts(), k) && 0 <= m < record_segments@.len()
                    && record_segments@[m].id == records@[k].id && (forall|j: int|
                    0 <= j < m ==> record_segments@[j].id != records@[k].id)
                    && segs@ == record_segments@[m].modified_segments@,
            Err(PostprocessingError::HostRecordNotFound) => none_by(records@, host.parts()),
            Err(PostprocessingError::HostSegmentsNotFound) => exists|k: int|
                is_first_by(records@, host.parts(), k) && forall|m: int|
                    0 <= m < record_segments@.len() ==> record_segments@[m].id != records@[k].id,
            Err(_) => false,
        },
{
    let k = match first_by(records, host) {
        Some(k) => k,
        None => return Err(PostprocessingError::HostRecordNotFound),
    };
    let id = records[k].id;
    for m in 0..record_segments.len()
        invariant
            id == records@[k as int].id,
            is_first_by(records@, host.parts(), k as int),
            forall|j: int| 0 <= j < m ==> record_segments@[j].id != id,
    {
        if record_segments[m].id == id {
            return Ok(copy_segments(&record_segments[m].modified_segments));
        }
    }
    Err(PostprocessingError::HostSegmentsNotFound)
}

/// The seconds of a moment since the midnight of its day.
pub open spec fn day_secs(m: Moment) -> int {
    (m.secs as int) % 86_400
}

/// The leap second that the difference of two times of day counts: a leap
/// second at the earlier time counts as a whole second where the later time
/// of day is after it, and one at the later time is not yet counted where
/// the later time of day is before the earlier one.
pub open spec fn leap_adjust(later: Moment, earlier: Moment) -> int {
    if day_secs(later) > day_secs(earlier) && earlier.nanos >= 1_000_000_000 {
        1
    } else if day_secs(later) < day_secs(earlier) && later.nanos >= 1_000_000_000 {
        -1
    } else {
        0
    }
}

/// The nanoseconds from `earlier` to `later`, as chrono subtracts dates
/// (leap seconds are not counted as elapsed time).
pub open spec fn spec_nanos_between(later: Moment, earlier: Moment) -> int {
    (later.secs - earlier.secs + leap_adjust(later, earlier)) * 1_000_000_000 + later.nanos
        - earlier.nanos
}

/// The whole milliseconds from `earlier` to `later`, rounded toward zero.
pub open spec fn spec_millis_between(later: Moment, earlier: Moment) -> int {
    div_toward_zero(spec_nanos_between(later, earlier), 1_000_000)
}

/// The whole milliseconds from `earlier` to `later`, with
/// `chrono::DateTime::<Utc>::from_timestamp` for both moments, their
/// difference and `TimeDelta::num_milliseconds`: none where chrono makes no
/// date of either, else `spec_millis_between`.
#[verifier::external_body]
pub(crate) fn millis_between(later: Moment, earlier: Moment) -> (r: Option<i64>)
    ensures
        r is Some <==> (chrono_accepts(later.secs, later.nanos) && chrono_accepts(earlier.secs, earlier.nanos)),
        r matches Some(m) ==> m == spec_millis_between(later, earlier),
{
    let l = chrono::DateTime::<chrono::Utc>::from_timestamp(later.secs, later.nanos);
    let e = chrono::DateTime::<chrono::Utc>::from_timestamp(earlier.secs, earlier.nanos);
    match (l, e) {
        (Some(l), Some(e)) => Some((l - e).num_milliseconds()),
        _ => None,
    }
}

/// A stream as the transcoding of a minigroup takes it.
pub struct TranscodeMinigroupToHlsStream {
    pub id: u128,
    pub uri: String,
    pub offset: u64,
    pub segments: Vec<Segment>,
    pub modified_segments: Vec<Segment>,
    pub pin_segments: Vec<Segment>,
    pub video_mute_segments: Vec<Segment>,
    pub audio_mute_segments: Vec<Segment>,
}

/// No time passes between a moment and itself.
pub proof fn lemma_millis_between_same(m: Moment)
    ensures
        spec_millis_between(m, m) == 0,
{
}

/// Between two moments outside leap seconds that fall on whole milliseconds,
/// the milliseconds that pass are the difference of their millisecond
/// timestamps, whichever comes first.
pub proof fn lemma_millis_between_timestamps(later: Moment, earlier: Moment)
    requires
        later.nanos < 1_000_000_000,
        earlier.nanos < 1_000_000_000,
        later.nanos % 1_000_000 == 0,
        earlier.nanos % 1_000_000 == 0,
    ensures
        spec_millis_between(later, earlier) == (later.secs * 1000 + later.nanos / 1_000_000) - (
        earlier.secs * 1000 + earlier.nanos / 1_000_000),
{
    let a: int = (later.nanos / 1_000_000) as int;
    let b: int = (earlier.nanos / 1_000_000) as int;
    let d: int = (later.secs * 1000 + a) - (earlier.secs * 1000 + b);
    assert(later.nanos == a * 1_000_000);
    assert(earlier.nanos == b * 1_000_000);
    assert(leap_adjust(later, earlier) == 0);
    assert(spec_nanos_between(later, earlier) == d * 1_000_000) by (nonlinear_arith)
        requires
            spec_nanos_between(later, earlier) == (later.secs - earlier.secs) * 1_000_000_000
                + later.nanos - earlier.nanos,
            later.nanos == a * 1_000_000,
            earlier.nanos == b * 1_000_000,
            d == (later.secs * 1000 + a) - (earlier.secs * 1000 + b),
    ;
    if d >= 0 {
        assert((d * 1_000_000) / 1_000_000 == d) by (nonlinear_arith);
    } else {
        assert((-(d * 1_000_000)) / 1_000_000 == -d) by (nonlinear_arith)
            requires
                d < 0,
        ;
    }
}

/// The preroll offset of an audience is the value of the first setting for
/// it; an audience with no setting has none.
pub proof fn lemma_preroll_offset(settings: Seq<(String, i64)>, audience: Seq<char>, k: int)
    ensures
        (forall|j: int| 0 <= j < settings.len() ==> (#[trigger] settings[j]).0@ != audience)
            ==> spec_preroll_offset(settings, audience) == 0,
        (0 <= k < settings.len() && settings[k].0@ == audience && forall|j: int|
            0 <= j < k ==> (#[trigger] settings[j]).0@ != audience) ==> spec_preroll_offset(
            settings,
            audience,
        ) == settings[k].1,
    decreases settings.len(),
{
    if settings.len() > 0 {
        let rest = settings.drop_first();
        assert forall|j: int| 0 <= j < rest.len() implies rest[j] == settings[j + 1] by {}
        lemma_preroll_offset(rest, audience, k - 1);
        if (forall|j: int| 0 <= j < settings.len() ==> (#[trigger] settings[j]).0@ != audience) {
            assert(settings[0].0@ != audience);
            assert(forall|j: int| 0 <= j < rest.len() ==> (#[trigger] rest[j]).0@ != audience) by {
                assert forall|j: int| 0 <= j < rest.len() implies (#[trigger] rest[j]).0@ != audience by {
                    assert(settings[j + 1].0@ != audience);
                }
            }
        }
        if 0 < k < settings.len() && settings[k].0@ == audience && (forall|j: int|
            0 <= j < k ==> (#[trigger] settings[j]).0@ != audience) {
            assert(settings[0].0@ != audience);
            assert(rest[k - 1] == settings[k]);
            assert forall|j: int| 0 <= j < k - 1 implies (#[trigger] rest[j]).0@ != audience by {
                assert(settings[j + 1].0@ != audience);
            }
        }
    }
}

/// The transcoding task of a minigroup: its streams and which one is the host's.
pub struct TranscodingPlan {
    pub streams: Vec<TranscodeMinigroupToHlsStream>,
    pub host_stream_id: u128,
}

/// The start of a ready recording.
pub open spec fn start_key(rec: Recording) -> int {
    rec.started_at->Some_0.key()
}

/// `e` is the position of the first recording with the earliest start.
pub open spec fn is_earliest(recs: Seq<Recording>, e: int) -> bool {
    &&& 0 <= e < recs.len()
    &&& forall|j: int| 0 <= j < recs.len() ==> start_key(recs[e]) <= start_key(#[trigger] recs[j])
    &&& forall|j: int| 0 <= j < e ==> start_key(recs[e]) < start_key(#[trigger] recs[j])
}

/// `k` is the position of the last recording with the given id.
pub open spec fn is_last_with_id(recs: Seq<Recording>, id: u128, k: int) -> bool {
    &&& 0 <= k < recs.len()
    &&& recs[k].id == id
    &&& forall|j: int| k < j < recs.len() ==> recs[j].id != id
}

/// A stream of a transcoding task, with the texts and contents of its parts.
pub type StreamView = (u128, Seq<char>, u64, Seq<Segment>, Seq<Segment>, Seq<Segment>, Seq<Segment>, Seq<Segment>);

impl View for TranscodeMinigroupToHlsStream {
    type V = StreamView;

    open spec fn view(&self) -> StreamView {
        (
            self.id,
            self.uri@,
            self.offset,
            self.segments@,
            self.modified_segments@,
            self.pin_segments@,
            self.video_mute_segments@,
            self.audio_mute_segments@,
        )
    }
}

/// The stream made of the ready recording `rec` and its adjusted segments
/// `rs`, placed after the earliest recording `first` (the milliseconds
/// between their starts, cast to `u64` as they are, wrapping where negative): the original segments
/// of the recording, the modified, pin and mute segments of the adjustment.
pub open spec fn stream_of(rec: Recording, rs: RecordingSegments, first: Recording) -> StreamView {
    (
        rec.rtc_id,
        rec.stream_uri->Some_0@,
        spec_millis_between(rec.started_at->Some_0, first.started_at->Some_0) as u64,
        rec.segments->Some_0@,
        rs.modified_segments@,
        rs.pin_segments@,
        rs.video_mute_segments@,
        rs.audio_mute_segments@,
    )
}

/// The stream of a recording is that recording's rtc and uri, with its own
/// segments and the adjustment's, placed the milliseconds between the
/// earliest recording's start and its own after the start of the task: for
/// starts outside leap seconds on whole milliseconds, the difference of their
/// millisecond timestamps; the earliest recording itself is at zero.
pub proof fn lemma_stream_placement(rec: Recording, rs: RecordingSegments, first: Recording)
    requires
        rec.started_at is Some,
        first.started_at is Some,
    ensures
        ({
            let s = stream_of(rec, rs, first);
            let t = rec.started_at->Some_0;
            let f = first.started_at->Some_0;
            &&& s.0 == rec.rtc_id
            &&& s.3 == rec.segments->Some_0@
            &&& s.4 == rs.modified_segments@
            &&& s.5 == rs.pin_segments@
            &&& (t.nanos < 1_000_000_000 && f.nanos < 1_000_000_000 && t.nanos % 1_000_000 == 0
                && f.nanos % 1_000_000 == 0) ==> s.2 == ((t.secs * 1000 + t.nanos / 1_000_000) - (
            f.secs * 1000 + f.nanos / 1_000_000)) as u64
            &&& stream_of(first, rs, first).2 == 0
        }),
{
    let t = rec.started_at->Some_0;
    let f = first.started_at->Some_0;
    if t.nanos < 1_000_000_000 && f.nanos < 1_000_000_000 && t.nanos % 1_000_000 == 0 && f.nanos
        % 1_000_000 == 0 {
        lemma_millis_between_timestamps(t, f);
    }
    lemma_millis_between_same(f);
}

/// The position of the last recording with the given id, if any.
pub open spec fn last_index_with_id(recs: Seq<Recording>, id: u128) -> Option<int> {
    if exists|k: int| is_last_with_id(recs, id, k) {
        Some(choose|k: int| is_last_with_id(recs, id, k))
    } else {
        None
    }
}

/// The streams of a transcoding task: one for each adjusted recording, in
/// order, made of the last class recording with its id; adjusted recordings
/// with no class recording are left out.
pub open spec fn expected_streams(recs: Seq<Recording>, rss: Seq<RecordingSegments>, first: Recording) -> Seq<StreamView>
    decreases rss.len(),
{
    if rss.len() == 0 {
        Seq::empty()
    } else {
        let prev = expected_streams(recs, rss.drop_last(), first);
        match last_index_with_id(recs, rss.last().id) {
            Some(k) => prev.push(stream_of(recs[k], rss.last(), first)),
            None => prev,
        }
    }
}

proof fn lemma_last_with_id_unique(recs: Seq<Recording>, id: u128, k: int)
    requires
        is_last_with_id(recs, id, k),
    ensures
        last_index_with_id(recs, id) == Some(k),
{
    let c = choose|c: int| is_last_with_id(recs, id, c);
    assert(is_last_with_id(recs, id, c));
}

/// The recordings by id: each id maps to the position of the last
/// recording with it.
fn recordings_by_id(recs: &Vec<Recording>) -> (m: HashMap<u128, usize>)
    ensures
        forall|id: u128|
            #![trigger m@.contains_key(id)]
            m@.contains_key(id) ==> is_last_with_id(recs@, id, m@[id] as int),
        forall|id: u128|
            #![trigger m@.contains_key(id)]
            !m@.contains_key(id) ==> forall|j: int| 0 <= j < recs@.len() ==> recs@[j].id != id,
{
    broadcast use vstd::std_specs::hash::group_hash_axioms;
    let mut m: HashMap<u128, usize> = HashMap::new();
    for k in 0..recs.len()
        invariant
            forall|id: u128|
                #![trigger m@.contains_key(id)]
                m@.contains_key(id) ==> {
                    &&& m@[id] < k
                    &&& recs@[m@[id] as int].id == id
                    &&& forall|j: int| m@[id] < j < k ==> recs@[j].id != id
                },
            forall|id: u128|
                #![trigger m@.contains_key(id)]
                !m@.contains_key(id) ==> forall|j: int| 0 <= j < k ==> recs@[j].id != id,
    {
        let ghost before = m@;
        m.insert(recs[k].id, k);
        proof {
            assert forall|id: u128| #![trigger m@.contains_key(id)] m@.contains_key(id) implies {
                &&& m@[id] < k + 1
                &&& recs@[m@[id] as int].id == id
                &&& forall|j: int| m@[id] < j < k + 1 ==> recs@[j].id != id
            } by {
                if id != recs@[k as int].id {
                    assert(before.contains_key(id));
                }
            }
            assert forall|id: u128| #![trigger m@.contains_key(id)] !m@.contains_key(id) implies forall|
                j: int,
            | 0 <= j < k + 1 ==> recs@[j].id != id by {
                assert(!before.contains_key(id));
            }
        }
    }
    m
}

fn earliest(recs: &Vec<Recording>) -> (e: usize)
    requires
        recs@.len() > 0,
        forall|j: int| 0 <= j < recs@.len() ==> (#[trigger] recs@[j]).is_ready(),
        forall|j: int| 0 <= j < recs@.len() ==> (#[trigger] recs@[j]).started_at->Some_0.well_formed(),
    ensures
        is_earliest(recs@, e as int),
{
    let mut e: usize = 0;
    for k in 1..recs.len()
        invariant
            recs@.len() > 0,
            e < k,
            forall|j: int| 0 <= j < recs@.len() ==> (#[trigger] recs@[j]).is_ready(),
            forall|j: int| 0 <= j < recs@.len() ==> (#[trigger] recs@[j]).started_at->Some_0.well_formed(),
            forall|j: int| 0 <= j < k ==> start_key(recs@[e as int]) <= start_key(#[trigger] recs@[j]),
            forall|j: int| 0 <= j < e ==> start_key(recs@[e as int]) < start_key(#[trigger] recs@[j]),
    {
        let a = match recs[k].started_at {
            Some(t) => t,
            None => Moment { secs: 0, nanos: 0 },
        };
        let b = match recs[e].started_at {
            Some(t) => t,
            None => Moment { secs: 0, nanos: 0 },
        };
        if !b.le(&a) {
            e = k;
        }
    }
    e
}

/// Chrono can make a date of the recording's start.
pub open spec fn starts_dated(rec: Recording) -> bool {
    chrono_accepts(rec.started_at->Some_0.secs, rec.started_at->Some_0.nanos)
}

/// Some class recording has the id.
pub open spec fn has_id(recs: Seq<Recording>, id: u128) -> bool {
    exists|k: int| 0 <= k < recs.len() && recs[k].id == id
}

proof fn lemma_has_id_last(recs: Seq<Recording>, id: u128)
    ensures
        has_id(recs, id) <==> last_index_with_id(recs, id) is Some,
        last_index_with_id(recs, id) matches Some(k) ==> is_last_with_id(recs, id, k),
    decreases recs.len(),
{
    if has_id(recs, id) {
        let k0 = choose|k: int| 0 <= k < recs.len() && recs[k].id == id;
        if recs.last().id == id {
            assert(is_last_with_id(recs, id, recs.len() - 1));
        } else {
            let rest = recs.drop_last();
            assert(rest[k0] == recs[k0] && k0 < rest.len());
            assert(has_id(rest, id));
            lemma_has_id_last(rest, id);
            let k = last_index_with_id(rest, id)->Some_0;
            assert(rest[k] == recs[k]);
            assert forall|j: int| k < j < recs.len() implies recs[j].id != id by {
                if j < rest.len() {
                    assert(rest[j] == recs[j]);
                }
            }
            assert(is_last_with_id(recs, id, k));
        }
    }
    if last_index_with_id(recs, id) is Some {
        let k = choose|k: int| is_last_with_id(recs, id, k);
        assert(is_last_with_id(recs, id, k));
    }
}

/// Where each adjusted recording has a class recording with its id, the task
/// has one stream for each, in the order of the adjustment, each made of the
/// last class recording with that id; where none has, the task has no
/// stream; it never has more streams than adjusted recordings.
pub proof fn lemma_streams_follow_adjustment(
    recs: Seq<Recording>,
    rss: Seq<RecordingSegments>,
    first: Recording,
)
    ensures
        expected_streams(recs, rss, first).len() <= rss.len(),
        (forall|m: int| 0 <= m < rss.len() ==> has_id(recs, #[trigger] rss[m].id)) ==> {
            &&& expected_streams(recs, rss, first).len() == rss.len()
            &&& forall|m: int, k: int|
                0 <= m < rss.len() && #[trigger] is_last_with_id(recs, rss[m].id, k)
                    ==> #[trigger] expected_streams(recs, rss, first)[m] == stream_of(
                    recs[k],
                    rss[m],
                    first,
                )
        },
        (forall|m: int| 0 <= m < rss.len() ==> !has_id(recs, #[trigger] rss[m].id))
            ==> expected_streams(recs, rss, first).len() == 0,
    decreases rss.len(),
{
    if rss.len() > 0 {
        let prev = rss.drop_last();
        let n = rss.len() - 1;
        lemma_streams_follow_adjustment(recs, prev, first);
        lemma_has_id_last(recs, rss[n].id);
        if forall|m: int| 0 <= m < rss.len() ==> has_id(recs, #[trigger] rss[m].id) {
            assert forall|m: int| 0 <= m < prev.len() implies has_id(recs, #[trigger] prev[m].id) by {
                assert(prev[m] == rss[m]);
            }
            let k = last_index_with_id(recs, rss[n].id)->Some_0;
            assert forall|m: int, j: int|
                0 <= m < rss.len() && #[trigger] is_last_with_id(recs, rss[m].id, j)
                    implies #[trigger] expected_streams(recs, rss, first)[m] == stream_of(recs[j], rss[m], first) by {
                lemma_last_with_id_unique(recs, rss[m].id, j);
                if m < n {
                    assert(prev[m] == rss[m]);
                    assert(is_last_with_id(recs, prev[m].id, j));
                }
            }
        }
        if forall|m: int| 0 <= m < rss.len() ==> !has_id(recs, #[trigger] rss[m].id) {
            assert forall|m: int| 0 <= m < prev.len() implies !has_id(recs, #[trigger] prev[m].id) by {
                assert(prev[m] == rss[m]);
            }
            assert(!has_id(recs, rss[n].id));
        }
    }
}

/// Decides the transcoding task of a minigroup whose event room is hosted
/// by `host`: every recording must be ready and the host must have one; each
/// adjusted recording found among the class's recordings becomes a stream,
/// placed after the earliest recording.
pub fn plan_transcoding(
    recordings: &Vec<Recording>,
    recording_segments: &Vec<RecordingSegments>,
    host: &AgentId,
) -> (r: Result<TranscodingPlan, PostprocessingError>)
    requires
        forall|j: int|
            0 <= j < recordings@.len() ==> ((#[trigger] recordings@[j]).started_at matches Some(t)
                ==> t.well_formed()),
    ensures
        match r {
            Ok(plan) => {
                &&& forall|j: int| 0 <= j < recordings@.len() ==> (#[trigger] recordings@[j]).is_ready()
                &&& forall|j: int|
                    0 <= j < recordings@.len() ==> starts_dated(#[trigger] recordings@[j])
                &&& exists|h: int|
                    is_first_by(recordings@, host.parts(), h) && plan.host_stream_id
                        == recordings@[h].rtc_id
                &&& exists|e: int|
                    is_earliest(recordings@, e) && plan.streams@.map_values(
                        |s: TranscodeMinigroupToHlsStream| s@,
                    ) == expected_streams(recordings@, recording_segments@, recordings@[e])
            },
            Err(PostprocessingError::NotAllRecordingsReady) => exists|k: int|
                0 <= k < recordings@.len() && !(#[trigger] recordings@[k]).is_ready(),
            Err(PostprocessingError::NoHostStream) => none_by(recordings@, host.parts()) && forall|
                j: int,
            |
                0 <= j < recordings@.len() ==> (#[trigger] recordings@[j]).is_ready(),
            Err(PostprocessingError::UnrepresentableStart) => {
                &&& forall|j: int| 0 <= j < recordings@.len() ==> (#[trigger] recordings@[j]).is_ready()
                &&& exists|h: int| is_first_by(recordings@, host.parts(), h)
                &&& exists|k: int| 0 <= k < recordings@.len() && !starts_dated(#[trigger] recordings@[k])
            },
            Err(_) => false,
        },
{
    broadcast use vstd::std_specs::hash::group_hash_axioms;
    for k in 0..recordings.len()
        invariant
            forall|j: int| 0 <= j < k ==> (#[trigger] recordings@[j]).is_ready(),
    {
        let r = &recordings[k];
        if r.stream_uri.is_none() || r.segments.is_none() || r.started_at.is_none() {
            return Err(PostprocessingError::NotAllRecordingsReady);
        }
    }
    let h = match first_by(recordings, host) {
        Some(h) => h,
        None => return Err(PostprocessingError::NoHostStream),
    };
    let host_stream_id = recordings[h].rtc_id;
    for k in 0..recordings.len()
        invariant
            forall|j: int| 0 <= j < recordings@.len() ==> (#[trigger] recordings@[j]).is_ready(),
            is_first_by(recordings@, host.parts(), h as int),
            forall|j: int| 0 <= j < k ==> starts_dated(#[trigger] recordings@[j]),
    {
        let at = match recordings[k].started_at {
            Some(t) => t,
            None => Moment { secs: 0, nanos: 0 },
        };
        if moment_from_timestamp(at.secs, at.nanos).is_none() {
            return Err(PostprocessingError::UnrepresentableStart);
        }
    }
    let by_id = recordings_by_id(recordings);
    let e = earliest(recordings);
    let first_start = match recordings[e].started_at {
        Some(t) => t,
        None => Moment { secs: 0, nanos: 0 },
    };
    let ghost first = recordings@[e as int];
    let mut streams: Vec<TranscodeMinigroupToHlsStream> = Vec::new();
    for m in 0..recording_segments.len()
        invariant
            forall|j: int| 0 <= j < recordings@.len() ==> (#[trigger] recordings@[j]).is_ready(),
            forall|j: int|
                0 <= j < recordings@.len() ==> ((#[trigger] recordings@[j]).started_at matches Some(t)
                    ==> t.well_formed()),
            e < recordings@.len(),
            is_earliest(recordings@, e as int),
            first == recordings@[e as int],
            first.started_at == Some(first_start),
            first_start.well_formed(),
            forall|id: u128|
                #![trigger by_id@.contains_key(id)]
                by_id@.contains_key(id) ==> is_last_with_id(recordings@, id, by_id@[id] as int),
            forall|id: u128|
                #![trigger by_id@.contains_key(id)]
                !by_id@.contains_key(id) ==> forall|j: int|
                    0 <= j < recordings@.len() ==> recordings@[j].id != id,
            forall|j: int| 0 <= j < recordings@.len() ==> starts_dated(#[trigger] recordings@[j]),
            streams@.map_values(|s: TranscodeMinigroupToHlsStream| s@) == expected_streams(
                recordings@,
                recording_segments@.take(m as int),
                first,
            ),
    {
        let rs = &recording_segments[m];
        proof {
            assert(recording_segments@.take(m + 1).drop_last() == recording_segments@.take(m as int));
            assert(recording_segments@.take(m + 1).last() == recording_segments@[m as int]);
        }
        let found = by_id.get(&rs.id);
        match found {
            None => {
                assert(!(exists|k: int| is_last_with_id(recordings@, rs.id, k)));
            },
            Some(kr) => {
                let k = *kr;
                proof {
                    assert(by_id@.contains_key(rs.id) && by_id@[rs.id] == k);
                    lemma_last_with_id_unique(recordings@, rs.id, k as int);
                }
                let rec = &recordings[k];
                assert(rec.is_ready());
                let start = match rec.started_at {
                    Some(t) => t,
                    None => Moment { secs: 0, nanos: 0 },
                };
                let uri = match &rec.stream_uri {
                    Some(u) => u.clone(),
                    None => String::new(),
                };
                let segments = match &rec.segments {
                    Some(x) => copy_segments(x),
                    None => Vec::new(),
                };
                assert(starts_dated(recordings@[k as int]));
                assert(starts_dated(first));
                // Both starts were dated above, so chrono gives the difference.
                let offset: i64 = match millis_between(start, first_start) {
                    Some(m) => m,
                    None => {
                        assert(false);
                        0
                    },
                };
                let stream = TranscodeMinigroupToHlsStream {
                    id: rec.rtc_id,
                    uri,
                    offset: offset as u64,
                    segments,
                    modified_segments: copy_segments(&rs.modified_segments),
                    pin_segments: copy_segments(&rs.pin_segments),
                    video_mute_segments: copy_segments(&rs.video_mute_segments),
                    audio_mute_segments: copy_segments(&rs.audio_mute_segments),
                };
                let ghost before = streams@;
                streams.push(stream);
                proof {
                    assert(streams@.map_values(|s: TranscodeMinigroupToHlsStream| s@) =~= before.map_values(
                        |s: TranscodeMinigroupToHlsStream| s@,
                    ).push(stream@));
                }
            },
        }
    }
    proof {
        assert(recording_segments@.take(recording_segments@.len() as int) == recording_segments@);
    }
    Ok(TranscodingPlan { streams, host_stream_id })
}

/// The checks before the transcoding of a class is started again: only a
/// minigroup whose event room has been adjusted can be transcoded again; the
/// result is the adjusted (modified) event room.
pub fn restart_transcoding_room(kind: ClassType, modified_event_room_id: Option<u128>) -> (r: Result<
    u128,
    PostprocessingError,
>)
    ensures
        kind != ClassType::Minigroup ==> r == Err::<u128, PostprocessingError>(
            PostprocessingError::InvalidClassType,
        ),
        kind == ClassType::Minigroup ==> match modified_event_room_id {
            Some(id) => r == Ok::<u128, PostprocessingError>(id),
            None => r == Err::<u128, PostprocessingError>(PostprocessingError::NotAdjustedYet),
        },
{
    if kind != ClassType::Minigroup {
        return Err(PostprocessingError::InvalidClassType);
    }
    match modified_event_room_id {
        Some(id) => Ok(id),
        None => Err(PostprocessingError::NotAdjustedYet),
    }
}

/// The transcoding result of a webinar stream.
pub struct TranscodeStreamToHlsSuccess {
    pub stream_duration: String,
    pub stream_id: u128,
    pub stream_uri: String,
    pub event_room_id: u128,
}

/// The transcoding result of a minigroup.
pub struct TranscodeMinigroupToHlsSuccess {
    pub recording_duration: String,
}

/// A successful transcoding, of either template.
pub enum TranscodeSuccess {
    TranscodeStreamToHls(TranscodeStreamToHlsSuccess),
    TranscodeMinigroupToHls(TranscodeMinigroupToHlsSuccess),
}

/// Each flow accepts the transcoding results of its own template only:
/// minigroups those of the minigroup template, webinars those of the stream
/// template.
pub fn accepts_transcoding(strategy: Strategy, result: &TranscodeSuccess) -> (r: Result<
    (),
    PostprocessingError,
>)
    ensures
        r is Ok <==> (strategy == Strategy::Minigroup && result is TranscodeMinigroupToHls) || (
        strategy == Strategy::Webinar && result is TranscodeStreamToHls),
        r matches Err(e) ==> e == PostprocessingError::UnexpectedTranscodingResult,
{
    match (strategy, result) {
        (Strategy::Minigroup, TranscodeSuccess::TranscodeMinigroupToHls(_)) => Ok(()),
        (Strategy::Webinar, TranscodeSuccess::TranscodeStreamToHls(_)) => Ok(()),
        _ => Err(PostprocessingError::UnexpectedTranscodingResult),
    }
}

/// The transcoding task of a webinar after its event room was adjusted: the
/// recording's stream, cut to the modified segments, with the events of the
/// modified room.
pub struct TranscodeStreamToHlsTask {
    pub stream_id: u128,
    pub stream_uri: String,
    pub event_room_id: Option<u128>,
    pub segments: Option<Vec<Segment>>,
}

/// Decides the transcoding task of an adjusted webinar; the recording must
/// have a stream uri.
pub fn webinar_transcoding_task(
    recording: &Recording,
    modified_room_id: u128,
    modified_segments: Vec<Segment>,
) -> (r: Result<TranscodeStreamToHlsTask, PostprocessingError>)
    ensures
        match recording.stream_uri {
            Some(uri) => r matches Ok(t) && t.stream_id == recording.rtc_id && t.stream_uri == uri
                && t.event_room_id == Some(modified_room_id) && t.segments == Some(
                modified_segments,
            ),
            None => r == Err::<TranscodeStreamToHlsTask, PostprocessingError>(
                PostprocessingError::MissingStreamUri(recording.rtc_id),
            ),
        },
{
    match &recording.stream_uri {
        Some(uri) => Ok(TranscodeStreamToHlsTask {
            stream_id: recording.rtc_id,
            stream_uri: uri.clone(),
            event_room_id: Some(modified_room_id),
            segments: Some(modified_segments),
        }),
        None => Err(PostprocessingError::MissingStreamUri(recording.rtc_id)),
    }
}

/// How long the preroll that precedes every webinar recording is, in
/// milliseconds.
pub const WEBINAR_PREROLL_OFFSET: i64 = 4018;

/// The adjustment of an event room to the recording of its class.
pub struct AdjustRoomRequest {
    pub event_room_id: u128,
    pub started_at: Moment,
    pub segments: Vec<Segment>,
    pub offset: i64,
}

/// The adjustment a webinar asks for once its stream is uploaded: its event
/// room, cut to the recording's segments from the recording's start, past
/// the preroll. The recording must have a start and segments by then.
pub fn webinar_adjust_request(event_room_id: u128, recording: &Recording) -> (r: Result<
    AdjustRoomRequest,
    PostprocessingError,
>)
    ensures
        match (recording.started_at, recording.segments) {
            (None, _) => r == Err::<AdjustRoomRequest, PostprocessingError>(
                PostprocessingError::MissingStartedAt,
            ),
            (Some(_), None) => r == Err::<AdjustRoomRequest, PostprocessingError>(
                PostprocessingError::MissingSegments,
            ),
            (Some(at), Some(segs)) => r matches Ok(a) && a.event_room_id == event_room_id
                && a.started_at == at && a.segments@ == segs@ && a.offset == WEBINAR_PREROLL_OFFSET,
        },
{
    let started_at = match recording.started_at {
        Some(at) => at,
        None => return Err(PostprocessingError::MissingStartedAt),
    };
    match &recording.segments {
        Some(segs) => Ok(
            AdjustRoomRequest {
                event_room_id,
                started_at,
                segments: copy_segments(segs),
                offset: WEBINAR_PREROLL_OFFSET,
            },
        ),
        None => Err(PostprocessingError::MissingSegments),
    }
}

/// The preroll offset configured for an audience: that of the first setting
/// for it, or none (0).
pub open spec fn spec_preroll_offset(settings: Seq<(String, i64)>, audience: Seq<char>) -> i64
    decreases settings.len(),
{
    if settings.len() == 0 {
        0
    } else if settings[0].0@ == audience {
        settings[0].1
    } else {
        spec_preroll_offset(settings.drop_first(), audience)
    }
}

/// The preroll offset of an audience, from the per-audience settings.
pub fn preroll_offset(settings: &Vec<(String, i64)>, audience: &str) -> (r: i64)
    ensures
        r == spec_preroll_offset(settings@, audience@),
{
    let mut i: usize = 0;
    proof {
        assert(settings@.skip(0) =~= settings@);
    }
    while i < settings.len()
        invariant
            i <= settings@.len(),
            spec_preroll_offset(settings@, audience@) == spec_preroll_offset(
                settings@.skip(i as int),
                audience@,
            ),
        decreases settings@.len() - i,
    {
        proof {
            assert(settings@.skip(i as int)[0] == settings@[i as int]);
            assert(settings@.skip(i as int).drop_first() =~= settings@.skip(i + 1));
        }
        if same_text(settings[i].0.as_str(), audience) {
            return settings[i].1;
        }
        i = i + 1;
    }
    proof {
        assert(settings@.skip(i as int).len() == 0);
    }
    0
}

/// An event of an event room, as far as pinning goes.
pub enum RoomEvent {
    /// A stream was pinned, that of the given agent, or unpinned (no agent);
    /// the time is in nanoseconds since the event room opened.
    Pin { occurred_at: i64, agent_id: Option<AgentId> },
    /// Any other event.
    Other,
}

/// Integer division that rounds toward zero.
pub open spec fn div_toward_zero(x: int, d: int) -> int {
    if x >= 0 {
        x / d
    } else {
        -((-x) / d)
    }
}

/// The time of an event in milliseconds of the recording: the room's time
/// cut to milliseconds, moved by the recording's offset in the room.
pub open spec fn pin_time(occurred_at: i64, event_room_offset: i64) -> int {
    div_toward_zero(occurred_at as int, 1_000_000) - event_room_offset
}

/// Reading pin events in order: the stream of `host` is pinned by a pin of
/// its own agent while it is not pinned, and unpinned by the next pin event
/// of any kind, which closes a pin segment. The result is the closed pin
/// segments and the start of the segment still open, if any.
pub open spec fn pin_fold(
    events: Seq<RoomEvent>,
    host: (Seq<char>, Seq<char>, Seq<char>),
    event_room_offset: i64,
) -> (Seq<Segment>, Option<int>)
    decreases events.len(),
{
    if events.len() == 0 {
        (Seq::empty(), None)
    } else {
        let (segs, open) = pin_fold(events.drop_last(), host, event_room_offset);
        match events.last() {
            RoomEvent::Pin { occurred_at, agent_id } => {
                let t = pin_time(occurred_at, event_room_offset);
                if agent_id matches Some(a) && a.parts() == host && open is None {
                    (segs, Some(t))
                } else if open is Some {
                    (segs.push(Segment { start: open->Some_0 as i64, end: t as i64 }), None)
                } else {
                    (segs, open)
                }
            },
            RoomEvent::Other => (segs, open),
        }
    }
}

/// The pin segments of a recording: those the pin events close, and, where
/// the stream is still pinned at the end, one to the end of its last
/// segment.
pub open spec fn spec_pin_segments(
    events: Seq<RoomEvent>,
    host: (Seq<char>, Seq<char>, Seq<char>),
    event_room_offset: i64,
    segments: Seq<Segment>,
) -> Seq<Segment> {
    let (segs, open) = pin_fold(events, host, event_room_offset);
    match open {
        Some(start) => if segments.len() > 0 {
            segs.push(Segment { start: start as i64, end: segments.last().end })
        } else {
            segs
        },
        None => segs,
    }
}

/// While the host's stream is not pinned, a pin of the host followed by a
/// pin event of anyone closes one pin segment, from the first event's time
/// to the second's, and leaves the stream unpinned; a pin of another agent,
/// an unpin, or any other event changes nothing; events that are not pins
/// never change anything.
pub proof fn lemma_pin_events(
    events: Seq<RoomEvent>,
    host_agent: AgentId,
    other: Option<AgentId>,
    first_at: i64,
    second_at: i64,
    event_room_offset: i64,
)
    ensures
        ({
            let host = host_agent.parts();
            let (segs, open) = pin_fold(events, host, event_room_offset);
            let pinned = events.push(
                RoomEvent::Pin { occurred_at: first_at, agent_id: Some(host_agent) },
            );
            let closed = pinned.push(RoomEvent::Pin { occurred_at: second_at, agent_id: other });
            &&& pin_fold(events.push(RoomEvent::Other), host, event_room_offset) == pin_fold(
                events,
                host,
                event_room_offset,
            )
            &&& open is None ==> pin_fold(closed, host, event_room_offset) == (
                segs.push(
                    Segment {
                        start: pin_time(first_at, event_room_offset) as i64,
                        end: pin_time(second_at, event_room_offset) as i64,
                    },
                ),
                None::<int>,
            )
            &&& (open is None && !(other matches Some(a) && a.parts() == host)) ==> pin_fold(
                events.push(RoomEvent::Pin { occurred_at: second_at, agent_id: other }),
                host,
                event_room_offset,
            ) == (segs, open)
        }),
{
    let host = host_agent.parts();
    let pinned = events.push(RoomEvent::Pin { occurred_at: first_at, agent_id: Some(host_agent) });
    let closed = pinned.push(RoomEvent::Pin { occurred_at: second_at, agent_id: other });
    assert(events.push(RoomEvent::Other).drop_last() =~= events);
    assert(pinned.drop_last() =~= events);
    assert(closed.drop_last() =~= pinned);
    assert(events.push(RoomEvent::Pin { occurred_at: second_at, agent_id: other }).drop_last()
        =~= events);
    let (segs, open) = pin_fold(events, host, event_room_offset);
    if open is None {
        assert(pin_fold(pinned, host, event_room_offset) == (
            segs,
            Some(pin_time(first_at, event_room_offset)),
        ));
    }
}

/// A stream left pinned when the events end stays pinned to the end of its
/// last segment; one not left pinned gets only the segments the events close.
pub proof fn lemma_pin_segments_end(
    events: Seq<RoomEvent>,
    host: (Seq<char>, Seq<char>, Seq<char>),
    event_room_offset: i64,
    segments: Seq<Segment>,
)
    ensures
        ({
            let (segs, open) = pin_fold(events, host, event_room_offset);
            &&& open is None ==> spec_pin_segments(events, host, event_room_offset, segments) == segs
            &&& open matches Some(start) ==> segments.len() > 0 ==> spec_pin_segments(
                events,
                host,
                event_room_offset,
                segments,
            ) == segs.push(Segment { start: start as i64, end: segments.last().end })
        }),
{
}

/// The times of the pin events fit in 64 bits once moved by the offset.
pub open spec fn pin_times_fit(events: Seq<RoomEvent>, event_room_offset: i64) -> bool {
    forall|i: int|
        0 <= i < events.len() ==> ((#[trigger] events[i]) matches RoomEvent::Pin { occurred_at, .. }
            ==> i64::MIN <= pin_time(occurred_at, event_room_offset) <= i64::MAX)
}

/// The pin segments of the stream recorded by `created_by`, with the given
/// segments, from the pin events of the room, the recording starting
/// `event_room_offset` milliseconds after the room opened.
pub fn pin_segments(
    created_by: &AgentId,
    segments: &Vec<Segment>,
    events: &Vec<RoomEvent>,
    event_room_offset: i64,
) -> (r: Vec<Segment>)
    requires
        pin_times_fit(events@, event_room_offset),
    ensures
        r@ == spec_pin_segments(events@, created_by.parts(), event_room_offset, segments@),
{
    let ghost host = created_by.parts();
    let mut segs: Vec<Segment> = Vec::new();
    let mut open: Option<i64> = None;
    for i in 0..events.len()
        invariant
            host == created_by.parts(),
            pin_times_fit(events@, event_room_offset),
            ({
                let (s, o) = pin_fold(events@.take(i as int), host, event_room_offset);
                &&& segs@ == s
                &&& o == (match open {
                    Some(x) => Some(x as int),
                    None => None::<int>,
                })
            }),
    {
        proof {
            assert(events@.take(i + 1).drop_last() =~= events@.take(i as int));
            assert(events@.take(i + 1).last() == events@[i as int]);
        }
        match &events[i] {
            RoomEvent::Pin { occurred_at, agent_id } => {
                assert(i64::MIN <= pin_time(*occurred_at, event_room_offset) <= i64::MAX);
                let ms = *occurred_at / 1_000_000;
                assert(ms == div_toward_zero(*occurred_at as int, 1_000_000));
                let t = ms - event_room_offset;
                let by_host = match agent_id {
                    Some(a) => a.same_as(created_by),
                    None => false,
                };
                if by_host && open.is_none() {
                    open = Some(t);
                } else if let Some(p) = open {
                    segs.push(Segment { start: p, end: t });
                    open = None;
                }
            },
            RoomEvent::Other => {},
        }
    }
    proof {
        assert(events@.take(events@.len() as int) =~= events@);
    }
    match open {
        Some(start) => {
            if segments.len() > 0 {
                let last = segments[segments.len() - 1];
                segs.push(Segment { start, end: last.end });
            }
        },
        None => {},
    }
    segs
}

/// The moment the modified event room opened, which the transcoding of a
/// minigroup needs: the room's time must start at an included moment.
pub fn check_room_opening(room_time: &BoundedDateTimeTuple) -> (r: Result<Moment, PostprocessingError>)
    ensures
        match room_time.0 {
            Bound::Included(t) => r == Ok::<Moment, PostprocessingError>(t),
            _ => r == Err::<Moment, PostprocessingError>(PostprocessingError::WrongEventRoomOpeningTime),
        },
{
    match room_time.0 {
        Bound::Included(t) => Ok(t),
        _ => Err(PostprocessingError::WrongEventRoomOpeningTime),
    }
}

/// What is stored once a stream has been converted from uploaded dumps.
pub enum UploadStore {
    /// The stream was read: its recording gets the stream's uri, start and
    /// segments.
    Update { stream_id: u128, uri: String, started_at: Moment, segments: Vec<Segment> },
    /// The stream's segment list could not be read: its recording is removed.
    Remove { stream_id: u128 },
}

/// What is stored for a converted stream, given what reading its segment
/// list gave (its start and its segments, or why it could not be read).
pub fn upload_step<E>(stream_id: u128, uri: String, parsed: Result<(Moment, Vec<Segment>), E>) -> (r:
    UploadStore)
    ensures
        match parsed {
            Ok((at, segs)) => r matches UploadStore::Update { stream_id: i, uri: u, started_at: a, segments: s }
                && i == stream_id && u == uri && a == at && s == segs,
            Err(_) => r matches UploadStore::Remove { stream_id: i } && i == stream_id,
        },
{
    match parsed {
        Ok((started_at, segments)) => UploadStore::Update { stream_id, uri, started_at, segments },
        Err(_) => UploadStore::Remove { stream_id },
    }
}

} // verus!
