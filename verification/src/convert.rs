//! Converting a webinar held elsewhere into a class of this service: which
//! time and tags it gets, and what is stored for it.
use vstd::prelude::*;
use crate::authz::AccountId;
use crate::classes::opt_text;
use crate::postprocessing::AgentId;
use crate::segments::Segment;
use crate::time::{range_well_formed, spec_overlap, times_overlap, Bound, BoundedDateTimeTuple};

verus! {

/// A recording that comes with a converted webinar.
pub struct RecordingConvertObject {
    pub stream_id: u128,
    pub segments: Vec<Segment>,
    pub modified_segments: Vec<Segment>,
    pub uri: String,
}

/// A request to convert a webinar. Tags are held as their JSON text.
pub struct WebinarConvertObject {
    pub scope: String,
    pub audience: String,
    pub event_room_id: u128,
    pub conference_room_id: u128,
    pub time: Option<BoundedDateTimeTuple>,
    pub tags: Option<String>,
    pub original_event_room_id: Option<u128>,
    pub modified_event_room_id: Option<u128>,
    pub recording: Option<RecordingConvertObject>,
}

/// What reading the webinar's rooms gave: the event room's time and tags,
/// and the conference room's time.
pub struct RoomsRead {
    pub event_time: BoundedDateTimeTuple,
    pub event_tags: Option<String>,
    pub conference_time: BoundedDateTimeTuple,
}

/// The webinar to store.
pub struct WebinarInsert {
    pub scope: String,
    pub audience: String,
    pub time: BoundedDateTimeTuple,
    pub conference_room_id: u128,
    pub event_room_id: u128,
    pub tags: Option<String>,
    pub original_event_room_id: Option<u128>,
    pub modified_event_room_id: Option<u128>,
}

/// The recording to store with it.
pub struct RecordingInsert {
    pub stream_id: u128,
    pub segments: Vec<Segment>,
    pub modified_segments: Vec<Segment>,
    pub uri: String,
    pub created_by: AgentId,
}

/// What converting a webinar stores.
pub struct WebinarConvertPlan {
    pub insert: WebinarInsert,
    pub recording: Option<RecordingInsert>,
}

/// The time and tags of a converted webinar: those given, where both are;
/// otherwise what its rooms tell, the overlap of their times and the event
/// room's tags; where the rooms could not be read, no time bounds and no tags.
pub open spec fn spec_time_and_tags(
    time: Option<BoundedDateTimeTuple>,
    tags: Option<Seq<char>>,
    rooms: Option<(BoundedDateTimeTuple, Option<Seq<char>>, BoundedDateTimeTuple)>,
) -> (BoundedDateTimeTuple, Option<Seq<char>>) {
    match (time, tags) {
        (Some(t), Some(g)) => (t, Some(g)),
        _ => match rooms {
            Some((ev, ev_tags, conf)) => (spec_overlap(ev, conf), ev_tags),
            None => ((Bound::Unbounded, Bound::Unbounded), None),
        },
    }
}

/// A webinar converted with both its time and its tags keeps them, whatever
/// its rooms say. Where either is missing, both come from the rooms: the
/// overlap of the event and conference rooms' times and the event room's
/// tags, and the one given is not used; where the rooms could not be read,
/// the time is unbounded and there are no tags.
pub proof fn lemma_convert_time_and_tags(
    time: Option<BoundedDateTimeTuple>,
    other_time: Option<BoundedDateTimeTuple>,
    tags: Option<Seq<char>>,
    other_tags: Option<Seq<char>>,
    rooms: Option<(BoundedDateTimeTuple, Option<Seq<char>>, BoundedDateTimeTuple)>,
    other_rooms: Option<(BoundedDateTimeTuple, Option<Seq<char>>, BoundedDateTimeTuple)>,
)
    ensures
        time matches Some(t) ==> (tags matches Some(g) ==> spec_time_and_tags(time, tags, rooms)
            == (t, Some(g)) && spec_time_and_tags(time, tags, rooms) == spec_time_and_tags(
            time,
            tags,
            other_rooms,
        )),
        time is None ==> spec_time_and_tags(time, tags, rooms) == spec_time_and_tags(
            time,
            other_tags,
            rooms,
        ),
        tags is None ==> spec_time_and_tags(time, tags, rooms) == spec_time_and_tags(
            other_time,
            tags,
            rooms,
        ),
        (time is None || tags is None) ==> spec_time_and_tags(time, tags, rooms) == match rooms {
            Some((ev, ev_tags, conf)) => (spec_overlap(ev, conf), ev_tags),
            None => ((Bound::Unbounded, Bound::Unbounded), None),
        },
{
}

/// What was read of the rooms, with texts for strings.
pub open spec fn rooms_view(rooms: Option<RoomsRead>) -> Option<
    (BoundedDateTimeTuple, Option<Seq<char>>, BoundedDateTimeTuple),
> {
    match rooms {
        Some(r) => Some((r.event_time, opt_text(r.event_tags), r.conference_time)),
        None => None,
    }
}

/// The agent a converted recording is recorded as created by: the portal,
/// acting for the account that converts.
pub open spec fn is_portal_agent(a: AgentId, account: AccountId) -> bool {
    &&& a.label@ == "portal"@
    &&& a.account.label@ == account.label@
    &&& a.account.audience@ == account.audience@
}

impl WebinarConvertObject {
    /// The rooms are read unless both the time and the tags are given.
    pub fn needs_rooms(&self) -> (r: bool)
        ensures
            r == !(self.time is Some && self.tags is Some),
    {
        !(self.time.is_some() && self.tags.is_some())
    }

    /// What is stored for the webinar, given what reading its rooms gave
    /// (`None` where they were not read, or could not be).
    pub fn plan(self, account: &AccountId, rooms: Option<RoomsRead>) -> (r: WebinarConvertPlan)
        requires
            rooms matches Some(x) ==> range_well_formed(x.event_time) && range_well_formed(
                x.conference_time,
            ),
        ensures
            ({
                let (t, g) = spec_time_and_tags(self.time, opt_text(self.tags), rooms_view(rooms));
                &&& r.insert.time == t
                &&& opt_text(r.insert.tags) == g
            }),
            r.insert.scope@ == self.scope@,
            r.insert.audience@ == self.audience@,
            r.insert.conference_room_id == self.conference_room_id,
            r.insert.event_room_id == self.event_room_id,
            r.insert.original_event_room_id == self.original_event_room_id,
            r.insert.modified_event_room_id == self.modified_event_room_id,
            r.recording is Some <==> self.recording is Some,
            r.recording matches Some(rec) ==> {
                let given = self.recording.unwrap();
                &&& rec.stream_id == given.stream_id
                &&& rec.segments@ == given.segments@
                &&& rec.modified_segments@ == given.modified_segments@
                &&& rec.uri@ == given.uri@
                &&& is_portal_agent(rec.created_by, *account)
            },
    {
        let (time, tags) = match (self.time, self.tags) {
            (Some(t), Some(g)) => (t, Some(g)),
            _ => match rooms {
                Some(read) => (times_overlap(read.event_time, read.conference_time), read.event_tags),
                None => ((Bound::Unbounded, Bound::Unbounded), None),
            },
        };
        let recording = match self.recording {
            Some(rec) => Some(
                RecordingInsert {
                    stream_id: rec.stream_id,
                    segments: rec.segments,
                    modified_segments: rec.modified_segments,
                    uri: rec.uri,
                    created_by: AgentId {
                        label: "portal".to_owned(),
                        account: AccountId {
                            label: account.label.clone(),
                            audience: account.audience.clone(),
                        },
                    },
                },
            ),
            None => None,
        };
        WebinarConvertPlan {
            insert: WebinarInsert {
                scope: self.scope,
                audience: self.audience,
                time,
                conference_room_id: self.conference_room_id,
                event_room_id: self.event_room_id,
                tags,
                original_event_room_id: self.original_event_room_id,
                modified_event_room_id: self.modified_event_room_id,
            },
            recording,
        }
    }
}

/// The event room a converted webinar's rooms are tied to it by: the
/// modified event room where there is one, else the event room.
pub fn classroom_event_room(modified_event_room_id: Option<u128>, event_room_id: u128) -> (r: u128)
    ensures
        r == (match modified_event_room_id {
            Some(m) => m,
            None => event_room_id,
        }),
{
    match modified_event_room_id {
        Some(m) => m,
        None => event_room_id,
    }
}

} // verus!
