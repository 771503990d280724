//! The event and conference rooms of a class: the times they are opened
//! with, and the updates sent to them when a class changes.
use vstd::prelude::*;
use crate::postprocessing::AgentId;
use crate::time::{Bound, BoundedDateTimeTuple, Moment};

verus! {

/// An update of a conference room; a field left out is left unchanged.
pub struct ConfRoomUpdate {
    pub time: Option<BoundedDateTimeTuple>,
    pub reserve: Option<i32>,
    pub classroom_id: Option<u128>,
    pub host: Option<AgentId>,
}

/// An update of an event room; a field left out is left unchanged.
pub struct EventRoomUpdate {
    pub time: Option<BoundedDateTimeTuple>,
    pub classroom_id: Option<u128>,
}

impl ConfRoomUpdate {
    pub open spec fn spec_is_empty(&self) -> bool {
        self.time is None && self.reserve is None && self.classroom_id is None && self.host is None
    }

    /// Whether the update changes nothing.
    pub fn is_empty_update(&self) -> (r: bool)
        ensures
            r == self.spec_is_empty(),
    {
        self.time.is_none() && self.reserve.is_none() && self.classroom_id.is_none()
            && self.host.is_none()
    }
}

impl EventRoomUpdate {
    pub open spec fn spec_is_empty(&self) -> bool {
        self.time is None && self.classroom_id is None
    }

    /// Whether the update changes nothing.
    pub fn is_empty_update(&self) -> (r: bool)
        ensures
            r == self.spec_is_empty(),
    {
        self.time.is_none() && self.classroom_id.is_none()
    }
}

/// A change of a class asked for by a client.
pub struct ClassUpdate {
    pub time: Option<BoundedDateTimeTuple>,
    pub reserve: Option<i32>,
    pub host: Option<AgentId>,
}

/// The time a conference room gets for a class time: it opens when the class
/// starts, whether the start belongs to the class or not, and ends with it; a
/// class without a start leaves the room open at both ends.
pub open spec fn spec_conference_time(time: BoundedDateTimeTuple) -> BoundedDateTimeTuple {
    match time.0 {
        Bound::Included(t) => (Bound::Included(t), time.1),
        Bound::Excluded(t) => (Bound::Included(t), time.1),
        Bound::Unbounded => (Bound::Unbounded, Bound::Unbounded),
    }
}

/// The time of a conference room for a class time.
pub fn conference_time(time: &BoundedDateTimeTuple) -> (r: BoundedDateTimeTuple)
    ensures
        r == spec_conference_time(*time),
{
    match time.0 {
        Bound::Included(t) => (Bound::Included(t), time.1),
        Bound::Excluded(t) => (Bound::Included(t), time.1),
        Bound::Unbounded => (Bound::Unbounded, Bound::Unbounded),
    }
}

/// A conference room opens at the moment the class starts, the start being
/// part of the room's time whether or not it is part of the class's, and
/// ends as the class ends; for a class with no start the room is open at
/// both ends.
pub proof fn lemma_conference_time(time: BoundedDateTimeTuple)
    ensures
        ({
            let r = spec_conference_time(time);
            &&& crate::time::spec_bound_moment(r.0) == crate::time::spec_bound_moment(time.0)
            &&& r.0 !is Excluded
            &&& time.0 !is Unbounded ==> r.1 == time.1
            &&& time.0 is Unbounded ==> r.1 is Unbounded
        }),
{
}

/// An event room opened at a moment includes that moment and never ends.
pub proof fn lemma_event_time(now: Moment)
    ensures
        spec_event_time(now).0 == Bound::Included(now),
        spec_event_time(now).1 is Unbounded,
{
}

/// An event room is opened from now on, with no end.
pub open spec fn spec_event_time(now: Moment) -> BoundedDateTimeTuple {
    (Bound::Included(now), Bound::Unbounded)
}

fn copy_agent(a: &Option<AgentId>) -> (r: Option<AgentId>)
    ensures
        r is Some <==> a is Some,
        r is Some ==> r.unwrap().parts() == a.unwrap().parts(),
{
    match a {
        Some(x) => Some(x.duplicate()),
        None => None,
    }
}

/// The update that a change of a class makes to its conference room, and the
/// room, unless the change leaves the room as it is.
pub fn get_conference_update(conference_room_id: u128, update: &ClassUpdate) -> (r: Option<
    (u128, ConfRoomUpdate),
>)
    ensures
        (r is None) <==> (update.time is None && update.reserve is None && update.host is None),
        r matches Some((id, u)) ==> {
            &&& id == conference_room_id
            &&& u.time == (match update.time {
                Some(t) => Some(spec_conference_time(t)),
                None => None,
            })
            &&& u.reserve == update.reserve
            &&& u.classroom_id is None
            &&& (u.host is Some <==> update.host is Some)
            &&& (u.host is Some ==> u.host.unwrap().parts() == update.host.unwrap().parts())
        },
{
    let time = match &update.time {
        Some(t) => Some(conference_time(t)),
        None => None,
    };
    let conf_update = ConfRoomUpdate {
        time,
        reserve: update.reserve,
        classroom_id: None,
        host: copy_agent(&update.host),
    };
    if conf_update.is_empty_update() {
        None
    } else {
        Some((conference_room_id, conf_update))
    }
}

/// The update that a change of a class makes to its event room: a new time
/// reopens the room from now on; other changes leave the room as it is.
pub fn get_event_update(event_room_id: u128, update: &ClassUpdate, now: Moment) -> (r: Option<
    (u128, EventRoomUpdate),
>)
    ensures
        (r is None) <==> (update.time is None),
        r matches Some((id, u)) ==> {
            &&& id == event_room_id
            &&& u.time == Some(spec_event_time(now))
            &&& u.classroom_id is None
        },
{
    let ev_update = EventRoomUpdate {
        time: match update.time {
            Some(_) => Some((Bound::Included(now), Bound::Unbounded)),
            None => None,
        },
        classroom_id: None,
    };
    if ev_update.is_empty_update() {
        None
    } else {
        Some((event_room_id, ev_update))
    }
}

/// The times a new class's rooms are opened with: the event room from now
/// on; the conference room from the start of the class (from now where it
/// has none), with no end.
pub fn new_room_times(time: &BoundedDateTimeTuple, now: Moment) -> (r: (
    BoundedDateTimeTuple,
    BoundedDateTimeTuple,
))
    ensures
        r.0 == spec_event_time(now),
        r.1 == (match time.0 {
            Bound::Included(t) => (Bound::Included(t), Bound::Unbounded),
            Bound::Excluded(t) => (Bound::Included(t), Bound::Unbounded),
            Bound::Unbounded => (Bound::Included(now), Bound::Unbounded),
        }),
{
    let conference = match time.0 {
        Bound::Included(t) => (Bound::Included(t), Bound::Unbounded),
        Bound::Excluded(t) => (Bound::Included(t), Bound::Unbounded),
        Bound::Unbounded => (Bound::Included(now), Bound::Unbounded),
    };
    ((Bound::Included(now), Bound::Unbounded), conference)
}

/// The updates that tie both rooms to their class.
pub fn classroom_id_updates(classroom_id: u128) -> (r: (EventRoomUpdate, ConfRoomUpdate))
    ensures
        r.0.time is None,
        r.0.classroom_id == Some(classroom_id),
        r.1.time is None,
        r.1.reserve is None,
        r.1.classroom_id == Some(classroom_id),
        r.1.host is None,
{
    (
        EventRoomUpdate { time: None, classroom_id: Some(classroom_id) },
        ConfRoomUpdate { time: None, reserve: None, classroom_id: Some(classroom_id), host: None },
    )
}

} // verus!
