//! What a class looks like to its clients: its rooms, recordings, status,
//! turn server and properties.
use vstd::prelude::*;
use crate::ids::{uuid_text, uuid_to_string};
use crate::postprocessing::{ClassType, Recording};
use crate::properties::{has_entry, KeyValueProperties};
use crate::time::{Bound, BoundedDateTimeTuple, Moment};

verus! {

/// A turn server's host name.
pub struct TurnHost(pub String);

/// A class as stored. Tags are held as their JSON text.
pub struct Class {
    pub id: u128,
    pub kind: ClassType,
    pub scope: String,
    pub audience: String,
    pub time: BoundedDateTimeTuple,
    pub conference_room_id: u128,
    pub event_room_id: u128,
    pub original_event_room_id: Option<u128>,
    pub modified_event_room_id: Option<u128>,
    pub original_class_id: Option<u128>,
    pub content_id: Option<String>,
    pub timed_out: bool,
    pub room_events_uri: Option<String>,
    pub tags: Option<String>,
    pub reserve: Option<i32>,
    pub properties: KeyValueProperties,
}

impl Class {
    /// The moment the class ends, if it has an end.
    pub open spec fn end(&self) -> Option<Moment> {
        match self.time.1 {
            Bound::Included(m) => Some(m),
            Bound::Excluded(m) => Some(m),
            Bound::Unbounded => None,
        }
    }
}

/// A version of a recorded class that can be watched.
pub struct ClassroomVersion {
    pub version: &'static str,
    pub event_room_id: u128,
    pub stream_id: u128,
    pub tags: Option<String>,
    pub room_events_uri: Option<String>,
}

/// The rooms of a class while it takes place.
pub struct RealTimeObject {
    pub conference_room_id: u128,
    pub event_room_id: u128,
    pub fallback_uri: Option<String>,
    pub rtc_id: Option<u128>,
}

impl RealTimeObject {
    pub fn set_rtc_id(&mut self, rtc_id: u128)
        ensures
            final(self).rtc_id == Some(rtc_id),
            final(self).conference_room_id == old(self).conference_room_id,
            final(self).event_room_id == old(self).event_room_id,
            final(self).fallback_uri == old(self).fallback_uri,
    {
        self.rtc_id = Some(rtc_id);
    }
}

/// Where a class stands.
#[derive(Clone, Copy, Debug, PartialEq, Eq, Structural)]
pub enum ClassStatus {
    Transcoded,
    Adjusted,
    Finished,
    RealTime,
    Closed,
}

/// A class as its clients read it.
pub struct ClassResponseBody {
    pub class_id: u128,
    pub id: String,
    pub real_time: RealTimeObject,
    pub on_demand: Vec<ClassroomVersion>,
    pub status: Option<ClassStatus>,
    pub timed_out: bool,
    pub position: Option<i32>,
    pub turn_host: TurnHost,
    pub content_id: String,
    pub properties: KeyValueProperties,
    pub account_properties: KeyValueProperties,
}

impl ClassResponseBody {
    /// Everything but the status, the recording id, the versions and the position.
    pub open spec fn same_base(&self, other: &ClassResponseBody) -> bool {
        &&& self.class_id == other.class_id
        &&& self.id@ == other.id@
        &&& self.real_time.conference_room_id == other.real_time.conference_room_id
        &&& self.real_time.event_room_id == other.real_time.event_room_id
        &&& self.timed_out == other.timed_out
        &&& self.content_id@ == other.content_id@
        &&& self.properties == other.properties
        &&& self.account_properties == other.account_properties
        &&& self.turn_host == other.turn_host
    }

    /// Every field but the class and account properties is as in `other`.
    pub open spec fn others_as(&self, other: &ClassResponseBody) -> bool {
        &&& self.class_id == other.class_id
        &&& self.id@ == other.id@
        &&& self.real_time == other.real_time
        &&& self.on_demand@ == other.on_demand@
        &&& self.status == other.status
        &&& self.timed_out == other.timed_out
        &&& self.position == other.position
        &&& self.turn_host == other.turn_host
        &&& self.content_id@ == other.content_id@
    }

    /// The body of a class before anything about its recordings is known:
    /// the id is that of the class it was copied from, if any; the content
    /// id defaults to the displayed class id.
    pub fn new(obj: &Class, turn_host: TurnHost) -> (r: ClassResponseBody)
        requires
            obj.properties.well_formed(),
        ensures
            r.class_id == (match obj.original_class_id {
                Some(c) => c,
                None => obj.id,
            }),
            r.id@ == obj.scope@,
            r.real_time.conference_room_id == obj.conference_room_id,
            r.real_time.event_room_id == obj.event_room_id,
            r.real_time.rtc_id is None,
            r.real_time.fallback_uri is None,
            r.on_demand@.len() == 0,
            r.status is None,
            r.timed_out == obj.timed_out,
            r.position is None,
            r.turn_host == turn_host,
            r.content_id@ == (match obj.content_id {
                Some(c) => c@,
                None => uuid_text(r.class_id),
            }),
            r.properties.well_formed(),
            forall|k: Seq<char>, v: Seq<char>|
                has_entry(r.properties.entries@, k, v) == has_entry(obj.properties.entries@, k, v),
            r.account_properties.entries@.len() == 0,
    {
        let class_id = match obj.original_class_id {
            Some(c) => c,
            None => obj.id,
        };
        let content_id = match &obj.content_id {
            Some(c) => c.clone(),
            None => uuid_to_string(class_id),
        };
        let properties = obj.properties.duplicate();
        ClassResponseBody {
            class_id,
            id: obj.scope.clone(),
            real_time: RealTimeObject {
                conference_room_id: obj.conference_room_id,
                event_room_id: obj.event_room_id,
                rtc_id: None,
                fallback_uri: None,
            },
            on_demand: Vec::new(),
            status: None,
            timed_out: obj.timed_out,
            position: None,
            turn_host,
            content_id,
            properties,
            account_properties: KeyValueProperties::new(),
        }
    }

    pub fn add_version(&mut self, version: ClassroomVersion)
        ensures
            final(self).on_demand@ == old(self).on_demand@.push(version),
            final(self).status == old(self).status,
            final(self).position == old(self).position,
            final(self).real_time.rtc_id == old(self).real_time.rtc_id,
            final(self).same_base(&*old(self)),
    {
        self.on_demand.push(version);
    }

    pub fn set_status(&mut self, status: ClassStatus)
        ensures
            final(self).status == Some(status),
            final(self).on_demand@ == old(self).on_demand@,
            final(self).position == old(self).position,
            final(self).real_time.rtc_id == old(self).real_time.rtc_id,
            final(self).same_base(&*old(self)),
    {
        self.status = Some(status);
    }

    pub fn set_rtc_id(&mut self, rtc_id: u128)
        ensures
            final(self).real_time.rtc_id == Some(rtc_id),
            final(self).on_demand@ == old(self).on_demand@,
            final(self).status == old(self).status,
            final(self).position == old(self).position,
            final(self).same_base(&*old(self)),
    {
        self.real_time.set_rtc_id(rtc_id);
    }

    pub fn set_position(&mut self, position_secs: i32)
        ensures
            final(self).position == Some(position_secs),
            final(self).on_demand@ == old(self).on_demand@,
            final(self).status == old(self).status,
            final(self).real_time.rtc_id == old(self).real_time.rtc_id,
            final(self).same_base(&*old(self)),
    {
        self.position = Some(position_secs);
    }

    /// Keeps only the class properties with the given keys.
    pub fn filter_class_properties(&mut self, keys: &Vec<String>)
        requires
            old(self).properties.well_formed(),
        ensures
            final(self).properties.well_formed(),
            forall|k: Seq<char>, v: Seq<char>|
                has_entry(final(self).properties.entries@, k, v) <==> (has_entry(
                    old(self).properties.entries@,
                    k,
                    v,
                ) && keys@.map_values(|s: String| s@).contains(k)),
            final(self).account_properties == old(self).account_properties,
            final(self).others_as(&*old(self)),
    {
        let mut props = KeyValueProperties::new();
        std::mem::swap(&mut props, &mut self.properties);
        self.properties = props.restricted_to(keys);
    }

    /// Shows those of the account's properties that have the given keys.
    pub fn set_account_properties(&mut self, account_properties: KeyValueProperties, keys: &Vec<String>)
        requires
            account_properties.well_formed(),
        ensures
            final(self).account_properties.well_formed(),
            forall|k: Seq<char>, v: Seq<char>|
                has_entry(final(self).account_properties.entries@, k, v) <==> (has_entry(
                    account_properties.entries@,
                    k,
                    v,
                ) && keys@.map_values(|s: String| s@).contains(k)),
            final(self).properties == old(self).properties,
            final(self).others_as(&*old(self)),
    {
        self.account_properties = account_properties.restricted_to(keys);
    }
}

/// Texts of optional strings.
pub open spec fn opt_text(s: Option<String>) -> Option<Seq<char>> {
    match s {
        Some(x) => Some(x@),
        None => None,
    }
}

/// `v` is the named version of the class with the given stream and event room.
pub open spec fn version_is(
    v: ClassroomVersion,
    name: Seq<char>,
    stream_id: u128,
    event_room_id: u128,
    tags: Option<Seq<char>>,
    room_events_uri: Option<Seq<char>>,
) -> bool {
    &&& v.version@ == name
    &&& v.stream_id == stream_id
    &&& v.event_room_id == event_room_id
    &&& opt_text(v.tags) == tags
    &&& opt_text(v.room_events_uri) == room_events_uri
}

pub(crate) fn copy_opt(s: &Option<String>) -> (r: Option<String>)
    ensures
        opt_text(r) == opt_text(*s),
{
    match s {
        Some(x) => Some(x.clone()),
        None => None,
    }
}

/// The status of a class given its first recording, if any: transcoded,
/// adjusted or finished once recorded; without a recording, closed once its
/// end has passed and real-time before.
pub open spec fn spec_status(class: &Class, first: Option<&Recording>, now: Moment) -> ClassStatus {
    match first {
        Some(rec) => if rec.transcoded_at is Some {
            ClassStatus::Transcoded
        } else if rec.adjusted_at is Some {
            ClassStatus::Adjusted
        } else {
            ClassStatus::Finished
        },
        None => if class.end() matches Some(t) && now.key() > t.key() {
            ClassStatus::Closed
        } else {
            ClassStatus::RealTime
        },
    }
}

/// The status of a recorded class follows its first recording alone, not
/// the class or the time of reading: transcoded once the recording has been
/// transcoded, whether or not it was adjusted; adjusted when it was adjusted
/// but not yet transcoded; finished when it was neither.
pub proof fn lemma_recorded_status(c1: Class, c2: Class, rec: Recording, now1: Moment, now2: Moment)
    ensures
        spec_status(&c1, Some(&rec), now1) == spec_status(&c2, Some(&rec), now2),
        rec.transcoded_at is Some ==> spec_status(&c1, Some(&rec), now1) == ClassStatus::Transcoded,
        rec.transcoded_at is None && rec.adjusted_at is Some ==> spec_status(&c1, Some(&rec), now1)
            == ClassStatus::Adjusted,
        rec.transcoded_at is None && rec.adjusted_at is None ==> spec_status(&c1, Some(&rec), now1)
            == ClassStatus::Finished,
{
}

/// A class with no recording is closed once its end has passed, and takes
/// place in real time before that or when it has no end.
pub proof fn lemma_unrecorded_status(class: Class, now: Moment)
    ensures
        spec_status(&class, None, now) == ClassStatus::Closed || spec_status(&class, None, now)
            == ClassStatus::RealTime,
        spec_status(&class, None, now) == ClassStatus::Closed <==> (class.end() matches Some(t)
            && t.key() < now.key()),
{
}

impl ClassResponseBody {
    /// Completes the body with what the first recording of the class tells:
    /// the original version once recorded (where the class has an original
    /// event room), the modified version and the viewer's position once
    /// transcoded, the recording's rtc, and the status.
    pub fn record_state(
        &mut self,
        class: &Class,
        first_recording: Option<&Recording>,
        position: Option<i32>,
        now: Moment,
    )
        requires
            now.well_formed(),
            class.end() matches Some(t) ==> t.well_formed(),
        ensures
            final(self).same_base(&*old(self)),
            final(self).status == Some(spec_status(class, first_recording, now)),
            match first_recording {
                None => {
                    &&& final(self).on_demand@ == old(self).on_demand@
                    &&& final(self).real_time.rtc_id == old(self).real_time.rtc_id
                    &&& final(self).position == old(self).position
                },
                Some(rec) => {
                    let transcoded = rec.transcoded_at is Some;
                    let n = old(self).on_demand@.len();
                    let with_original = if class.original_event_room_id is Some {
                        n + 1
                    } else {
                        n
                    };
                    let with_modified = if transcoded && class.modified_event_room_id is Some {
                        with_original + 1
                    } else {
                        with_original
                    };
                    &&& final(self).on_demand@.len() == with_modified
                    &&& final(self).on_demand@.take(n as int) == old(self).on_demand@
                    &&& (class.original_event_room_id matches Some(og) ==> version_is(
                        final(self).on_demand@[n as int],
                        "original"@,
                        rec.rtc_id,
                        og,
                        opt_text(class.tags),
                        None,
                    ))
                    &&& (transcoded ==> (class.modified_event_room_id matches Some(md) ==> version_is(
                        final(self).on_demand@[with_original as int],
                        "modified"@,
                        rec.rtc_id,
                        md,
                        opt_text(class.tags),
                        opt_text(class.room_events_uri),
                    )))
                    &&& final(self).real_time.rtc_id == Some(rec.rtc_id)
                    &&& final(self).position == (if transcoded && position is Some {
                        position
                    } else {
                        old(self).position
                    })
                },
            },
    {
        match first_recording {
            Some(recording) => {
                if let Some(og_event_id) = class.original_event_room_id {
                    self.add_version(
                        ClassroomVersion {
                            version: "original",
                            stream_id: recording.rtc_id,
                            event_room_id: og_event_id,
                            tags: copy_opt(&class.tags),
                            room_events_uri: None,
                        },
                    );
                }
                self.set_rtc_id(recording.rtc_id);
                if recording.transcoded_at.is_some() {
                    if let Some(md_event_id) = class.modified_event_room_id {
                        self.add_version(
                            ClassroomVersion {
                                version: "modified",
                                stream_id: recording.rtc_id,
                                event_room_id: md_event_id,
                                tags: copy_opt(&class.tags),
                                room_events_uri: copy_opt(&class.room_events_uri),
                            },
                        );
                    }
                    if let Some(pos) = position {
                        self.set_position(pos);
                    }
                    self.set_status(ClassStatus::Transcoded);
                } else if recording.adjusted_at.is_some() {
                    self.set_status(ClassStatus::Adjusted);
                } else {
                    self.set_status(ClassStatus::Finished);
                }
            },
            None => {
                let closed = match class.time.1 {
                    Bound::Included(t) => !now.le(&t),
                    Bound::Excluded(t) => !now.le(&t),
                    Bound::Unbounded => false,
                };
                if closed {
                    self.set_status(ClassStatus::Closed);
                } else {
                    self.set_status(ClassStatus::RealTime);
                }
            },
        }
    }
}

} // verus!
