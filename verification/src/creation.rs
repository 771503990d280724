//! Creating classes: the row that stands for a new class until its rooms
//! exist, and what becomes of it once the rooms have been asked for.
use vstd::prelude::*;
use crate::classes::{copy_opt, Class};
use crate::error::AppError;
use crate::postprocessing::ClassType;
use crate::properties::{has_entry, KeyValueProperties};
use crate::requests::{spec_locked_types, LockedTypes};
use crate::time::{Bound, BoundedDateTimeTuple};

verus! {

/// A class to be stored. Tags are held as their JSON text.
pub struct ClassInsert {
    pub kind: ClassType,
    pub scope: String,
    pub audience: String,
    pub time: BoundedDateTimeTuple,
    pub tags: Option<String>,
    pub properties: KeyValueProperties,
    pub reserve: Option<i32>,
    pub preserve_history: bool,
    pub original_class_id: Option<u128>,
}

/// What the stored class is tied to once its rooms exist, besides the rooms.
#[derive(Clone, Copy, Debug, PartialEq, Eq, Structural)]
pub enum OriginalClass {
    /// Nothing.
    Unset,
    /// The class itself.
    Itself,
    /// The class it is a copy of.
    Class(u128),
}

/// What is done in the new event room once it exists.
#[derive(Clone, Copy, Debug, PartialEq, Eq, Structural)]
pub enum FollowUp {
    Nothing,
    LockChat,
    Lock(LockedTypes),
    CreateWhiteboard,
}

/// How a class is created: the class to store, the time its rooms are asked
/// for, what ties it once they exist, and what is then done in its event room.
pub struct CreationPlan {
    pub insert: ClassInsert,
    pub rooms_time: BoundedDateTimeTuple,
    /// The event room the class shares with another, where it gets no event
    /// room of its own (only a conference room is then asked for).
    pub shared_event_room: Option<u128>,
    pub original: OriginalClass,
    pub follow_up: FollowUp,
}

/// A time, or no bounds at all where none is given.
pub open spec fn time_or_unbounded(t: Option<BoundedDateTimeTuple>) -> BoundedDateTimeTuple {
    match t {
        Some(t) => t,
        None => (Bound::Unbounded, Bound::Unbounded),
    }
}

/// A class created with a time keeps it; one created without has neither a
/// start nor an end.
pub proof fn lemma_creation_time(t: Option<BoundedDateTimeTuple>)
    ensures
        t matches Some(x) ==> time_or_unbounded(t) == x,
        t is None ==> time_or_unbounded(t).0 is Unbounded && time_or_unbounded(t).1 is Unbounded,
{
}

/// Locking the chat of a class locks its messages and their reactions,
/// locking its questions locks the questions and their reactions, and
/// something is locked exactly when either is asked.
pub proof fn lemma_locked_types(locked_chat: bool, locked_questions: bool)
    ensures
        ({
            let l = spec_locked_types(locked_chat, locked_questions);
            &&& l.message == locked_chat && l.reaction == locked_chat
            &&& l.question == locked_questions && l.question_reaction == locked_questions
            &&& l.spec_any_locked() <==> (locked_chat || locked_questions)
        }),
{
}

fn unbounded_unless(t: Option<BoundedDateTimeTuple>) -> (r: BoundedDateTimeTuple)
    ensures
        r == time_or_unbounded(t),
{
    match t {
        Some(t) => t,
        None => (Bound::Unbounded, Bound::Unbounded),
    }
}

/// A request to create a minigroup.
pub struct MinigroupCreatePayload {
    pub scope: String,
    pub audience: String,
    pub time: Option<BoundedDateTimeTuple>,
    pub tags: Option<String>,
    pub properties: KeyValueProperties,
    pub reserve: Option<i32>,
    pub locked_chat: bool,
}

impl MinigroupCreatePayload {
    /// A minigroup keeps its history, is tied to itself, and has its chat
    /// locked if asked.
    pub fn plan(self) -> (r: CreationPlan)
        ensures
            r.insert.kind == ClassType::Minigroup,
            r.insert.scope@ == self.scope@,
            r.insert.audience@ == self.audience@,
            r.insert.time == time_or_unbounded(self.time),
            r.insert.tags == self.tags,
            r.insert.properties == self.properties,
            r.insert.reserve == self.reserve,
            r.insert.preserve_history,
            r.insert.original_class_id is None,
            r.rooms_time == time_or_unbounded(self.time),
            r.shared_event_room is None,
            r.original == OriginalClass::Itself,
            r.follow_up == (if self.locked_chat {
                FollowUp::LockChat
            } else {
                FollowUp::Nothing
            }),
    {
        let time = unbounded_unless(self.time);
        CreationPlan {
            insert: ClassInsert {
                kind: ClassType::Minigroup,
                scope: self.scope,
                audience: self.audience,
                time,
                tags: self.tags,
                properties: self.properties,
                reserve: self.reserve,
                preserve_history: true,
                original_class_id: None,
            },
            rooms_time: time,
            shared_event_room: None,
            original: OriginalClass::Itself,
            follow_up: if self.locked_chat {
                FollowUp::LockChat
            } else {
                FollowUp::Nothing
            },
        }
    }
}

/// A request to create a webinar.
pub struct WebinarCreatePayload {
    pub scope: String,
    pub audience: String,
    pub time: Option<BoundedDateTimeTuple>,
    pub tags: Option<String>,
    pub properties: KeyValueProperties,
    pub reserve: Option<i32>,
    pub locked_chat: bool,
    pub locked_questions: bool,
}

impl WebinarCreatePayload {
    pub fn locked_types(&self) -> (r: LockedTypes)
        ensures
            r == spec_locked_types(self.locked_chat, self.locked_questions),
    {
        LockedTypes {
            message: self.locked_chat,
            reaction: self.locked_chat,
            question: self.locked_questions,
            question_reaction: self.locked_questions,
        }
    }

    /// A webinar keeps its history, is tied to nothing else, and has locked
    /// what the request asks to lock, if anything.
    pub fn plan(self) -> (r: CreationPlan)
        ensures
            r.insert.kind == ClassType::Webinar,
            r.insert.scope@ == self.scope@,
            r.insert.audience@ == self.audience@,
            r.insert.time == time_or_unbounded(self.time),
            r.insert.tags == self.tags,
            r.insert.properties == self.properties,
            r.insert.reserve == self.reserve,
            r.insert.preserve_history,
            r.insert.original_class_id is None,
            r.rooms_time == time_or_unbounded(self.time),
            r.shared_event_room is None,
            r.original == OriginalClass::Unset,
            r.follow_up == (if spec_locked_types(
                self.locked_chat,
                self.locked_questions,
            ).spec_any_locked() {
                FollowUp::Lock(spec_locked_types(self.locked_chat, self.locked_questions))
            } else {
                FollowUp::Nothing
            }),
    {
        let locked = self.locked_types();
        let time = unbounded_unless(self.time);
        CreationPlan {
            insert: ClassInsert {
                kind: ClassType::Webinar,
                scope: self.scope,
                audience: self.audience,
                time,
                tags: self.tags,
                properties: self.properties,
                reserve: self.reserve,
                preserve_history: true,
                original_class_id: None,
            },
            rooms_time: time,
            shared_event_room: None,
            original: OriginalClass::Unset,
            follow_up: if locked.any_locked() {
                FollowUp::Lock(locked)
            } else {
                FollowUp::Nothing
            },
        }
    }
}

/// A request to create a p2p class.
pub struct P2PCreatePayload {
    pub scope: String,
    pub audience: String,
    pub tags: Option<String>,
    pub properties: KeyValueProperties,
    pub whiteboard: bool,
}

impl P2PCreatePayload {
    /// A p2p class has no time bounds, keeps its history, and gets a
    /// whiteboard if asked.
    pub fn plan(self) -> (r: CreationPlan)
        ensures
            r.insert.kind == ClassType::P2P,
            r.insert.scope@ == self.scope@,
            r.insert.audience@ == self.audience@,
            r.insert.time == (Bound::Unbounded, Bound::Unbounded),
            r.insert.tags == self.tags,
            r.insert.properties == self.properties,
            r.insert.reserve is None,
            r.insert.preserve_history,
            r.insert.original_class_id is None,
            r.rooms_time == (Bound::Unbounded, Bound::Unbounded),
            r.shared_event_room is None,
            r.original == OriginalClass::Unset,
            r.follow_up == (if self.whiteboard {
                FollowUp::CreateWhiteboard
            } else {
                FollowUp::Nothing
            }),
    {
        CreationPlan {
            insert: ClassInsert {
                kind: ClassType::P2P,
                scope: self.scope,
                audience: self.audience,
                time: (Bound::Unbounded, Bound::Unbounded),
                tags: self.tags,
                properties: self.properties,
                reserve: None,
                preserve_history: true,
                original_class_id: None,
            },
            rooms_time: (Bound::Unbounded, Bound::Unbounded),
            shared_event_room: None,
            original: OriginalClass::Unset,
            follow_up: if self.whiteboard {
                FollowUp::CreateWhiteboard
            } else {
                FollowUp::Nothing
            },
        }
    }
}

/// A copy of a webinar under another scope: a webinar with the original's
/// audience, time, tags, properties and reserve, keeping its history, tied
/// to the original and sharing its event room.
pub fn replica_plan(scope: String, original: &Class) -> (r: CreationPlan)
    ensures
        r.insert.kind == ClassType::Webinar,
        r.insert.scope@ == scope@,
        r.insert.audience@ == original.audience@,
        r.insert.time == original.time,
        r.insert.tags is Some <==> original.tags is Some,
        r.insert.tags is Some ==> r.insert.tags.unwrap()@ == original.tags.unwrap()@,
        forall|k: Seq<char>, v: Seq<char>|
            has_entry(r.insert.properties.entries@, k, v) == has_entry(
                original.properties.entries@,
                k,
                v,
            ),
        original.properties.well_formed() ==> r.insert.properties.well_formed(),
        r.insert.reserve == original.reserve,
        r.insert.preserve_history,
        r.insert.original_class_id == Some(original.id),
        r.rooms_time == original.time,
        r.shared_event_room == Some(original.event_room_id),
        r.original == OriginalClass::Class(original.id),
        r.follow_up == FollowUp::Nothing,
{
    CreationPlan {
        insert: ClassInsert {
            kind: ClassType::Webinar,
            scope,
            audience: original.audience.clone(),
            time: original.time,
            tags: copy_opt(&original.tags),
            properties: original.properties.duplicate(),
            reserve: original.reserve,
            preserve_history: true,
            original_class_id: Some(original.id),
        },
        rooms_time: original.time,
        shared_event_room: Some(original.event_room_id),
        original: OriginalClass::Class(original.id),
        follow_up: FollowUp::Nothing,
    }
}

/// What becomes of a stored class once its rooms have been asked for.
pub enum RoomsOutcome {
    /// The rooms exist: the class is tied to them (and to the class named),
    /// and the follow-up is done in the event room.
    Establish {
        class_id: u128,
        event_room_id: u128,
        conference_room_id: u128,
        original_class_id: Option<u128>,
        follow_up: FollowUp,
    },
    /// A room could not be made: the class is deleted and the request fails
    /// with the error.
    Discard { class_id: u128, error: AppError },
}

/// What becomes of the class `class_id` given the answer to the request for
/// its rooms (the event room's id, then the conference room's).
pub fn after_rooms(
    class_id: u128,
    original: OriginalClass,
    follow_up: FollowUp,
    rooms: Result<(u128, u128), AppError>,
) -> (r: RoomsOutcome)
    ensures
        match rooms {
            Ok((ev, conf)) => r matches RoomsOutcome::Establish {
                class_id: c,
                event_room_id: e,
                conference_room_id: f,
                original_class_id: o,
                follow_up: u,
            } && c == class_id && e == ev && f == conf && u == follow_up && o == (match original {
                OriginalClass::Unset => None,
                OriginalClass::Itself => Some(class_id),
                OriginalClass::Class(id) => Some(id),
            }),
            Err(e) => r matches RoomsOutcome::Discard { class_id: c, error: x } && c == class_id
                && x == e,
        },
{
    match rooms {
        Ok((event_room_id, conference_room_id)) => RoomsOutcome::Establish {
            class_id,
            event_room_id,
            conference_room_id,
            original_class_id: match original {
                OriginalClass::Unset => None,
                OriginalClass::Itself => Some(class_id),
                OriginalClass::Class(id) => Some(id),
            },
            follow_up,
        },
        Err(error) => RoomsOutcome::Discard { class_id, error },
    }
}

} // verus!
