//! Bodies and queries of the requests that the HTTP interface accepts, and
//! what a request decides before the work is handed on.
use vstd::prelude::*;
use crate::classes::ClassResponseBody;
use crate::properties::{has_entry, KeyValueProperties};
use crate::time::{Bound, BoundedDateTimeTuple};

verus! {

/// The scope a redirect is asked for.
pub struct RedirQuery {
    pub scope: String,
}

/// The kinds of interaction in an event room that can be locked.
#[derive(Clone, Copy, Debug, PartialEq, Eq, Structural)]
pub struct LockedTypes {
    pub message: bool,
    pub reaction: bool,
    pub question: bool,
    pub question_reaction: bool,
}

impl LockedTypes {
    pub open spec fn spec_any_locked(self) -> bool {
        self.message || self.reaction || self.question || self.question_reaction
    }

    /// Whether anything is locked.
    pub fn any_locked(&self) -> (r: bool)
        ensures
            r == self.spec_any_locked(),
    {
        self.message || self.reaction || self.question || self.question_reaction
    }
}

/// Chat is locked in a class unless the request says otherwise.
pub fn default_locked_chat() -> (r: bool)
    ensures
        r,
{
    true
}

/// Questions are open in a class unless the request says otherwise.
pub fn default_locked_questions() -> (r: bool)
    ensures
        !r,
{
    false
}

/// What is locked when chat and questions are locked as asked: a locked chat
/// locks messages and reactions, locked questions lock questions and their
/// reactions.
pub open spec fn spec_locked_types(locked_chat: bool, locked_questions: bool) -> LockedTypes {
    LockedTypes {
        message: locked_chat,
        reaction: locked_chat,
        question: locked_questions,
        question_reaction: locked_questions,
    }
}

/// A request to open a class again, with new rooms.
pub struct ClassRecreatePayload {
    pub time: Option<BoundedDateTimeTuple>,
    pub locked_chat: bool,
    pub locked_questions: bool,
}

/// What recreating a class does: the time its new rooms get and what is then
/// locked in its event room, if anything.
pub struct RecreatePlan {
    pub time: BoundedDateTimeTuple,
    pub lock: Option<LockedTypes>,
}

impl ClassRecreatePayload {
    /// A request with no body: no time, and the default locks.
    pub fn with_defaults() -> (r: ClassRecreatePayload)
        ensures
            r.time is None,
            r.locked_chat,
            !r.locked_questions,
    {
        ClassRecreatePayload {
            time: None,
            locked_chat: default_locked_chat(),
            locked_questions: default_locked_questions(),
        }
    }

    pub fn locked_types(&self) -> (r: LockedTypes)
        ensures
            r == spec_locked_types(self.locked_chat, self.locked_questions),
    {
        LockedTypes {
            message: self.locked_chat,
            reaction: self.locked_chat,
            question: self.locked_questions,
            question_reaction: self.locked_questions,
        }
    }

    /// The class gets the time asked for, or no bounds at all; the event room
    /// is locked only where something is to be locked.
    pub fn plan(&self) -> (r: RecreatePlan)
        ensures
            r.time == (match self.time {
                Some(t) => t,
                None => (Bound::Unbounded, Bound::Unbounded),
            }),
            r.lock == (if spec_locked_types(self.locked_chat, self.locked_questions).spec_any_locked() {
                Some(spec_locked_types(self.locked_chat, self.locked_questions))
            } else {
                None
            }),
    {
        let time = match self.time {
            Some(t) => t,
            None => (Bound::Unbounded, Bound::Unbounded),
        };
        let locked = self.locked_types();
        let lock = if locked.any_locked() {
            Some(locked)
        } else {
            None
        };
        RecreatePlan { time, lock }
    }
}

/// A request to make a copy of a webinar under another scope.
pub struct ReplicaCreatePayload {
    pub scope: String,
    pub audience: String,
}

/// How urgent a transcoding task is.
#[derive(Clone, Copy, Debug, PartialEq, Eq, Structural)]
pub enum Priority {
    Low,
    Normal,
    High,
}

/// A request to transcode a webinar again.
pub struct RestartTranscodingPayload {
    pub priority: Priority,
}

impl Default for RestartTranscodingPayload {
    /// Without a body, the task has normal priority.
    fn default() -> (r: RestartTranscodingPayload)
        ensures
            r.priority == Priority::Normal,
    {
        RestartTranscodingPayload { priority: Priority::Normal }
    }
}

impl RestartTranscodingPayload {
    /// The priority of the task: the one asked for, or the default.
    pub fn priority_of(payload: Option<RestartTranscodingPayload>) -> (r: Priority)
        ensures
            r == (match payload {
                Some(p) => p.priority,
                None => Priority::Normal,
            }),
    {
        match payload {
            Some(p) => p.priority,
            None => RestartTranscodingPayload::default().priority,
        }
    }
}

/// Which class and account properties a reader wants to see.
#[derive(Default)]
pub struct PropertyFilters {
    pub class_keys: Option<Vec<String>>,
    pub account_keys: Option<Vec<String>>,
}

/// The keys of a filter; a missing filter lets no key through.
pub open spec fn filter_keys(keys: Option<Vec<String>>) -> Seq<Seq<char>> {
    match keys {
        Some(v) => v@.map_values(|s: String| s@),
        None => Seq::empty(),
    }
}

impl PropertyFilters {
    /// Shows the reader only the class properties, and those of the reader's
    /// account, whose keys the filters name; without an account nothing of
    /// it is shown.
    pub fn apply(
        self,
        body: &mut ClassResponseBody,
        account_properties: Option<KeyValueProperties>,
    )
        requires
            old(body).properties.well_formed(),
            account_properties matches Some(a) ==> a.well_formed(),
        ensures
            final(body).properties.well_formed(),
            forall|k: Seq<char>, v: Seq<char>|
                has_entry(final(body).properties.entries@, k, v) <==> (has_entry(
                    old(body).properties.entries@,
                    k,
                    v,
                ) && filter_keys(self.class_keys).contains(k)),
            match account_properties {
                Some(a) => forall|k: Seq<char>, v: Seq<char>|
                    has_entry(final(body).account_properties.entries@, k, v) <==> (has_entry(
                        a.entries@,
                        k,
                        v,
                    ) && filter_keys(self.account_keys).contains(k)),
                None => final(body).account_properties == old(body).account_properties,
            },
            final(body).others_as(&*old(body)),
    {
        let class_keys = match self.class_keys {
            Some(v) => v,
            None => Vec::new(),
        };
        proof {
            assert(class_keys@.map_values(|s: String| s@) =~= filter_keys(self.class_keys));
        }
        body.filter_class_properties(&class_keys);
        if let Some(account) = account_properties {
            let account_keys = match self.account_keys {
                Some(v) => v,
                None => Vec::new(),
            };
            proof {
                assert(account_keys@.map_values(|s: String| s@) =~= filter_keys(self.account_keys));
            }
            body.set_account_properties(account, &account_keys);
        }
    }
}

} // verus!
