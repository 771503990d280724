//! Which broker counters an observation bumps. The counters themselves live
//! in the metrics registry of the running service.
use vstd::prelude::*;
use crate::error::AppError;
use crate::events::{spec_route, EventHandler};
use crate::text::same_text;

verus! {

/// The event handlers whose outcomes are counted.
#[derive(Clone, Copy, Debug, PartialEq, Eq, Structural)]
pub enum MqttMethod {
    RoomClose,
    RoomUpload,
    RoomAdjust,
    TaskComplete,
    RoomDumpEvents,
    EditionCommit,
}

/// The outcome of a handled event.
#[derive(Clone, Copy, Debug, PartialEq, Eq, Structural)]
pub enum MqttStatus {
    Success,
    Failure,
}

/// The broker counters.
#[derive(Clone, Copy, Debug, PartialEq, Eq, Structural)]
pub enum MqttCounter {
    /// Outcomes of handled events, by handler and outcome.
    Stats(MqttMethod, MqttStatus),
    ConnectionError,
    Disconnect,
    Reconnect,
}

/// The counted handler of an event label.
pub open spec fn spec_method(label: Seq<char>) -> Option<MqttMethod> {
    if label == "room.close"@ {
        Some(MqttMethod::RoomClose)
    } else if label == "room.upload"@ {
        Some(MqttMethod::RoomUpload)
    } else if label == "room.adjust"@ {
        Some(MqttMethod::RoomAdjust)
    } else if label == "task.complete"@ {
        Some(MqttMethod::TaskComplete)
    } else if label == "room.dump_events"@ {
        Some(MqttMethod::RoomDumpEvents)
    } else if label == "edition.commit"@ {
        Some(MqttMethod::EditionCommit)
    } else {
        None
    }
}

/// Observations of the broker connection and of handled events.
pub struct MqttMetrics;

impl MqttMetrics {
    /// The counter a disconnection bumps.
    pub fn observe_disconnect() -> (c: MqttCounter)
        ensures
            c == MqttCounter::Disconnect,
    {
        MqttCounter::Disconnect
    }

    /// The counter a reconnection bumps.
    pub fn observe_reconnect() -> (c: MqttCounter)
        ensures
            c == MqttCounter::Reconnect,
    {
        MqttCounter::Reconnect
    }

    /// The counter a connection error bumps.
    pub fn observe_connection_error() -> (c: MqttCounter)
        ensures
            c == MqttCounter::ConnectionError,
    {
        MqttCounter::ConnectionError
    }

    /// The counter that the outcome of an event handler bumps: the one of the
    /// handler named by the label, for success or failure; events with other
    /// labels, or none, are not counted.
    pub fn observe_event_result(result: &Result<(), AppError>, label: Option<&str>) -> (c: Option<
        MqttCounter,
    >)
        ensures
            c == (match label {
                Some(l) => match spec_method(l@) {
                    Some(m) => Some(
                        MqttCounter::Stats(
                            m,
                            if result is Err {
                                MqttStatus::Failure
                            } else {
                                MqttStatus::Success
                            },
                        ),
                    ),
                    None => None,
                },
                None => None,
            }),
    {
        let l = match label {
            Some(l) => l,
            None => return None,
        };
        let method = if same_text(l, "room.close") {
            MqttMethod::RoomClose
        } else if same_text(l, "room.upload") {
            MqttMethod::RoomUpload
        } else if same_text(l, "room.adjust") {
            MqttMethod::RoomAdjust
        } else if same_text(l, "task.complete") {
            MqttMethod::TaskComplete
        } else if same_text(l, "room.dump_events") {
            MqttMethod::RoomDumpEvents
        } else if same_text(l, "edition.commit") {
            MqttMethod::EditionCommit
        } else {
            return None;
        };
        let status = if result.is_err() {
            MqttStatus::Failure
        } else {
            MqttStatus::Success
        };
        Some(MqttCounter::Stats(method, status))
    }
}

/// How long an authorization took: whole seconds and the nanoseconds past
/// them; a span that runs backwards has negative seconds.
#[derive(Clone, Copy, Debug, PartialEq, Eq, Structural)]
pub struct AuthzElapsed {
    pub secs: i64,
    pub nanos: u32,
}

/// The span, in seconds and nanoseconds, that a finished authorization is
/// recorded with: none for a failed one, nor for a span that runs backwards,
/// which has no unsigned length.
pub open spec fn spec_observation<E>(r: Result<AuthzElapsed, E>) -> Option<(u64, u32)> {
    match r {
        Ok(d) => if d.secs >= 0 {
            Some((d.secs as u64, d.nanos))
        } else {
            None
        },
        Err(_) => None,
    }
}

/// The authorization time histogram.
pub struct AuthMetrics;

impl AuthMetrics {
    /// The span an authorization outcome is recorded with, if any.
    pub fn observation<E>(r: &Result<AuthzElapsed, E>) -> (o: Option<(u64, u32)>)
        ensures
            o == spec_observation(*r),
    {
        match r {
            Ok(d) => if d.secs >= 0 {
                Some((d.secs as u64, d.nanos))
            } else {
                None
            },
            Err(_) => None,
        }
    }
}

/// Recording how long authorizations take.
pub trait AuthorizeMetrics: Sized {
    /// The outcome, unchanged, and the span to record for it.
    fn measure(self) -> (Self, Option<(u64, u32)>);
}

impl<E> AuthorizeMetrics for Result<AuthzElapsed, E> {
    fn measure(self) -> (r: (Self, Option<(u64, u32)>))
        ensures
            r.0 == self,
            r.1 == spec_observation(self),
    {
        let o = AuthMetrics::observation(&self);
        (self, o)
    }
}

/// The counter kind of an event handler.
pub open spec fn handler_method(h: EventHandler) -> MqttMethod {
    match h {
        EventHandler::Close => MqttMethod::RoomClose,
        EventHandler::StreamUpload => MqttMethod::RoomUpload,
        EventHandler::Adjust => MqttMethod::RoomAdjust,
        EventHandler::TaskCompletion => MqttMethod::TaskComplete,
        EventHandler::DumpEvents => MqttMethod::RoomDumpEvents,
        EventHandler::EditionCommit => MqttMethod::EditionCommit,
    }
}

/// Every routed event is counted, under the counter of its handler, and no
/// other event is.
pub proof fn lemma_counted_iff_routed(label: Seq<char>)
    ensures
        spec_method(label) is Some <==> spec_route(Some(label)) is Some,
        spec_route(Some(label)) matches Some((h, _)) ==> spec_method(label) == Some(
            handler_method(h),
        ),
{
}

} // verus!
