//! What a finished transcoding announces: the event that a class's
//! recording is ready.
use vstd::prelude::*;
use crate::classes::{copy_opt, opt_text, Class};
use crate::events::audience_events_path;
use crate::postprocessing::{accepts_transcoding, PostprocessingError, Strategy, TranscodeSuccess};

verus! {

/// The event announcing that a class's recording is ready, and where it is
/// broadcast to. The stream fields are a webinar's only.
pub struct ReadyEvent {
    pub label: &'static str,
    pub path: String,
    pub id: u128,
    pub scope: String,
    pub tags: Option<String>,
    pub status: &'static str,
    pub stream_duration: u64,
    pub stream_id: Option<u128>,
    pub stream_uri: Option<String>,
    pub event_room_id: Option<u128>,
}

/// The ready event of a class whose transcoding finished, its recording
/// lasting `stream_duration` whole seconds: `minigroup.ready` or
/// `webinar.ready` with status `success`, broadcast to the class's
/// audience; a result of the other flow's template is refused.
pub fn ready_event(strategy: Strategy, class: &Class, result: &TranscodeSuccess, stream_duration: u64) -> (r:
    Result<ReadyEvent, PostprocessingError>)
    ensures
        match (strategy, result) {
            (Strategy::Minigroup, TranscodeSuccess::TranscodeMinigroupToHls(_)) => r matches Ok(e) && {
                &&& e.label@ == "minigroup.ready"@
                &&& e.stream_id is None && e.stream_uri is None && e.event_room_id is None
                &&& same_base(e, class, stream_duration)
            },
            (Strategy::Webinar, TranscodeSuccess::TranscodeStreamToHls(s)) => r matches Ok(e) && {
                &&& e.label@ == "webinar.ready"@
                &&& e.stream_id == Some(s.stream_id)
                &&& opt_text(e.stream_uri) == Some(s.stream_uri@)
                &&& e.event_room_id == Some(s.event_room_id)
                &&& same_base(e, class, stream_duration)
            },
            _ => r == Err::<ReadyEvent, PostprocessingError>(PostprocessingError::UnexpectedTranscodingResult),
        },
{
    match accepts_transcoding(strategy, result) {
        Err(e) => Err(e),
        Ok(()) => {
            let path = audience_events_path(class.audience.as_str());
            match result {
                TranscodeSuccess::TranscodeMinigroupToHls(_) => Ok(ReadyEvent {
                    label: "minigroup.ready",
                    path,
                    id: class.id,
                    scope: class.scope.clone(),
                    tags: copy_opt(&class.tags),
                    status: "success",
                    stream_duration,
                    stream_id: None,
                    stream_uri: None,
                    event_room_id: None,
                }),
                TranscodeSuccess::TranscodeStreamToHls(s) => Ok(ReadyEvent {
                    label: "webinar.ready",
                    path,
                    id: class.id,
                    scope: class.scope.clone(),
                    tags: copy_opt(&class.tags),
                    status: "success",
                    stream_duration,
                    stream_id: Some(s.stream_id),
                    stream_uri: Some(s.stream_uri.clone()),
                    event_room_id: Some(s.event_room_id),
                }),
            }
        },
    }
}

/// The fields every ready event has: the class's id, scope and tags, the
/// status `success`, the duration, and the class's audience events path.
pub open spec fn same_base(e: ReadyEvent, class: &Class, stream_duration: u64) -> bool {
    &&& e.path@ == "audiences/"@ + class.audience@ + "/events"@
    &&& e.id == class.id
    &&& e.scope@ == class.scope@
    &&& opt_text(e.tags) == opt_text(class.tags)
    &&& e.status@ == "success"@
    &&& e.stream_duration == stream_duration
}

} // verus!
