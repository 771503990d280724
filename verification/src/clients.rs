//! What the clients of the event and conference services make of their
//! answers.
use vstd::prelude::*;
use crate::ids::{parse_uuid, uuid_parse};

verus! {

/// Why a request to another service failed.
pub enum ClientError {
    /// The request could not be made.
    AgentError(String),
    /// The answer was not what was asked for.
    PayloadError(String),
    /// No answer came in time.
    TimeoutError,
    /// The HTTP request failed.
    HttpError(String),
}

/// The id of a created room, from the `id` field of the answer: there must
/// be one, and it must be an id.
pub fn created_room_id(id: Option<&str>) -> (r: Result<u128, ClientError>)
    ensures
        match id {
            None => r matches Err(ClientError::PayloadError(_)),
            Some(text) => match uuid_parse(text@) {
                Some(v) => r == Ok::<u128, ClientError>(v),
                None => r matches Err(ClientError::PayloadError(_)),
            },
        },
{
    match id {
        None => Err(ClientError::PayloadError("Missing id field in room.create response".to_owned())),
        Some(text) => match parse_uuid(text) {
            Some(v) => Ok(v),
            None => Err(ClientError::PayloadError("Invalid id field in room.create response".to_owned())),
        },
    }
}

/// Whether an update of a room succeeded: only an answer with status 200
/// says so.
pub fn room_update_outcome(status: u16) -> (r: Result<(), ClientError>)
    ensures
        status == 200 ==> r is Ok,
        status != 200 ==> r matches Err(ClientError::PayloadError(_)),
{
    if status == 200 {
        Ok(())
    } else {
        Err(ClientError::PayloadError("Room update returned non 200 status".to_owned()))
    }
}

/// Whether an adjustment of an event room was accepted: only an answer with
/// status 202 says so.
pub fn room_adjust_outcome(status: u16) -> (r: Result<(), ClientError>)
    ensures
        status == 202 ==> r is Ok,
        status != 202 ==> r matches Err(ClientError::PayloadError(_)),
{
    if status == 202 {
        Ok(())
    } else {
        Err(ClientError::PayloadError("Wrong status, expected 202".to_owned()))
    }
}

} // verus!
