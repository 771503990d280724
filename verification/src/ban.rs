//! Banning accounts: the checks before a ban is asked for, and the stages a
//! ban operation goes through as its events come back.
use vstd::prelude::*;

verus! {

/// The last ban operation on an account, as stored.
#[derive(Clone, Copy, Debug, PartialEq, Eq, Structural)]
pub struct BanAccountOp {
    pub last_op_id: i64,
    /// Both the video streaming and the collaboration parts of the
    /// operation have been carried out.
    pub completed: bool,
}

/// Why a ban request is refused.
#[derive(Clone, Copy, Debug, PartialEq, Eq, Structural)]
pub enum BanRequestError {
    /// The requester has not seen the account's last operation.
    OperationIdObsolete,
    /// The account's last operation is still being carried out.
    OperationInProgress,
}

/// A ban may be asked for when the account has had no operation, or when
/// the requester has seen its last operation and that one is complete.
pub fn check_ban_request(last_op: Option<BanAccountOp>, last_seen_op_id: i64) -> (r: Result<
    (),
    BanRequestError,
>)
    ensures
        match last_op {
            None => r is Ok,
            Some(op) => if op.last_op_id != last_seen_op_id {
                r == Err::<(), BanRequestError>(BanRequestError::OperationIdObsolete)
            } else if !op.completed {
                r == Err::<(), BanRequestError>(BanRequestError::OperationInProgress)
            } else {
                r is Ok
            },
        },
{
    if let Some(op) = last_op {
        if op.last_op_id != last_seen_op_id {
            return Err(BanRequestError::OperationIdObsolete);
        }
        if !op.completed {
            return Err(BanRequestError::OperationInProgress);
        }
    }
    Ok(())
}

/// The answer to a question for an account's last ban operation.
pub struct GetLastBanOperationResponse {
    pub last_seen_op_id: i64,
}

/// The id of the account's last ban operation, 0 where there has been none.
pub fn last_ban_operation(last_op: Option<BanAccountOp>) -> (r: GetLastBanOperationResponse)
    ensures
        r.last_seen_op_id == (match last_op {
            Some(op) => op.last_op_id,
            None => 0,
        }),
{
    GetLastBanOperationResponse {
        last_seen_op_id: match last_op {
            Some(op) => op.last_op_id,
            None => 0,
        },
    }
}

/// The stages of a ban operation, which name its events.
#[derive(Clone, Copy, Debug, PartialEq, Eq, Structural)]
pub enum BanStage {
    Intent,
    Accepted,
    Rejected,
    Completed,
}

/// The id of a ban event: the entity type `ban`, the stage and a sequence number.
pub struct EventId {
    pub entity_type: String,
    pub operation: String,
    pub sequence_id: i64,
}

/// The name of a stage in event ids.
pub open spec fn stage_name(stage: BanStage) -> Seq<char> {
    match stage {
        BanStage::Intent => "intent"@,
        BanStage::Accepted => "accepted"@,
        BanStage::Rejected => "rejected"@,
        BanStage::Completed => "completed"@,
    }
}

/// The id of the event of a stage of the operation with the given sequence number.
pub fn ban_event_id(stage: BanStage, sequence_id: i64) -> (r: EventId)
    ensures
        r.entity_type@ == "ban"@,
        r.operation@ == stage_name(stage),
        r.sequence_id == sequence_id,
{
    let operation = match stage {
        BanStage::Intent => "intent",
        BanStage::Accepted => "accepted",
        BanStage::Rejected => "rejected",
        BanStage::Completed => "completed",
    };
    EventId {
        entity_type: "ban".to_owned(),
        operation: operation.to_owned(),
        sequence_id,
    }
}

/// What a ban intent leads to.
#[derive(Clone, Copy, Debug, PartialEq, Eq, Structural)]
pub enum IntentOutcome {
    /// The operation was recorded: a ban starts in the history, or an unban
    /// ends the ban there, and the operation is accepted.
    Accept { ban: bool, last_op_id: i64 },
    /// Another operation got there first: the intent is rejected.
    Reject,
}

/// What a ban intent leads to, given the operation that recording it gave
/// (none where the recorded operation had moved on).
pub fn intent_outcome(recorded: Option<BanAccountOp>, ban: bool) -> (r: IntentOutcome)
    ensures
        r == (match recorded {
            Some(op) => IntentOutcome::Accept { ban, last_op_id: op.last_op_id },
            None => IntentOutcome::Reject,
        }),
{
    match recorded {
        Some(op) => IntentOutcome::Accept { ban, last_op_id: op.last_op_id },
        None => IntentOutcome::Reject,
    }
}

/// What the completion of one part of a ban leads to.
#[derive(Clone, Copy, Debug, PartialEq, Eq, Structural)]
pub enum CompletionOutcome {
    /// No operation was found to update: the event cannot be handled, now or later.
    OperationFailed,
    /// Both parts are done: the operation is completed.
    Finish,
    /// The other part is still to be done.
    Wait,
}

/// What the completion of one part of a ban leads to, given the operation
/// as updated (none where there was none to update).
pub fn completion_outcome(updated: Option<BanAccountOp>) -> (r: CompletionOutcome)
    ensures
        r == (match updated {
            None => CompletionOutcome::OperationFailed,
            Some(op) => if op.completed {
                CompletionOutcome::Finish
            } else {
                CompletionOutcome::Wait
            },
        }),
{
    match updated {
        None => CompletionOutcome::OperationFailed,
        Some(op) => if op.completed {
            CompletionOutcome::Finish
        } else {
            CompletionOutcome::Wait
        },
    }
}

/// A ban operation as stored, with its two parts.
#[derive(Clone, Copy, Debug, PartialEq, Eq, Structural)]
pub struct BanOpRecord {
    pub last_op_id: i64,
    pub video_streaming_banned: bool,
    pub collaboration_banned: bool,
}

/// The two parts of a ban operation.
#[derive(Clone, Copy, Debug, PartialEq, Eq, Structural)]
pub enum BanPart {
    VideoStreaming,
    Collaboration,
}

impl BanOpRecord {
    /// An operation is complete once both of its parts are done.
    pub open spec fn spec_completed(self) -> bool {
        self.video_streaming_banned && self.collaboration_banned
    }

    /// The operation as the checks see it.
    pub fn account_op(&self) -> (r: BanAccountOp)
        ensures
            r.last_op_id == self.last_op_id,
            r.completed == self.spec_completed(),
    {
        BanAccountOp {
            last_op_id: self.last_op_id,
            completed: self.video_streaming_banned && self.collaboration_banned,
        }
    }
}

/// Starting the operation `op_id` on an account whose requester saw the
/// operation `last_seen_op_id` last: an account with none gets a fresh one;
/// the same operation again stays as it is; otherwise a fresh one only
/// follows the operation the requester saw once that is complete, and no
/// operation is started where another got there first.
pub open spec fn spec_start_operation(stored: Option<BanOpRecord>, last_seen_op_id: i64, op_id: i64) -> Option<
    BanOpRecord,
> {
    let fresh = BanOpRecord { last_op_id: op_id, video_streaming_banned: false, collaboration_banned: false };
    match stored {
        None => Some(fresh),
        Some(op) => if op.last_op_id == op_id {
            Some(op)
        } else if op.last_op_id == last_seen_op_id && op.spec_completed() {
            Some(fresh)
        } else {
            None
        },
    }
}

/// Starts a ban operation on the stored one, if it can be started.
pub fn start_operation(stored: Option<BanOpRecord>, last_seen_op_id: i64, op_id: i64) -> (r: Option<
    BanOpRecord,
>)
    ensures
        r == spec_start_operation(stored, last_seen_op_id, op_id),
{
    let fresh = BanOpRecord { last_op_id: op_id, video_streaming_banned: false, collaboration_banned: false };
    match stored {
        None => Some(fresh),
        Some(op) => if op.last_op_id == op_id {
            Some(op)
        } else if op.last_op_id == last_seen_op_id && op.video_streaming_banned
            && op.collaboration_banned {
            Some(fresh)
        } else {
            None
        },
    }
}

/// Recording that one part of the operation `op_id` is done: only the
/// stored operation with that id is updated.
pub open spec fn spec_mark_done(stored: Option<BanOpRecord>, op_id: i64, part: BanPart) -> Option<BanOpRecord> {
    match stored {
        Some(op) => if op.last_op_id == op_id {
            match part {
                BanPart::VideoStreaming => Some(BanOpRecord { video_streaming_banned: true, ..op }),
                BanPart::Collaboration => Some(BanOpRecord { collaboration_banned: true, ..op }),
            }
        } else {
            None
        },
        None => None,
    }
}

/// Records that one part of an operation is done.
pub fn mark_done(stored: Option<BanOpRecord>, op_id: i64, part: BanPart) -> (r: Option<BanOpRecord>)
    ensures
        r == spec_mark_done(stored, op_id, part),
{
    match stored {
        Some(op) => if op.last_op_id == op_id {
            match part {
                BanPart::VideoStreaming => Some(BanOpRecord { video_streaming_banned: true, ..op }),
                BanPart::Collaboration => Some(BanOpRecord { collaboration_banned: true, ..op }),
            }
        } else {
            None
        },
        None => None,
    }
}

/// An intent whose operation loses to one already started is rejected: once
/// an operation has started on an account, starting another operation fails
/// (and `intent_outcome` then rejects the intent) until the first one is
/// complete.
pub proof fn lemma_intent_rejected_while_in_progress(last_seen_a: i64, a: i64, last_seen_b: i64, b: i64)
    requires
        a != b,
    ensures
        spec_start_operation(None, last_seen_a, a) is Some,
        spec_start_operation(spec_start_operation(None, last_seen_a, a), last_seen_b, b) is None,
{
}

/// An operation completes exactly when its second part is done: marking a
/// part done completes the operation where the other part was done already,
/// and a part of another operation updates nothing.
pub proof fn lemma_completes_after_both_parts(op: BanOpRecord, op_id: i64, part: BanPart)
    ensures
        op.last_op_id != op_id ==> spec_mark_done(Some(op), op_id, part) is None,
        op.last_op_id == op_id ==> (spec_mark_done(Some(op), op_id, part) matches Some(x) && x.last_op_id
            == op_id && x.spec_completed() == (match part {
            BanPart::VideoStreaming => op.collaboration_banned,
            BanPart::Collaboration => op.video_streaming_banned,
        })),
        spec_start_operation(None, 0, op_id) matches Some(f) && !f.spec_completed(),
{
}

/// A full cycle: an operation started on an account, with both its parts
/// done in either order, is complete; a requester who saw it can then start
/// the next operation, which begins with neither part done; repeating a
/// start of the same operation leaves it as it is.
pub proof fn lemma_operation_cycle(last_seen: i64, a: i64, b: i64, first: BanPart, second: BanPart)
    requires
        first != second,
        a != b,
    ensures
        ({
            let started = spec_start_operation(None, last_seen, a);
            let done = spec_mark_done(spec_mark_done(started, a, first), a, second);
            &&& done matches Some(op) && op.last_op_id == a && op.spec_completed()
            &&& spec_start_operation(done, a, b) == Some(
                BanOpRecord { last_op_id: b, video_streaming_banned: false, collaboration_banned: false },
            )
            &&& spec_start_operation(started, last_seen, a) == started
        }),
{
}

} // verus!
