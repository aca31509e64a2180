use vstd::prelude::*;

use crate::error::ApiError;

verus! {

/// The closed set of remote operations the facade performs on behalf
/// of a session.
#[derive(Debug, Clone, Copy, PartialEq, Eq, Structural)]
pub enum Operation {
    Sync,
    ListRooms,
    ListMessages,
    SendMessage,
    CreateRoom,
    JoinRoom,
    LeaveRoom,
}

/// The failure policy an operation falls under: a degradable read is
/// answered with a best-effort fallback when the upstream call fails,
/// a strict write surfaces every failure.
#[derive(Debug, Clone, Copy, PartialEq, Eq, Structural)]
pub enum Category {
    DegradableRead,
    StrictWrite,
}

/// How one bounded call to the remote capability ended.
#[derive(Debug, Clone)]
pub enum CallOutcome<T> {
    /// The capability answered within the deadline.
    Succeeded(T),
    /// The capability reported a failure; the field is its error text.
    UpstreamError(String),
    /// The operation's deadline elapsed before an answer arrived.
    TimedOut,
}

/// What a degradable read returns: always a payload, and a warning
/// exactly when the payload is a fallback rather than the real answer.
#[derive(Debug, Clone)]
pub struct ReadResponse<T> {
    pub payload: T,
    pub warning: Option<String>,
}

/// The internal long-poll budget, in seconds, that the remote
/// capability is configured with for one sync call.
pub const SYNC_LONG_POLL_SECS: u64 = 60;

/// The budget, in seconds, of the second, independently bounded
/// fallback fetch that populates a degraded read response.
pub const FALLBACK_DEADLINE_SECS: u64 = 10;

impl Operation {
    /// The policy category of each operation: the reads degrade, the
    /// writes are strict.
    pub open spec fn spec_category(self) -> Category {
        match self {
            Operation::Sync => Category::DegradableRead,
            Operation::ListRooms => Category::DegradableRead,
            Operation::ListMessages => Category::DegradableRead,
            Operation::SendMessage => Category::StrictWrite,
            Operation::CreateRoom => Category::StrictWrite,
            Operation::JoinRoom => Category::StrictWrite,
            Operation::LeaveRoom => Category::StrictWrite,
        }
    }

    /// The deadline, in seconds, under which one call of this
    /// operation runs. Reads get tens-of-seconds budgets that favour
    /// availability; writes get short budgets that favour fast,
    /// visible failure.
    pub open spec fn spec_deadline(self) -> u64 {
        match self {
            Operation::Sync => 90,
            Operation::ListRooms => 30,
            Operation::ListMessages => 30,
            Operation::SendMessage => 5,
            Operation::CreateRoom => 10,
            Operation::JoinRoom => 10,
            Operation::LeaveRoom => 10,
        }
    }

    /// The name under which the operation is reported in timeout
    /// errors and degradation warnings.
    pub open spec fn spec_name(self) -> Seq<char> {
        match self {
            Operation::Sync => "sync"@,
            Operation::ListRooms => "list_rooms"@,
            Operation::ListMessages => "list_messages"@,
            Operation::SendMessage => "send_message"@,
            Operation::CreateRoom => "create_room"@,
            Operation::JoinRoom => "join_room"@,
            Operation::LeaveRoom => "leave_room"@,
        }
    }

    /// Executable form of `spec_category`.
    pub fn category(&self) -> (c: Category)
        ensures
            c == self.spec_category(),
    {
        match self {
            Operation::Sync => Category::DegradableRead,
            Operation::ListRooms => Category::DegradableRead,
            Operation::ListMessages => Category::DegradableRead,
            Operation::SendMessage => Category::StrictWrite,
            Operation::CreateRoom => Category::StrictWrite,
            Operation::JoinRoom => Category::StrictWrite,
            Operation::LeaveRoom => Category::StrictWrite,
        }
    }

    /// Executable form of `spec_deadline`.
    pub fn deadline_secs(&self) -> (d: u64)
        ensures
            d == self.spec_deadline(),
    {
        match self {
            Operation::Sync => 90,
            Operation::ListRooms => 30,
            Operation::ListMessages => 30,
            Operation::SendMessage => 5,
            Operation::CreateRoom => 10,
            Operation::JoinRoom => 10,
            Operation::LeaveRoom => 10,
        }
    }

    /// Executable form of `spec_name`.
    pub fn name(&self) -> (s: String)
        ensures
            s@ == self.spec_name(),
    {
        match self {
            Operation::Sync => String::from_str("sync"),
            Operation::ListRooms => String::from_str("list_rooms"),
            Operation::ListMessages => String::from_str("list_messages"),
            Operation::SendMessage => String::from_str("send_message"),
            Operation::CreateRoom => String::from_str("create_room"),
            Operation::JoinRoom => String::from_str("join_room"),
            Operation::LeaveRoom => String::from_str("leave_room"),
        }
    }
}

/// The warning a degraded read carries when its primary call timed out.
pub open spec fn timeout_warning(name: Seq<char>) -> Seq<char> {
    name + " timed out (continuing with fallback)"@
}

/// The warning a degraded read carries when its primary call failed
/// upstream; `detail` is the capability's error text.
pub open spec fn upstream_warning(name: Seq<char>, detail: Seq<char>) -> Seq<char> {
    name + " upstream error (continuing with fallback): "@ + detail
}

/// The payload a degraded read falls back to: the fallback fetch's
/// answer when it succeeded, else the empty substitute — the fallback
/// path never raises.
pub open spec fn fallback_payload<T>(fallback: CallOutcome<T>, empty: T) -> T {
    match fallback {
        CallOutcome::Succeeded(f) => f,
        _ => empty,
    }
}

/// Resolves a degradable read: a successful call returns its payload
/// with no warning; on an upstream error or an elapsed deadline the
/// response is the bounded fallback fetch's payload (or the empty
/// substitute when the fallback failed too) together with a warning
/// naming the cause. A degradable read never returns an error.
pub fn degrade<T>(
    op: &Operation,
    primary: CallOutcome<T>,
    fallback: CallOutcome<T>,
    empty: T,
) -> (r: ReadResponse<T>)
    requires
        op.spec_category() is DegradableRead,
    ensures
        primary matches CallOutcome::Succeeded(v) ==> r.payload == v && r.warning is None,
        !(primary is Succeeded) ==> r.payload == fallback_payload(fallback, empty),
        primary matches CallOutcome::UpstreamError(e) ==> (r.warning matches Some(w) && w@
            == upstream_warning(op.spec_name(), e@)),
        primary is TimedOut ==> (r.warning matches Some(w) && w@ == timeout_warning(
            op.spec_name(),
        )),
{
    match primary {
        CallOutcome::Succeeded(v) => ReadResponse { payload: v, warning: None },
        CallOutcome::UpstreamError(e) => {
            let warning = op.name().concat(
                " upstream error (continuing with fallback): ",
            ).concat(e.as_str());
            match fallback {
                CallOutcome::Succeeded(f) => ReadResponse { payload: f, warning: Some(warning) },
                _ => ReadResponse { payload: empty, warning: Some(warning) },
            }
        },
        CallOutcome::TimedOut => {
            let warning = op.name().concat(" timed out (continuing with fallback)");
            match fallback {
                CallOutcome::Succeeded(f) => ReadResponse { payload: f, warning: Some(warning) },
                _ => ReadResponse { payload: empty, warning: Some(warning) },
            }
        },
    }
}

/// Resolves a strict write: the real payload on success, and a visible
/// failure otherwise — an upstream error propagates with the
/// capability's text, an elapsed deadline becomes a `Timeout` error
/// naming the operation. No fallback value is ever substituted: the
/// result is `Ok` exactly when the call succeeded.
pub fn resolve_strict<T>(op: &Operation, outcome: CallOutcome<T>) -> (r: Result<T, ApiError>)
    requires
        op.spec_category() is StrictWrite,
    ensures
        r is Ok <==> outcome is Succeeded,
        outcome matches CallOutcome::Succeeded(v) ==> (r matches Ok(p) && p == v),
        outcome matches CallOutcome::UpstreamError(e) ==> (r matches Err(err) && err matches
            ApiError::UpstreamProtocolError(d) && d@ == e@),
        outcome is TimedOut ==> (r matches Err(err) && err matches ApiError::Timeout(n) && n@
            == op.spec_name()),
{
    match outcome {
        CallOutcome::Succeeded(v) => Ok(v),
        CallOutcome::UpstreamError(e) => Err(ApiError::UpstreamProtocolError(e)),
        CallOutcome::TimedOut => Err(ApiError::Timeout(op.name())),
    }
}

/// Every degradable read's deadline is strictly longer than every
/// strict write's: reads trade latency for availability, writes fail
/// fast.
pub proof fn lemma_read_write_deadline_asymmetry(r: Operation, w: Operation)
    requires
        r.spec_category() is DegradableRead,
        w.spec_category() is StrictWrite,
    ensures
        r.spec_deadline() > w.spec_deadline(),
{
}

/// The orchestrator's own sync deadline is comfortably larger than the
/// long-poll budget the capability is configured with, so when both
/// could fire it is deterministically the orchestrator's bound that
/// decides the outcome.
pub proof fn lemma_sync_deadline_covers_long_poll()
    ensures
        Operation::Sync.spec_deadline() > SYNC_LONG_POLL_SECS,
{
}

/// The fallback fetch of a degraded read runs under a budget strictly
/// shorter than the primary deadline of every degradable read.
pub proof fn lemma_fallback_deadline_short(r: Operation)
    requires
        r.spec_category() is DegradableRead,
    ensures
        FALLBACK_DEADLINE_SECS < r.spec_deadline(),
{
}

/// A degradation warning is never empty, whatever the operation and
/// whatever the capability reported.
pub proof fn lemma_degrade_warning_nonempty(op: Operation, detail: Seq<char>)
    ensures
        timeout_warning(op.spec_name()).len() > 0,
        upstream_warning(op.spec_name(), detail).len() > 0,
{
    reveal_strlit(" timed out (continuing with fallback)");
    reveal_strlit(" upstream error (continuing with fallback): ");
}

} // verus!
