use vstd::prelude::*;
use crate::error::CallError;
use crate::job::JobStartResponse;
use crate::status::JobExecutionStatus;

verus! {

/// Seconds to wait before each status request.
pub const POLL_DELAY_SECS: u64 = 10;

/// Where the watch of one job stands.
#[derive(Debug, Clone)]
pub enum PollState {
    /// The start request has not been answered yet.
    Starting,
    /// The execution was started and is being watched.
    Polling(JobStartResponse),
    Succeeded,
    Failed,
    /// A call failed; the watch ends without retry.
    Errored(CallError),
}

/// The answer to the last request that the watch asked for.
#[derive(Debug)]
pub enum PollEvent {
    Started(Result<JobStartResponse, CallError>),
    Polled(Result<JobExecutionStatus, CallError>),
}

/// What the watch asks its driver to do next.
#[derive(Debug, Clone, Copy, PartialEq, Eq, Structural)]
pub enum PollAction {
    /// Send the start request.
    Start,
    /// Wait the given number of seconds, then request the execution's status.
    WaitThenPoll { delay_secs: u64 },
    /// The watch is over.
    Stop,
}

/// A state from which the watch makes no further transition.
pub open spec fn is_finished(s: PollState) -> bool {
    !(s is Starting) && !(s is Polling)
}

/// The request that a state calls for.
pub open spec fn action_of(s: PollState) -> PollAction {
    match s {
        PollState::Starting => PollAction::Start,
        PollState::Polling(_) => PollAction::WaitThenPoll { delay_secs: POLL_DELAY_SECS },
        _ => PollAction::Stop,
    }
}

/// The state that follows `s` on `e`. An event that does not answer the
/// request `s` called for leaves `s` as it is.
pub open spec fn next_state(s: PollState, e: PollEvent) -> PollState {
    match (s, e) {
        (PollState::Starting, PollEvent::Started(Ok(x))) => PollState::Polling(x),
        (PollState::Starting, PollEvent::Started(Err(err))) => PollState::Errored(err),
        (PollState::Polling(x), PollEvent::Polled(Ok(st))) => match st {
            JobExecutionStatus::Succeeded => PollState::Succeeded,
            JobExecutionStatus::Failed => PollState::Failed,
            _ => PollState::Polling(x),
        },
        (PollState::Polling(_), PollEvent::Polled(Err(err))) => PollState::Errored(err),
        (s, _) => s,
    }
}

/// The request that `s` calls for.
pub fn next_action(s: &PollState) -> (r: PollAction)
    ensures
        r == action_of(*s),
{
    match s {
        PollState::Starting => PollAction::Start,
        PollState::Polling(_) => PollAction::WaitThenPoll { delay_secs: POLL_DELAY_SECS },
        _ => PollAction::Stop,
    }
}

/// One step of the watch: the next state on an event, and what it asks for.
pub fn poll_step(s: PollState, e: PollEvent) -> (r: (PollState, PollAction))
    ensures
        r.0 == next_state(s, e),
        r.1 == action_of(next_state(s, e)),
{
    let next = match (s, e) {
        (PollState::Starting, PollEvent::Started(Ok(x))) => PollState::Polling(x),
        (PollState::Starting, PollEvent::Started(Err(err))) => PollState::Errored(err),
        (PollState::Polling(x), PollEvent::Polled(Ok(st))) => match st {
            JobExecutionStatus::Succeeded => PollState::Succeeded,
            JobExecutionStatus::Failed => PollState::Failed,
            _ => PollState::Polling(x),
        },
        (PollState::Polling(_), PollEvent::Polled(Err(err))) => PollState::Errored(err),
        (s, _) => s,
    };
    let a = next_action(&next);
    (next, a)
}

/// The process exit status that a finished watch reports: zero when the job
/// ran to an end, successful or not; one when a call failed.
pub open spec fn exit_code_of(s: PollState) -> Option<i32> {
    match s {
        PollState::Succeeded => Some(0i32),
        PollState::Failed => Some(0i32),
        PollState::Errored(_) => Some(1i32),
        _ => None,
    }
}

/// The exit status of a finished watch; `None` while it runs.
pub fn exit_code(s: &PollState) -> (r: Option<i32>)
    ensures
        r == exit_code_of(*s),
{
    match s {
        PollState::Succeeded => Some(0),
        PollState::Failed => Some(0),
        PollState::Errored(_) => Some(1),
        _ => None,
    }
}

/// A finished watch stays as it is and asks for nothing, whatever arrives.
pub proof fn lemma_finished_is_final(s: PollState, e: PollEvent)
    requires
        is_finished(s),
    ensures
        next_state(s, e) == s,
        action_of(next_state(s, e)) == PollAction::Stop,
{
}

/// A failed start ends the watch at once: no status request follows, and the
/// error is the one the start request reported.
pub proof fn lemma_failed_start_never_polls(err: CallError)
    ensures
        next_state(PollState::Starting, PollEvent::Started(Err(err))) == PollState::Errored(err),
        action_of(PollState::Errored(err)) == PollAction::Stop,
{
}

/// While watching, the same execution is polled again exactly when the
/// reported status is not terminal, after the fixed delay.
pub proof fn lemma_polling_continues_iff_not_terminal(x: JobStartResponse, st: JobExecutionStatus)
    ensures
        (next_state(PollState::Polling(x), PollEvent::Polled(Ok(st))) == PollState::Polling(x))
            == !crate::status::is_terminal(st),
        !crate::status::is_terminal(st) ==> action_of(next_state(PollState::Polling(x), PollEvent::Polled(Ok(st))))
            == (PollAction::WaitThenPoll { delay_secs: POLL_DELAY_SECS }),
{
}

/// A watch ends with a non-zero exit status exactly when a call failed.
pub proof fn lemma_exit_code_nonzero_iff_errored(s: PollState)
    requires
        is_finished(s),
    ensures
        exit_code_of(s) is Some,
        (exit_code_of(s) != Some(0i32)) == (s is Errored),
{
}

} // verus!
