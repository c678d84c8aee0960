//! Session metadata and the per-session lifecycle state machine.

use vstd::prelude::*;

use crate::provider::Provider;

verus! {

/// Lifecycle state of one session.
///
/// `Spawning` ends the instant the OS process handle is obtained; `Running`
/// persists until both output streams reach end-of-stream; `Cancelled` is
/// entered only through an explicit cancel request; `Failed` only when
/// spawning itself errors. The three last states are terminal.
#[derive(Clone, Copy, Debug, PartialEq, Eq, Structural)]
pub enum SessionStatus {
    Spawning,
    Running,
    Completed,
    Cancelled,
    Failed,
}

/// What the surrounding process loop observed about a session.
#[derive(Clone, Copy, Debug, PartialEq, Eq, Structural)]
pub enum SessionEvent {
    /// The OS process handle was obtained.
    HandleObtained,
    /// Spawning the process itself errored.
    SpawnFailed,
    /// Both the stdout and the stderr stream reached end-of-stream.
    StreamsEnded,
    /// A cancel request killed the process.
    CancelRequested,
}

pub open spec fn is_terminal(s: SessionStatus) -> bool {
    s == SessionStatus::Completed || s == SessionStatus::Cancelled || s == SessionStatus::Failed
}

/// The lifecycle transition relation: `Spawning -> Running` on the handle,
/// `Spawning -> Failed` on a spawn error, `Running -> Completed` on joint
/// end-of-stream, `Running -> Cancelled` on a cancel request; every other
/// event leaves the state unchanged, and no event leaves a terminal state.
pub open spec fn spec_step(s: SessionStatus, e: SessionEvent) -> SessionStatus {
    match s {
        SessionStatus::Spawning => match e {
            SessionEvent::HandleObtained => SessionStatus::Running,
            SessionEvent::SpawnFailed => SessionStatus::Failed,
            _ => s,
        },
        SessionStatus::Running => match e {
            SessionEvent::StreamsEnded => SessionStatus::Completed,
            SessionEvent::CancelRequested => SessionStatus::Cancelled,
            _ => s,
        },
        _ => s,
    }
}

/// Advance a session's lifecycle state by one observed event.
pub fn step(s: SessionStatus, e: SessionEvent) -> (r: SessionStatus)
    ensures
        r == spec_step(s, e),
{
    match s {
        SessionStatus::Spawning => match e {
            SessionEvent::HandleObtained => SessionStatus::Running,
            SessionEvent::SpawnFailed => SessionStatus::Failed,
            _ => s,
        },
        SessionStatus::Running => match e {
            SessionEvent::StreamsEnded => SessionStatus::Completed,
            SessionEvent::CancelRequested => SessionStatus::Cancelled,
            _ => s,
        },
        _ => s,
    }
}

/// Terminal states are final: no event transitions out of them.
pub proof fn lemma_terminal_states_final(s: SessionStatus, e: SessionEvent)
    requires
        is_terminal(s),
    ensures
        spec_step(s, e) == s,
{
}

/// The registry's metadata record for one session. The registry owns this
/// record; the live OS process handle is tracked separately, in the
/// provider's slot.
pub struct SessionInfo {
    pub session_id: String,
    pub provider: Provider,
    pub pid: u32,
    pub project_path: String,
    pub prompt: String,
    pub model: String,
    pub status: SessionStatus,
}

pub struct SessionInfoView {
    pub session_id: Seq<char>,
    pub provider: Provider,
    pub pid: u32,
    pub project_path: Seq<char>,
    pub prompt: Seq<char>,
    pub model: Seq<char>,
    pub status: SessionStatus,
}

impl View for SessionInfo {
    type V = SessionInfoView;

    open spec fn view(&self) -> SessionInfoView {
        SessionInfoView {
            session_id: self.session_id@,
            provider: self.provider,
            pid: self.pid,
            project_path: self.project_path@,
            prompt: self.prompt@,
            model: self.model@,
            status: self.status,
        }
    }
}

impl SessionInfo {
    /// A field-for-field copy of the record.
    pub fn duplicate(&self) -> (r: SessionInfo)
        ensures
            r@ == self@,
    {
        SessionInfo {
            session_id: self.session_id.clone(),
            provider: self.provider,
            pid: self.pid,
            project_path: self.project_path.clone(),
            prompt: self.prompt.clone(),
            model: self.model.clone(),
            status: self.status,
        }
    }
}

} // verus!
