//! The provider supervisor's decision layer.
//!
//! One supervisor instance exists per provider kind. The surrounding process
//! loop performs the actual spawning, streaming and killing; this module
//! decides everything else: the subprocess arguments, the registration, what
//! the provider's single process slot holds, and which events to publish at
//! each step of a session's life.

use vstd::prelude::*;

use crate::events::{
    complete_emissions, emissions_view, init_emissions, spec_complete_emissions,
    spec_init_emissions, Emission,
};
use crate::provider::Provider;
use crate::registry::{contains_id, Registry, RegistryError};
use crate::session::{SessionInfoView, SessionStatus};
use crate::text::str_eq;

verus! {

/// The single-process-at-a-time tracking cell of one provider: it holds at
/// most one process identifier, the one a cancel request would kill.
pub struct ProviderSlot {
    tracked_pid: Option<u32>,
}

impl View for ProviderSlot {
    type V = Option<u32>;

    closed spec fn view(&self) -> Option<u32> {
        self.tracked_pid
    }
}

impl ProviderSlot {
    /// A slot tracking nothing.
    pub fn empty() -> (r: ProviderSlot)
        ensures
            r@ is None,
    {
        ProviderSlot { tracked_pid: None }
    }

    /// The tracked process identifier, if any.
    pub fn current(&self) -> (r: Option<u32>)
        ensures
            r == self@,
    {
        self.tracked_pid
    }

    /// Track a freshly spawned process, handing back whatever the slot held
    /// before: a prior process is silently replaced, not killed.
    pub fn track(&mut self, pid: u32) -> (prior: Option<u32>)
        ensures
            final(self)@ == Some(pid),
            prior == old(self)@,
    {
        let prior = self.tracked_pid;
        self.tracked_pid = Some(pid);
        prior
    }

    /// Serve a cancel request: empty the slot and hand back the process the
    /// caller must now kill. With no tracked process this is a no-op that
    /// asks for nothing. Idempotent: a second call returns `None`.
    pub fn cancel(&mut self) -> (to_kill: Option<u32>)
        ensures
            final(self)@ is None,
            to_kill == old(self)@,
    {
        let prior = self.tracked_pid;
        self.tracked_pid = None;
        prior
    }

    /// Empty the slot after the session completed on its own.
    pub fn clear(&mut self)
        ensures
            final(self)@ is None,
    {
        self.tracked_pid = None;
    }
}

/// Relies on `uuid::Uuid::new_v4` and its hyphenated `Display` form: a fresh
/// random version-4 UUID rendered as 36 characters. Nothing is promised of
/// its value; the registry is what refuses a duplicate.
#[verifier::external_body]
pub fn new_session_id() -> (r: String)
    ensures
        r@.len() == 36,
{
    uuid::Uuid::new_v4().to_string()
}

/// Which environment variables the provider subprocess inherits: the basic
/// shell identity, every locale variable, and the Homebrew prefixes.
pub open spec fn spec_keep_env(key: Seq<char>) -> bool {
    ||| key == "PATH"@
    ||| key == "HOME"@
    ||| key == "USER"@
    ||| key == "SHELL"@
    ||| key == "LANG"@
    ||| key == "LC_ALL"@
    ||| (key.len() >= 3 && key.subrange(0, 3) == "LC_"@)
    ||| key == "HOMEBREW_PREFIX"@
    ||| key == "HOMEBREW_CELLAR"@
}

/// Decide whether the subprocess environment keeps this variable.
pub fn keep_env_var(key: &str) -> (r: bool)
    ensures
        r == spec_keep_env(key@),
{
    if str_eq(key, "PATH") || str_eq(key, "HOME") || str_eq(key, "USER") || str_eq(key, "SHELL")
        || str_eq(key, "LANG") || str_eq(key, "LC_ALL") || str_eq(key, "HOMEBREW_PREFIX")
        || str_eq(key, "HOMEBREW_CELLAR") {
        return true;
    }
    if key.unicode_len() >= 3 {
        let lc = key.get_char(0) == 'L' && key.get_char(1) == 'C' && key.get_char(2) == '_';
        proof {
            reveal_strlit("LC_");
            assert("LC_"@.len() == 3);
            assert(key@.subrange(0, 3).len() == 3);
            assert(key@.subrange(0, 3)[0] == key@[0]);
            assert(key@.subrange(0, 3)[1] == key@[1]);
            assert(key@.subrange(0, 3)[2] == key@[2]);
            if lc {
                assert(key@.subrange(0, 3) =~= "LC_"@);
            }
        }
        lc
    } else {
        false
    }
}

/// The argument vector handed to the provider binary: the model flag, the
/// model, then the prompt (the prompt is also piped to stdin as a fallback,
/// by the process loop).
pub open spec fn spec_chat_args(model: Seq<char>, prompt: Seq<char>) -> Seq<Seq<char>> {
    seq!["-m"@, model, prompt]
}

pub fn build_chat_args(model: &str, prompt: &str) -> (r: Vec<String>)
    ensures
        r@.map_values(|s: String| s@) == spec_chat_args(model@, prompt@),
{
    let mut r: Vec<String> = Vec::new();
    r.push("-m".to_owned());
    r.push(model.to_owned());
    r.push(prompt.to_owned());
    proof {
        assert(r@.map_values(|s: String| s@) =~= spec_chat_args(model@, prompt@));
    }
    r
}

/// Wire a freshly spawned session: register its metadata, store the process
/// in the provider's slot (silently replacing a prior one), and hand back
/// the init event, to publish before any output is read.
///
/// A session id already present — a resumed conversation — is not
/// registered again (`registered` is then false); the spawned process is
/// tracked and announced all the same.
pub fn wire_session(
    registry: &mut Registry,
    slot: &mut ProviderSlot,
    provider: Provider,
    session_id: &str,
    pid: u32,
    project_path: &str,
    prompt: &str,
    model: &str,
) -> (r: (Vec<Emission>, bool))
    ensures
        emissions_view(r.0@) == spec_init_emissions(provider, session_id@, model@, project_path@),
        final(slot)@ == Some(pid),
        r.1 == !contains_id(old(registry)@, session_id@),
        r.1 ==> final(registry)@ == old(registry)@.push(
            SessionInfoView {
                session_id: session_id@,
                provider,
                pid,
                project_path: project_path@,
                prompt: prompt@,
                model: model@,
                status: SessionStatus::Running,
            },
        ),
        !r.1 ==> final(registry)@ == old(registry)@,
{
    let reg = registry.register(
        session_id.to_owned(),
        provider,
        pid,
        project_path.to_owned(),
        prompt.to_owned(),
        model.to_owned(),
    );
    let registered = match reg {
        Ok(()) => true,
        Err(RegistryError::DuplicateSession) => false,
    };
    let _prior = slot.track(pid);
    (init_emissions(provider, session_id, model, project_path), registered)
}

/// The first record of `table` carrying `sid` has its status set to `to`;
/// all other records are unchanged.
pub open spec fn marked_first(
    table: Seq<SessionInfoView>,
    after: Seq<SessionInfoView>,
    sid: Seq<char>,
    to: SessionStatus,
) -> bool {
    exists|i: int|
        {
            &&& 0 <= i < table.len()
            &&& table[i].session_id == sid
            &&& (forall|j: int| 0 <= j < i ==> table[j].session_id != sid)
            &&& after == table.update(i, SessionInfoView { status: to, ..table[i] })
        }
}

/// Finish a session whose streams both ended: mark it completed in the
/// registry, empty the provider's slot, and hand back the completion event.
pub fn finish_session(
    registry: &mut Registry,
    slot: &mut ProviderSlot,
    provider: Provider,
    session_id: &str,
) -> (events: Vec<Emission>)
    ensures
        final(slot)@ is None,
        emissions_view(events@) == spec_complete_emissions(provider, session_id@),
        contains_id(old(registry)@, session_id@) ==> marked_first(
            old(registry)@,
            final(registry)@,
            session_id@,
            SessionStatus::Completed,
        ),
        !contains_id(old(registry)@, session_id@) ==> final(registry)@ == old(registry)@,
{
    let _found = registry.mark(session_id, SessionStatus::Completed);
    slot.clear();
    complete_emissions(provider, session_id)
}

/// Serve a cancel request for a provider: empty its slot, mark the session
/// cancelled when one is named, and hand back the process to kill. With no
/// tracked process this is a no-op returning success.
pub fn cancel_execution(
    registry: &mut Registry,
    slot: &mut ProviderSlot,
    session_id: Option<&str>,
) -> (to_kill: Option<u32>)
    ensures
        final(slot)@ is None,
        to_kill == old(slot)@,
        match session_id {
            None => final(registry)@ == old(registry)@,
            Some(sid) => if contains_id(old(registry)@, sid@) {
                marked_first(old(registry)@, final(registry)@, sid@, SessionStatus::Cancelled)
            } else {
                final(registry)@ == old(registry)@
            },
        },
{
    if let Some(sid) = session_id {
        let _found = registry.mark(sid, SessionStatus::Cancelled);
    }
    slot.cancel()
}

} // verus!
