//! The session registry: the process-wide table of sessions across all
//! providers. It owns metadata only; it never spawns, kills or streams.

use vstd::prelude::*;

use crate::provider::Provider;
use crate::session::{is_terminal, SessionInfo, SessionInfoView, SessionStatus};
use crate::text::str_eq;

verus! {

broadcast use vstd::seq_lib::group_seq_lib_default, Seq::lemma_filter_push;

/// Why a registry operation was refused.
#[derive(Clone, Copy, Debug, PartialEq, Eq, Structural)]
pub enum RegistryError {
    /// `register` found the session id already present.
    DuplicateSession,
}

/// The views of a table of session records, in insertion order.
pub open spec fn table_view(s: Seq<SessionInfo>) -> Seq<SessionInfoView> {
    s.map_values(|r: SessionInfo| r@)
}

/// Whether some record of the table carries this session id.
pub open spec fn contains_id(table: Seq<SessionInfoView>, sid: Seq<char>) -> bool {
    exists|i: int| 0 <= i < table.len() && table[i].session_id == sid
}

/// Whether a record passes the `list_running` filter: still live, and of the
/// requested provider when one is requested.
pub open spec fn passes_filter(r: SessionInfoView, filter: Option<Provider>) -> bool {
    &&& !is_terminal(r.status)
    &&& match filter {
        Some(p) => r.provider == p,
        None => true,
    }
}

/// What `list_running` returns: the live records, in insertion order,
/// restricted to the requested provider.
pub open spec fn spec_running(table: Seq<SessionInfoView>, filter: Option<Provider>) -> Seq<
    SessionInfoView,
> {
    table.filter(|r: SessionInfoView| passes_filter(r, filter))
}

/// The process-wide session table. Records are kept in insertion order.
pub struct Registry {
    sessions: Vec<SessionInfo>,
}

impl View for Registry {
    type V = Seq<SessionInfoView>;

    closed spec fn view(&self) -> Seq<SessionInfoView> {
        table_view(self.sessions@)
    }
}

impl Registry {
    pub fn new() -> (r: Registry)
        ensures
            r@ == Seq::<SessionInfoView>::empty(),
    {
        let r = Registry { sessions: Vec::new() };
        proof {
            assert(r@ =~= Seq::<SessionInfoView>::empty());
        }
        r
    }

    /// Whether some record carries this session id.
    pub fn contains(&self, session_id: &str) -> (r: bool)
        ensures
            r == contains_id(self@, session_id@),
    {
        let n = self.sessions.len();
        let mut i: usize = 0;
        while i < n
            invariant
                n == self.sessions@.len(),
                i <= n,
                forall|j: int| 0 <= j < i ==> self@[j].session_id != session_id@,
            decreases n - i,
        {
            if str_eq(self.sessions[i].session_id.as_str(), session_id) {
                assert(self@[i as int].session_id == session_id@);
                return true;
            }
            i = i + 1;
        }
        false
    }

    /// Insert a new record, marked `Running`, at the end of the table.
    /// Refused with `DuplicateSession` when the id is already present; the
    /// table is then left unchanged.
    pub fn register(
        &mut self,
        session_id: String,
        provider: Provider,
        pid: u32,
        project_path: String,
        prompt: String,
        model: String,
    ) -> (r: Result<(), RegistryError>)
        ensures
            match r {
                Ok(()) => !contains_id(old(self)@, session_id@) && final(self)@ == old(self)@.push(
                    SessionInfoView {
                        session_id: session_id@,
                        provider,
                        pid,
                        project_path: project_path@,
                        prompt: prompt@,
                        model: model@,
                        status: SessionStatus::Running,
                    },
                ),
                Err(RegistryError::DuplicateSession) => contains_id(old(self)@, session_id@)
                    && final(self)@ == old(self)@,
            },
    {
        if self.contains(session_id.as_str()) {
            return Err(RegistryError::DuplicateSession);
        }
        let info = SessionInfo {
            session_id,
            provider,
            pid,
            project_path,
            prompt,
            model,
            status: SessionStatus::Running,
        };
        self.sessions.push(info);
        proof {
            assert(final(self)@ =~= old(self)@.push(
                SessionInfoView {
                    session_id: session_id@,
                    provider,
                    pid,
                    project_path: project_path@,
                    prompt: prompt@,
                    model: model@,
                    status: SessionStatus::Running,
                },
            ));
        }
        Ok(())
    }

    /// The live sessions, optionally restricted to one provider, in
    /// insertion order. With `Some(p)` the result never carries a session of
    /// a provider other than `p`.
    pub fn list_running(&self, filter: Option<Provider>) -> (r: Vec<SessionInfo>)
        ensures
            table_view(r@) == spec_running(self@, filter),
            forall|i: int, p: Provider|
                0 <= i < r@.len() && filter == Some(p) ==> r@[i]@.provider == p,
    {
        let n = self.sessions.len();
        let mut out: Vec<SessionInfo> = Vec::new();
        let mut i: usize = 0;
        while i < n
            invariant
                n == self.sessions@.len(),
                i <= n,
                table_view(out@) == spec_running(table_view(self.sessions@.take(i as int)), filter),
            decreases n - i,
        {
            let s = &self.sessions[i];
            let keep = match s.status {
                SessionStatus::Spawning => true,
                SessionStatus::Running => true,
                _ => false,
            };
            let keep = keep && match filter {
                Some(p) => s.provider == p,
                None => true,
            };
            proof {
                assert(keep == passes_filter(self@[i as int], filter));
                assert(table_view(self.sessions@.take(i + 1 as int)) =~= table_view(
                    self.sessions@.take(i as int),
                ).push(self@[i as int]));
            }
            if keep {
                let ghost before = out@;
                out.push(s.duplicate());
                proof {
                    assert(table_view(out@) =~= table_view(before).push(self@[i as int]));
                }
            }
            i = i + 1;
        }
        proof {
            assert(self.sessions@.take(n as int) =~= self.sessions@);
            let pred = |r: SessionInfoView| passes_filter(r, filter);
            assert forall|i: int, p: Provider|
                0 <= i < out@.len() && filter == Some(p) implies out@[i]@.provider == p by {
                assert(table_view(out@)[i] == out@[i]@);
                assert(pred(self@.filter(pred)[i]));
            }
        }
        out
    }

    /// Set the status of the first record carrying this session id; report
    /// whether one was found. Any other record is left unchanged.
    pub fn mark(&mut self, session_id: &str, status: SessionStatus) -> (found: bool)
        ensures
            found == contains_id(old(self)@, session_id@),
            !found ==> final(self)@ == old(self)@,
            found ==> exists|i: int|
                {
                    &&& 0 <= i < old(self)@.len()
                    &&& old(self)@[i].session_id == session_id@
                    &&& (forall|j: int| 0 <= j < i ==> old(self)@[j].session_id != session_id@)
                    &&& final(self)@ == old(self)@.update(
                        i,
                        SessionInfoView { status, ..old(self)@[i] },
                    )
                },
    {
        let n = self.sessions.len();
        let mut i: usize = 0;
        while i < n
            invariant
                n == self.sessions@.len(),
                i <= n,
                self@ == old(self)@,
                forall|j: int| 0 <= j < i ==> old(self)@[j].session_id != session_id@,
            decreases n - i,
        {
            if str_eq(self.sessions[i].session_id.as_str(), session_id) {
                let mut info = self.sessions[i].duplicate();
                info.status = status;
                self.sessions.set(i, info);
                proof {
                    assert(final(self)@ =~= old(self)@.update(
                        i as int,
                        SessionInfoView { status, ..old(self)@[i as int] },
                    ));
                }
                return true;
            }
            i = i + 1;
        }
        false
    }
}

} // verus!
