//! Decisions over the outcome of short provider-binary probes (`--version`,
//! `whoami`, a models listing). The surrounding application runs the
//! subprocess and hands the captured outcome here; every decision about it
//! is made and proved here.

use vstd::prelude::*;

use crate::provider::Provider;
use crate::text::{strs, trim_of, trim_str};

verus! {

/// The captured outcome of one finished subprocess: whether it exited
/// successfully, and its captured output streams, decoded to text.
pub struct ProbeOutcome {
    pub success: bool,
    pub stdout: String,
    pub stderr: String,
}

pub struct ProbeView {
    pub success: bool,
    pub stdout: Seq<char>,
    pub stderr: Seq<char>,
}

impl View for ProbeOutcome {
    type V = ProbeView;

    open spec fn view(&self) -> ProbeView {
        ProbeView { success: self.success, stdout: self.stdout@, stderr: self.stderr@ }
    }
}

/// The version a `--version` probe reports: the trimmed stdout of a
/// successful run, when that is non-empty; nothing otherwise. `None` as the
/// argument stands for a probe that could not run at all.
pub open spec fn spec_version(probe: Option<ProbeView>) -> Option<Seq<char>> {
    match probe {
        Some(p) => if p.success && trim_of(p.stdout).len() != 0 {
            Some(trim_of(p.stdout))
        } else {
            None
        },
        None => None,
    }
}

pub fn version_from_probe(probe: Option<&ProbeOutcome>) -> (r: Option<String>)
    ensures
        r is Some <==> spec_version(view_of(probe)) is Some,
        r matches Some(v) ==> spec_version(view_of(probe)) == Some(v@),
{
    match probe {
        Some(p) => {
            if p.success {
                let t = trim_str(p.stdout.as_str());
                if t.as_str().unicode_len() != 0 {
                    Some(t)
                } else {
                    None
                }
            } else {
                None
            }
        },
        None => None,
    }
}

/// The view of an optional probe reference.
pub open spec fn view_of(probe: Option<&ProbeOutcome>) -> Option<ProbeView> {
    match probe {
        Some(p) => Some(p@),
        None => None,
    }
}

/// The arguments of the fallback login probe: a lightweight listing call
/// that fails when no login is in place. The codex tool takes a limited
/// plain listing; the others a structured one.
pub open spec fn spec_login_fallback_args(p: Provider) -> Seq<Seq<char>> {
    match p {
        Provider::Codex => seq!["models"@, "list"@, "--limit"@, "1"@],
        _ => seq!["models"@, "list"@, "--json"@],
    }
}

pub fn login_fallback_args(p: Provider) -> (r: Vec<String>)
    ensures
        strs(r@) == spec_login_fallback_args(p),
{
    let mut r: Vec<String> = Vec::new();
    r.push("models".to_owned());
    r.push("list".to_owned());
    match p {
        Provider::Codex => {
            r.push("--limit".to_owned());
            r.push("1".to_owned());
        },
        _ => {
            r.push("--json".to_owned());
        },
    }
    proof {
        assert(strs(r@) =~= spec_login_fallback_args(p));
    }
    r
}

/// Whether a provider login is in place, as far as probing can tell.
pub struct LoginStatus {
    pub logged_in: bool,
    pub user: Option<String>,
    pub error: Option<String>,
}

pub struct LoginStatusView {
    pub logged_in: bool,
    pub user: Option<Seq<char>>,
    pub error: Option<Seq<char>>,
}

impl View for LoginStatus {
    type V = LoginStatusView;

    open spec fn view(&self) -> LoginStatusView {
        LoginStatusView {
            logged_in: self.logged_in,
            user: match self.user {
                Some(ref u) => Some(u@),
                None => None,
            },
            error: match self.error {
                Some(ref e) => Some(e@),
                None => None,
            },
        }
    }
}

/// What a successful `whoami`-style probe settles: logged in, with the
/// trimmed stdout as the user name when that is non-empty. An unsuccessful
/// or unrunnable probe settles nothing (`None`): the caller falls back to
/// the models-listing probe.
pub open spec fn spec_login_from_whoami(probe: Option<ProbeView>) -> Option<LoginStatusView> {
    match probe {
        Some(p) => if p.success {
            Some(
                LoginStatusView {
                    logged_in: true,
                    user: if trim_of(p.stdout).len() != 0 {
                        Some(trim_of(p.stdout))
                    } else {
                        None
                    },
                    error: None,
                },
            )
        } else {
            None
        },
        None => None,
    }
}

pub fn login_from_whoami(probe: Option<&ProbeOutcome>) -> (r: Option<LoginStatus>)
    ensures
        r is Some <==> spec_login_from_whoami(view_of(probe)) is Some,
        r matches Some(st) ==> spec_login_from_whoami(view_of(probe)) == Some(st@),
{
    match probe {
        Some(p) => {
            if p.success {
                let t = trim_str(p.stdout.as_str());
                let user = if t.as_str().unicode_len() != 0 {
                    Some(t)
                } else {
                    None
                };
                Some(LoginStatus { logged_in: true, user, error: None })
            } else {
                None
            }
        },
        None => None,
    }
}

/// What the fallback models-listing probe settles: a successful run means
/// logged in; a failed run reports its stderr; a probe that could not run
/// reports the spawn error.
pub open spec fn spec_login_from_listing(
    probe: Option<ProbeView>,
    spawn_error: Seq<char>,
) -> LoginStatusView {
    match probe {
        Some(p) => if p.success {
            LoginStatusView { logged_in: true, user: None, error: None }
        } else {
            LoginStatusView { logged_in: false, user: None, error: Some(p.stderr) }
        },
        None => LoginStatusView { logged_in: false, user: None, error: Some(spawn_error) },
    }
}

pub fn login_from_listing(probe: Option<&ProbeOutcome>, spawn_error: &str) -> (r: LoginStatus)
    ensures
        r@ == spec_login_from_listing(view_of(probe), spawn_error@),
{
    match probe {
        Some(p) => {
            if p.success {
                LoginStatus { logged_in: true, user: None, error: None }
            } else {
                LoginStatus { logged_in: false, user: None, error: Some(p.stderr.clone()) }
            }
        },
        None => LoginStatus {
            logged_in: false,
            user: None,
            error: Some(spawn_error.to_owned()),
        },
    }
}

} // verus!
