//! Resolving a provider's executable: the stored override wins, then the
//! `which` lookup, then the bare binary name. The file-system checks (does
//! the stored path exist and name a file, does the `which` result exist)
//! are the application's; the precedence decision is made and proved here.

use vstd::prelude::*;

use crate::text::{trim_of, trim_str};

verus! {

/// The path candidate a `which` lookup yields: its trimmed stdout, when
/// that is non-empty.
pub open spec fn spec_which_candidate(stdout: Seq<char>) -> Option<Seq<char>> {
    if trim_of(stdout).len() != 0 {
        Some(trim_of(stdout))
    } else {
        None
    }
}

pub fn which_candidate(stdout: &str) -> (r: Option<String>)
    ensures
        r is Some <==> spec_which_candidate(stdout@) is Some,
        r matches Some(v) ==> spec_which_candidate(stdout@) == Some(v@),
{
    let t = trim_str(stdout);
    if t.as_str().unicode_len() != 0 {
        Some(t)
    } else {
        None
    }
}

/// The resolved binary path, by precedence.
pub open spec fn spec_resolved_binary(
    stored: Option<Seq<char>>,
    which: Option<Seq<char>>,
    name: Seq<char>,
) -> Seq<char> {
    match stored {
        Some(s) => s,
        None => match which {
            Some(w) => w,
            None => name,
        },
    }
}

/// Pick the binary path: a stored override that the application has checked
/// to exist and name a file, else a `which` result the application has
/// checked to exist, else the bare name, assumed reachable through `PATH`
/// (resolution itself never fails).
pub fn resolve_binary(stored: Option<String>, which: Option<String>, name: &str) -> (r: String)
    ensures
        r@ == spec_resolved_binary(
            match stored {
                Some(ref s) => Some(s@),
                None => None::<Seq<char>>,
            },
            match which {
                Some(ref w) => Some(w@),
                None => None::<Seq<char>>,
            },
            name@,
        ),
{
    match stored {
        Some(s) => s,
        None => match which {
            Some(w) => w,
            None => name.to_owned(),
        },
    }
}

} // verus!
