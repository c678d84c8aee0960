//! The fixed set of provider kinds and their wire names.

use vstd::prelude::*;

verus! {

/// One external AI-agent command-line tool, invoked as a subprocess.
#[derive(Clone, Copy, Debug, PartialEq, Eq, Structural)]
pub enum Provider {
    Primary,
    Codex,
    Gemini,
}

/// The kinds of events a session publishes.
#[derive(Clone, Copy, Debug, PartialEq, Eq, Structural)]
pub enum EventKind {
    Output,
    Error,
    Complete,
}

/// The wire name of a provider, as it appears in event topics, registry
/// records and log-source statistics.
pub open spec fn spec_provider_name(p: Provider) -> Seq<char> {
    match p {
        Provider::Primary => "primary"@,
        Provider::Codex => "codex"@,
        Provider::Gemini => "gemini"@,
    }
}

/// The wire name of an event kind, as it appears in event topics.
pub open spec fn spec_kind_name(k: EventKind) -> Seq<char> {
    match k {
        EventKind::Output => "output"@,
        EventKind::Error => "error"@,
        EventKind::Complete => "complete"@,
    }
}

pub fn provider_name(p: Provider) -> (r: &'static str)
    ensures
        r@ == spec_provider_name(p),
{
    match p {
        Provider::Primary => "primary",
        Provider::Codex => "codex",
        Provider::Gemini => "gemini",
    }
}

/// The settings-store key holding a provider's binary-path override.
pub open spec fn spec_binary_path_key(p: Provider) -> Seq<char> {
    spec_provider_name(p) + "_binary_path"@
}

/// The settings-store key holding a provider's default model.
pub open spec fn spec_default_model_key(p: Provider) -> Seq<char> {
    spec_provider_name(p) + "_default_model"@
}

pub fn binary_path_key(p: Provider) -> (r: String)
    ensures
        r@ == spec_binary_path_key(p),
{
    let mut r = provider_name(p).to_owned();
    r.append("_binary_path");
    r
}

pub fn default_model_key(p: Provider) -> (r: String)
    ensures
        r@ == spec_default_model_key(p),
{
    let mut r = provider_name(p).to_owned();
    r.append("_default_model");
    r
}

pub fn kind_name(k: EventKind) -> (r: &'static str)
    ensures
        r@ == spec_kind_name(k),
{
    match k {
        EventKind::Output => "output",
        EventKind::Error => "error",
        EventKind::Complete => "complete",
    }
}

} // verus!
