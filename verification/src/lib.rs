//! Core library for a multi-provider AI-agent session manager.
//!
//! The library covers the logic of the system: planning a chat session
//! (arguments, registration, events), tracking running sessions, cancelling
//! the per-provider process slot, and unifying per-provider conversation
//! logs into one chronological JSON-Lines stream. Process I/O, the file
//! system and the settings database stay outside, in the surrounding
//! application, which feeds this library plain values.

pub mod binary;
pub mod events;
pub mod merge;
pub mod models;
pub mod probes;
pub mod provider;
pub mod record;
pub mod registry;
pub mod session;
pub mod supervisor;
pub mod text;
pub mod unified_history;

use vstd::prelude::*;

verus! {

} // verus!
