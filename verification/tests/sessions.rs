use ishinex_core::events::{
    complete_emissions, error_emissions, init_payload, output_emissions, output_payload,
    session_topic, wide_topic,
};
use ishinex_core::provider::{binary_path_key, default_model_key, EventKind, Provider};
use ishinex_core::registry::{Registry, RegistryError};
use ishinex_core::session::{step, SessionEvent, SessionStatus};
use ishinex_core::supervisor::{
    build_chat_args, cancel_execution, finish_session, keep_env_var, new_session_id,
    wire_session, ProviderSlot,
};

#[test]
fn topics_combine_provider_kind_and_session() {
    assert_eq!(wide_topic(Provider::Codex, EventKind::Output), "codex-output");
    assert_eq!(wide_topic(Provider::Gemini, EventKind::Error), "gemini-error");
    assert_eq!(wide_topic(Provider::Primary, EventKind::Complete), "primary-complete");
    assert_eq!(session_topic(Provider::Codex, EventKind::Output, "s1"), "codex-output:s1");
}

#[test]
fn init_payload_exact_shape() {
    let p = init_payload(Provider::Codex, "sid-1", "gpt-5", "/work/proj");
    assert_eq!(
        p,
        "{\"type\":\"system\",\"subtype\":\"init\",\"session_id\":\"sid-1\",\
         \"model\":\"gpt-5\",\"cwd\":\"/work/proj\",\"provider\":\"codex\"}"
    );
    // The payload is valid JSON with exactly the announced fields.
    let v: serde_json::Value = serde_json::from_str(&p).unwrap();
    assert_eq!(v["session_id"].as_str(), Some("sid-1"));
    assert_eq!(v["provider"].as_str(), Some("codex"));
    assert_eq!(v["subtype"].as_str(), Some("init"));
}

#[test]
fn output_payload_escapes_like_json() {
    let p = output_payload("a\"b\\c\nd");
    assert_eq!(
        p,
        "{\"type\":\"assistant\",\"message\":{\"content\":[{\"type\":\"text\",\
         \"text\":\"a\\\"b\\\\c\\nd\"}]}}"
    );
    let v: serde_json::Value = serde_json::from_str(&p).unwrap();
    assert_eq!(v["message"]["content"][0]["text"].as_str(), Some("a\"b\\c\nd"));

    let q = output_payload("ctl:\u{1}\t\r\u{c}\u{8}");
    let w: serde_json::Value = serde_json::from_str(&q).unwrap();
    assert_eq!(w["message"]["content"][0]["text"].as_str(), Some("ctl:\u{1}\t\r\u{c}\u{8}"));
    assert!(q.contains("\\u0001"));
}

#[test]
fn output_and_error_emissions_target_both_topics() {
    let out = output_emissions(Provider::Gemini, "s9", "hello");
    assert_eq!(out.len(), 2);
    assert_eq!(out[0].topic, "gemini-output:s9");
    assert_eq!(out[1].topic, "gemini-output");
    assert_eq!(out[0].payload, out[1].payload);

    let err = error_emissions(Provider::Gemini, "s9", "oops");
    assert_eq!(err[0].topic, "gemini-error:s9");
    assert_eq!(err[1].topic, "gemini-error");
    // stderr lines go out verbatim, not wrapped.
    assert_eq!(err[0].payload, "oops");

    let done = complete_emissions(Provider::Gemini, "s9");
    assert_eq!(done[0].topic, "gemini-complete:s9");
    assert_eq!(done[1].topic, "gemini-complete");
    assert_eq!(done[0].payload, "true");
}

#[test]
fn registry_refuses_duplicate_session_ids() {
    let mut reg = Registry::new();
    let r1 = reg.register(
        "id-1".to_string(),
        Provider::Codex,
        11,
        "/p".to_string(),
        "hi".to_string(),
        "m".to_string(),
    );
    assert!(r1.is_ok());
    let r2 = reg.register(
        "id-1".to_string(),
        Provider::Gemini,
        12,
        "/q".to_string(),
        "hey".to_string(),
        "m2".to_string(),
    );
    assert_eq!(r2, Err(RegistryError::DuplicateSession));
    assert_eq!(reg.list_running(None).len(), 1);
}

#[test]
fn list_running_filters_by_provider() {
    let mut reg = Registry::new();
    reg.register("c1".to_string(), Provider::Codex, 1, "/p".to_string(), "a".to_string(), "m".to_string()).unwrap();
    reg.register("g1".to_string(), Provider::Gemini, 2, "/p".to_string(), "b".to_string(), "m".to_string()).unwrap();
    reg.register("c2".to_string(), Provider::Codex, 3, "/p".to_string(), "c".to_string(), "m".to_string()).unwrap();

    let codex = reg.list_running(Some(Provider::Codex));
    assert_eq!(codex.len(), 2);
    for s in &codex {
        assert_eq!(s.provider, Provider::Codex);
    }
    // insertion order within one call
    assert_eq!(codex[0].session_id, "c1");
    assert_eq!(codex[1].session_id, "c2");

    let all = reg.list_running(None);
    assert_eq!(all.len(), 3);

    let primary = reg.list_running(Some(Provider::Primary));
    assert!(primary.is_empty());
}

#[test]
fn marked_sessions_leave_the_running_list() {
    let mut reg = Registry::new();
    reg.register("c1".to_string(), Provider::Codex, 1, "/p".to_string(), "a".to_string(), "m".to_string()).unwrap();
    reg.register("c2".to_string(), Provider::Codex, 2, "/p".to_string(), "b".to_string(), "m".to_string()).unwrap();
    assert!(reg.mark("c1", SessionStatus::Completed));
    assert!(!reg.mark("missing", SessionStatus::Completed));
    let running = reg.list_running(Some(Provider::Codex));
    assert_eq!(running.len(), 1);
    assert_eq!(running[0].session_id, "c2");
}

#[test]
fn cancel_empties_the_slot_and_names_the_process() {
    let mut slot = ProviderSlot::empty();
    assert_eq!(slot.current(), None);
    assert_eq!(slot.track(77), None);
    assert_eq!(slot.current(), Some(77));
    // cancel with a running process: slot emptied, pid handed back to kill
    assert_eq!(slot.cancel(), Some(77));
    assert_eq!(slot.current(), None);
    // cancel with no running session: a no-op
    assert_eq!(slot.cancel(), None);
    assert_eq!(slot.current(), None);
}

#[test]
fn replacing_a_tracked_process_reports_the_prior_one() {
    let mut slot = ProviderSlot::empty();
    slot.track(5);
    assert_eq!(slot.track(6), Some(5));
    assert_eq!(slot.current(), Some(6));
}

#[test]
fn wire_session_registers_tracks_and_announces() {
    let mut reg = Registry::new();
    let mut slot = ProviderSlot::empty();
    let (events, registered) =
        wire_session(&mut reg, &mut slot, Provider::Codex, "sid-7", 42, "/proj", "hi", "m1");
    assert!(registered);
    assert_eq!(events.len(), 2);
    assert_eq!(events[0].topic, "codex-output");
    assert_eq!(events[1].topic, "codex-output:sid-7");
    assert!(events[0].payload.contains("\"session_id\":\"sid-7\""));
    assert_eq!(events[0].payload, events[1].payload);
    assert_eq!(slot.current(), Some(42));
    let running = reg.list_running(Some(Provider::Codex));
    assert_eq!(running.len(), 1);
    assert_eq!(running[0].pid, 42);

    // resuming with the same id: not registered again, but the fresh
    // process is tracked and announced all the same
    let (again, refreshed) =
        wire_session(&mut reg, &mut slot, Provider::Codex, "sid-7", 43, "/proj", "hi", "m1");
    assert!(!refreshed);
    assert_eq!(again.len(), 2);
    assert_eq!(slot.current(), Some(43));
    assert_eq!(reg.list_running(Some(Provider::Codex)).len(), 1);
}

#[test]
fn finish_session_clears_slot_and_completes() {
    let mut reg = Registry::new();
    let mut slot = ProviderSlot::empty();
    let _ = wire_session(&mut reg, &mut slot, Provider::Gemini, "s1", 9, "/p", "q", "m");
    let events = finish_session(&mut reg, &mut slot, Provider::Gemini, "s1");
    assert_eq!(slot.current(), None);
    assert_eq!(events[0].topic, "gemini-complete:s1");
    assert_eq!(events[1].topic, "gemini-complete");
    assert!(reg.list_running(Some(Provider::Gemini)).is_empty());
}

#[test]
fn cancel_execution_marks_and_hands_back_pid() {
    let mut reg = Registry::new();
    let mut slot = ProviderSlot::empty();
    let _ = wire_session(&mut reg, &mut slot, Provider::Codex, "s2", 13, "/p", "q", "m");
    let to_kill = cancel_execution(&mut reg, &mut slot, Some("s2"));
    assert_eq!(to_kill, Some(13));
    assert_eq!(slot.current(), None);
    assert!(reg.list_running(Some(Provider::Codex)).is_empty());
    // idempotent
    assert_eq!(cancel_execution(&mut reg, &mut slot, None), None);
}

#[test]
fn lifecycle_transitions_and_terminal_states() {
    assert_eq!(step(SessionStatus::Spawning, SessionEvent::HandleObtained), SessionStatus::Running);
    assert_eq!(step(SessionStatus::Spawning, SessionEvent::SpawnFailed), SessionStatus::Failed);
    assert_eq!(step(SessionStatus::Spawning, SessionEvent::StreamsEnded), SessionStatus::Spawning);
    assert_eq!(step(SessionStatus::Running, SessionEvent::StreamsEnded), SessionStatus::Completed);
    assert_eq!(
        step(SessionStatus::Running, SessionEvent::CancelRequested),
        SessionStatus::Cancelled
    );
    assert_eq!(step(SessionStatus::Running, SessionEvent::HandleObtained), SessionStatus::Running);
    let terminals = [SessionStatus::Completed, SessionStatus::Cancelled, SessionStatus::Failed];
    let events = [
        SessionEvent::HandleObtained,
        SessionEvent::SpawnFailed,
        SessionEvent::StreamsEnded,
        SessionEvent::CancelRequested,
    ];
    for terminal in terminals {
        for e in events {
            assert_eq!(step(terminal, e), terminal);
        }
    }
}

#[test]
fn chat_args_are_model_flag_model_prompt() {
    let args = build_chat_args("gpt-5", "write a haiku");
    assert_eq!(args, vec!["-m".to_string(), "gpt-5".to_string(), "write a haiku".to_string()]);
}

#[test]
fn session_ids_are_uuid_shaped_and_distinct() {
    let a = new_session_id();
    let b = new_session_id();
    assert_eq!(a.len(), 36);
    assert_eq!(b.len(), 36);
    assert_ne!(a, b);
}

#[test]
fn env_filter_keeps_shell_identity_and_locale() {
    assert!(keep_env_var("PATH"));
    assert!(keep_env_var("HOME"));
    assert!(keep_env_var("USER"));
    assert!(keep_env_var("SHELL"));
    assert!(keep_env_var("LANG"));
    assert!(keep_env_var("LC_ALL"));
    assert!(keep_env_var("LC_MESSAGES"));
    assert!(keep_env_var("HOMEBREW_PREFIX"));
    assert!(keep_env_var("HOMEBREW_CELLAR"));
    assert!(!keep_env_var("LC"));
    assert!(!keep_env_var("LD_PRELOAD"));
    assert!(!keep_env_var("RANDOM"));
    assert!(!keep_env_var(""));
}

#[test]
fn settings_keys_are_provider_scoped() {
    assert_eq!(binary_path_key(Provider::Codex), "codex_binary_path");
    assert_eq!(binary_path_key(Provider::Gemini), "gemini_binary_path");
    assert_eq!(default_model_key(Provider::Codex), "codex_default_model");
    assert_eq!(default_model_key(Provider::Primary), "primary_default_model");
}
