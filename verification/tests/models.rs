use ishinex_core::binary::{resolve_binary, which_candidate};
use ishinex_core::models::{
    choose_default_model, config_scan_roots, extract_model_value, models_from_json_probe,
    models_from_plain_probe, parse_model_lines, scan_content_for_model,
};
use ishinex_core::probes::{
    login_fallback_args, login_from_listing, login_from_whoami, version_from_probe, ProbeOutcome,
};
use ishinex_core::provider::Provider;
use ishinex_core::text::expand_tilde;
use ishinex_core::unified_history::history_roots;

fn probe(success: bool, stdout: &str, stderr: &str) -> ProbeOutcome {
    ProbeOutcome { success, stdout: stdout.to_string(), stderr: stderr.to_string() }
}

#[test]
fn plaintext_listing_is_trimmed_and_filtered() {
    let lines = parse_model_lines("  gpt-a  \n\n gpt-b\r\n\t\ngpt-c");
    assert_eq!(lines, vec!["gpt-a".to_string(), "gpt-b".to_string(), "gpt-c".to_string()]);
    assert!(parse_model_lines("").is_empty());
    assert!(parse_model_lines(" \n \n ").is_empty());
}

#[test]
fn plain_probe_success_failure_and_spawn_error() {
    let ok = models_from_plain_probe(Some(&probe(true, "m1\n m2 \n", "")), "");
    assert_eq!(ok.unwrap(), vec!["m1".to_string(), "m2".to_string()]);

    let failed = models_from_plain_probe(Some(&probe(false, "", "no auth")), "");
    assert_eq!(failed.unwrap_err(), "no auth");

    let spawn = models_from_plain_probe(None, "binary missing");
    assert_eq!(spawn.unwrap_err(), "binary missing");
}

#[test]
fn json_listing_takes_string_items_in_order() {
    let got = models_from_json_probe(Some(&probe(true, "[\"m1\",7,\"m2\",null]", "")));
    assert_eq!(got.unwrap(), vec!["m1".to_string(), "m2".to_string()]);

    // an empty array falls back
    assert!(models_from_json_probe(Some(&probe(true, "[]", ""))).is_none());
    // a non-array value falls back
    assert!(models_from_json_probe(Some(&probe(true, "{\"models\":[]}", ""))).is_none());
    // malformed output falls back
    assert!(models_from_json_probe(Some(&probe(true, "not json", ""))).is_none());
    // a failed probe falls back
    assert!(models_from_json_probe(Some(&probe(false, "[\"m\"]", ""))).is_none());
    assert!(models_from_json_probe(None).is_none());
}

#[test]
fn config_scan_matches_json_yaml_and_toml_styles() {
    assert_eq!(
        extract_model_value("{\"model\": \"gpt-q\"}", "model"),
        Some("gpt-q".to_string())
    );
    assert_eq!(extract_model_value("model = \"gpt-t\"", "model"), Some("gpt-t".to_string()));
    assert_eq!(extract_model_value("model: gpt-bare.1", "model"), Some("gpt-bare.1".to_string()));
    assert_eq!(extract_model_value("other: x", "model"), None);
}

#[test]
fn config_scan_prefers_default_model_key() {
    let content = "model: second\ndefault_model: first\nchat_model: third";
    assert_eq!(scan_content_for_model(content), Some("first".to_string()));
    assert_eq!(scan_content_for_model("chat_model: only"), Some("only".to_string()));
    assert_eq!(scan_content_for_model("nothing here"), None);
}

#[test]
fn stored_default_model_wins_over_scan() {
    assert_eq!(
        choose_default_model(Some("stored-m".to_string()), Some("scanned-m".to_string())),
        Some("stored-m".to_string())
    );
    assert_eq!(
        choose_default_model(None, Some("scanned-m".to_string())),
        Some("scanned-m".to_string())
    );
    assert_eq!(choose_default_model(None, None), None);
}

#[test]
fn version_comes_from_trimmed_successful_stdout() {
    assert_eq!(version_from_probe(Some(&probe(true, "  1.2.3 \n", ""))), Some("1.2.3".to_string()));
    assert_eq!(version_from_probe(Some(&probe(true, "   \n", ""))), None);
    assert_eq!(version_from_probe(Some(&probe(false, "1.2.3", ""))), None);
    assert_eq!(version_from_probe(None), None);
}

#[test]
fn whoami_probe_settles_login_only_on_success() {
    let st = login_from_whoami(Some(&probe(true, " jane \n", ""))).unwrap();
    assert!(st.logged_in);
    assert_eq!(st.user, Some("jane".to_string()));
    assert_eq!(st.error, None);

    let anon = login_from_whoami(Some(&probe(true, "  ", ""))).unwrap();
    assert!(anon.logged_in);
    assert_eq!(anon.user, None);

    assert!(login_from_whoami(Some(&probe(false, "", "denied"))).is_none());
    assert!(login_from_whoami(None).is_none());
}

#[test]
fn listing_probe_reports_errors() {
    let ok = login_from_listing(Some(&probe(true, "[]", "")), "");
    assert!(ok.logged_in);
    assert_eq!(ok.user, None);
    assert_eq!(ok.error, None);

    let denied = login_from_listing(Some(&probe(false, "", "401 unauthorized")), "");
    assert!(!denied.logged_in);
    assert_eq!(denied.error, Some("401 unauthorized".to_string()));

    let spawn = login_from_listing(None, "no such file");
    assert!(!spawn.logged_in);
    assert_eq!(spawn.error, Some("no such file".to_string()));
}

#[test]
fn login_fallback_probe_args_per_provider() {
    assert_eq!(
        login_fallback_args(Provider::Codex),
        vec!["models".to_string(), "list".to_string(), "--limit".to_string(), "1".to_string()]
    );
    assert_eq!(
        login_fallback_args(Provider::Gemini),
        vec!["models".to_string(), "list".to_string(), "--json".to_string()]
    );
}

#[test]
fn history_and_config_roots_are_fixed_per_provider() {
    assert_eq!(
        history_roots(Provider::Codex),
        vec![
            "~/.codex".to_string(),
            "~/.openai".to_string(),
            "~/.config/openai".to_string(),
            "~/.config/codex".to_string(),
            "~/Library/Application Support/OpenAI".to_string(),
        ]
    );
    assert_eq!(
        history_roots(Provider::Gemini),
        vec![
            "~/.gemini".to_string(),
            "~/.config/gemini".to_string(),
            "~/Library/Application Support/Gemini".to_string(),
        ]
    );
    assert!(history_roots(Provider::Primary).is_empty());
    assert_eq!(
        config_scan_roots(Provider::Codex),
        vec![
            "~/.config/openai".to_string(),
            "~/.config/codex".to_string(),
            "~/.openai".to_string(),
            "~/Library/Application Support/OpenAI".to_string(),
        ]
    );
    assert_eq!(config_scan_roots(Provider::Gemini).len(), 3);
    assert!(config_scan_roots(Provider::Primary).is_empty());
}

#[test]
fn tilde_expansion_joins_home() {
    assert_eq!(expand_tilde("/home/u", "~/.codex"), "/home/u/.codex");
    assert_eq!(expand_tilde("/home/u", "/abs/path"), "/abs/path");
    assert_eq!(expand_tilde("/home/u", "rel"), "rel");
    assert_eq!(expand_tilde("/home/u", "~"), "~");
    assert_eq!(expand_tilde("/home/u", ""), "");
}

#[test]
fn binary_resolution_prefers_stored_then_which_then_name() {
    assert_eq!(
        resolve_binary(Some("/opt/bin/codex".to_string()), Some("/usr/bin/codex".to_string()), "codex"),
        "/opt/bin/codex"
    );
    assert_eq!(
        resolve_binary(None, Some("/usr/bin/codex".to_string()), "codex"),
        "/usr/bin/codex"
    );
    assert_eq!(resolve_binary(None, None, "codex"), "codex");
}

#[test]
fn which_output_is_trimmed_and_empty_is_no_candidate() {
    assert_eq!(which_candidate(" /usr/local/bin/gemini \n"), Some("/usr/local/bin/gemini".to_string()));
    assert_eq!(which_candidate("\n"), None);
    assert_eq!(which_candidate(""), None);
}
