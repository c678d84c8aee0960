use ishinex_core::record::Record;
use ishinex_core::unified_history::{
    encode_project_id, file_matches_project, ingest_lines, unified_file_path, unify_provider_histories,
    unify_records,
};

fn rec(text: &str, ts: i64) -> Record {
    Record { text: text.to_string(), ts }
}

#[test]
fn merge_orders_by_timestamp_with_missing_as_zero() {
    // ts 100 for provider a, ts 50 for provider b, no timestamp for c:
    // the unified order is c (as 0), then b (50), then a (100).
    let a = "{\"provider\":\"a\",\"timestamp\":\"1970-01-01T00:00:00.100+00:00\"}";
    let b = "{\"provider\":\"b\",\"timestamp\":\"1970-01-01T00:00:00.050+00:00\"}";
    let c = "{\"provider\":\"c\"}";
    let out = unify_provider_histories(
        "/home/u",
        "/tmp/p",
        &vec![a.to_string()],
        &vec![b.to_string()],
        &vec![c.to_string()],
    );
    assert_eq!(out.records.len(), 3);
    assert_eq!(out.records[0].ts, 0);
    assert!(out.records[0].text.contains("\"provider\":\"c\""));
    assert_eq!(out.records[1].ts, 50);
    assert!(out.records[1].text.contains("\"provider\":\"b\""));
    assert_eq!(out.records[2].ts, 100);
    assert!(out.records[2].text.contains("\"provider\":\"a\""));
}

#[test]
fn merge_is_stable_for_equal_timestamps() {
    // All four records lack a timestamp: provider order then arrival order
    // is kept exactly.
    let c1 = "{\"n\":1}".to_string();
    let c2 = "{\"n\":2}".to_string();
    let x1 = "{\"n\":3}".to_string();
    let g1 = "{\"n\":4}".to_string();
    let out = unify_provider_histories(
        "/home/u",
        "/p",
        &vec![c1, c2],
        &vec![x1],
        &vec![g1],
    );
    let texts: Vec<&str> = out.records.iter().map(|r| r.text.as_str()).collect();
    assert_eq!(texts, vec!["{\"n\":1}", "{\"n\":2}", "{\"n\":3}", "{\"n\":4}"]);
}

#[test]
fn rerun_on_unchanged_input_is_identical() {
    let primary = vec![
        "{\"m\":\"one\",\"timestamp\":\"2024-01-02T03:04:05.678+00:00\"}".to_string(),
        "{\"m\":\"two\"}".to_string(),
    ];
    let codex = vec!["{\"m\":\"three\",\"timestamp\":\"2020-06-01T00:00:00+00:00\"}".to_string()];
    let gemini: Vec<String> = Vec::new();
    let first = unify_provider_histories("/h", "/p", &primary, &codex, &gemini);
    let second = unify_provider_histories("/h", "/p", &primary, &codex, &gemini);
    assert_eq!(first.records.len(), second.records.len());
    for (r1, r2) in first.records.iter().zip(second.records.iter()) {
        assert_eq!(r1.text, r2.text);
        assert_eq!(r1.ts, r2.ts);
    }
    assert_eq!(first.result.unified_path, second.result.unified_path);
    assert_eq!(first.result.total_messages, second.result.total_messages);
}

#[test]
fn malformed_lines_are_dropped_not_fatal() {
    let lines = vec![
        "not json at all".to_string(),
        "{\"ok\":1}".to_string(),
        "{broken".to_string(),
        "{\"ok\":2}".to_string(),
        "".to_string(),
    ];
    let records = ingest_lines(&lines);
    assert_eq!(records.len(), 2);
    assert_eq!(records[0].text, "{\"ok\":1}");
    assert_eq!(records[1].text, "{\"ok\":2}");
}

#[test]
fn canonical_rendering_not_raw_line_is_kept() {
    let lines = vec!["  { \"b\" : 1 ,  \"a\" : 2 }  ".to_string()];
    let records = ingest_lines(&lines);
    assert_eq!(records.len(), 1);
    // serde_json re-renders compactly with sorted keys.
    assert_eq!(records[0].text, "{\"a\":2,\"b\":1}");
}

#[test]
fn timestamp_parsing_exact_millis_and_default() {
    let lines = vec![
        "{\"timestamp\":\"2024-01-02T03:04:05.678+00:00\"}".to_string(),
        "{\"timestamp\":\"not a date\"}".to_string(),
        "{\"timestamp\":42}".to_string(),
    ];
    let records = ingest_lines(&lines);
    assert_eq!(records.len(), 3);
    assert_eq!(records[0].ts, 1704164645678);
    assert_eq!(records[1].ts, 0);
    assert_eq!(records[2].ts, 0);
}

#[test]
fn zero_count_providers_are_omitted_from_sources() {
    let primary = vec!["{\"a\":1}".to_string()];
    let codex: Vec<String> = vec!["bad line".to_string()];
    let gemini = vec!["{\"g\":1}".to_string(), "{\"g\":2}".to_string()];
    let out = unify_provider_histories("/h", "/p", &primary, &codex, &gemini);
    let names: Vec<&str> = out.result.sources.iter().map(|s| s.provider.as_str()).collect();
    assert_eq!(names, vec!["primary", "gemini"]);
    assert_eq!(out.result.sources[0].count, 1);
    assert_eq!(out.result.sources[1].count, 2);
    assert_eq!(out.result.total_messages, 3);
}

#[test]
fn unify_records_concatenates_then_sorts() {
    let merged = unify_records(
        vec![rec("{\"a\":1}", 5)],
        vec![rec("{\"b\":1}", 1)],
        vec![rec("{\"c\":1}", 5)],
    );
    let texts: Vec<&str> = merged.iter().map(|r| r.text.as_str()).collect();
    assert_eq!(texts, vec!["{\"b\":1}", "{\"a\":1}", "{\"c\":1}"]);
}

#[test]
fn project_id_encoding_replaces_separators() {
    assert_eq!(encode_project_id("/Users/jane/work"), "-Users-jane-work");
    assert_eq!(encode_project_id("relative/path"), "relative-path");
    assert_eq!(encode_project_id(""), "");
}

#[test]
fn unified_path_is_deterministic_per_project() {
    assert_eq!(
        unified_file_path("/home/u", "/tmp/p"),
        "/home/u/.ishinex/projects/-tmp-p/unified/unified.jsonl"
    );
}

#[test]
fn probe_matches_only_first_ten_lines() {
    let mut lines: Vec<String> = Vec::new();
    for i in 0..10 {
        lines.push(format!("{{\"n\":{}}}", i));
    }
    lines.push("{\"cwd\":\"/tmp/proj\"}".to_string());
    assert!(!file_matches_project(&lines, "/tmp/proj"));

    let mut early: Vec<String> = Vec::new();
    early.push("{\"x\":0}".to_string());
    early.push("{\"cwd\":\"/tmp/proj\"}".to_string());
    assert!(file_matches_project(&early, "/tmp/proj"));
    assert!(!file_matches_project(&early, "/tmp/other"));
}
