//! History unification: parse per-provider log lines, merge them into one
//! timestamp-ordered stream, and describe the merged file.
//!
//! The surrounding application reads the candidate `*.jsonl` files (the
//! provider-specific directories are a file-system concern) and hands the
//! raw lines here, grouped by provider in the fixed order primary, codex,
//! gemini. Everything after that — which lines count, their canonical
//! rendering, their timestamps, the merge order, the statistics and the
//! output path — is decided and proved here.

use vstd::prelude::*;

use crate::merge::{
    lemma_sort_permutes, lemma_sort_sorted, lemma_sort_stable, sort_by_ts, sort_records, ts_class,
    ts_sorted,
};
use crate::provider::{spec_provider_name, Provider};
use crate::record::{recs, Record, RecordView};
use crate::text::{contains_seq, replace_char, replaced, str_contains, strs};

verus! {

broadcast use vstd::seq_lib::group_seq_lib_default, Seq::lemma_filter_push;

/// What parsing a line as one JSON value yields: `None` when the line is
/// malformed, otherwise its canonical one-line rendering.
pub uninterp spec fn canon_of(line: Seq<char>) -> Option<Seq<char>>;

/// Relies on `serde_json::from_str` and the `Display` rendering of
/// `serde_json::Value`: whether a line parses as one JSON value, and the
/// canonical compact rendering it is then re-serialized to, both depend on
/// the characters of the line alone.
#[verifier::external_body]
fn canonical_json_line(line: &str) -> (r: Option<String>)
    ensures
        r is Some <==> canon_of(line@) is Some,
        r matches Some(t) ==> canon_of(line@) == Some(t@),
{
    match serde_json::from_str::<serde_json::Value>(line) {
        Ok(v) => Some(v.to_string()),
        Err(_) => None,
    }
}

/// The named string field of a line that parses as one JSON object, when
/// the line parses and the field is a string.
pub uninterp spec fn str_field_of(line: Seq<char>, key: Seq<char>) -> Option<Seq<char>>;

/// Relies on `serde_json::from_str`, `serde_json::Value::get` and
/// `serde_json::Value::as_str`: the named field of the parsed line, when
/// the line parses and the field is a string; a function of the line and
/// the key alone.
#[verifier::external_body]
fn json_string_field(line: &str, key: &str) -> (r: Option<String>)
    ensures
        r is Some <==> str_field_of(line@, key@) is Some,
        r matches Some(t) ==> str_field_of(line@, key@) == Some(t@),
{
    match serde_json::from_str::<serde_json::Value>(line) {
        Ok(v) => match v.get(key) {
            Some(f) => f.as_str().map(|s| s.to_string()),
            None => None,
        },
        Err(_) => None,
    }
}

/// The epoch milliseconds of an ISO-8601 (RFC 3339) timestamp string, when
/// it parses as one.
pub uninterp spec fn millis_of(ts: Seq<char>) -> Option<i64>;

/// Relies on `chrono::DateTime::parse_from_rfc3339` and
/// `chrono::DateTime::timestamp_millis`: whether the string is a valid
/// RFC 3339 timestamp, and its epoch milliseconds, depend on the characters
/// alone.
#[verifier::external_body]
fn rfc3339_millis(ts: &str) -> (r: Option<i64>)
    ensures
        r == millis_of(ts@),
{
    match chrono::DateTime::parse_from_rfc3339(ts) {
        Ok(d) => Some(d.timestamp_millis()),
        Err(_) => None,
    }
}

/// The sort timestamp of a line: its parsed `"timestamp"` field, defaulting
/// to 0 — "oldest" — when the field is missing or unparseable.
pub open spec fn spec_line_ts(line: Seq<char>) -> i64 {
    match str_field_of(line, "timestamp"@) {
        Some(f) => match millis_of(f) {
            Some(m) => m,
            None => 0,
        },
        None => 0,
    }
}

/// The record a well-formed line becomes.
pub open spec fn spec_record_of(line: Seq<char>) -> RecordView
    recommends
        canon_of(line) is Some,
{
    RecordView { text: canon_of(line).unwrap(), ts: spec_line_ts(line) }
}

/// Extract the sort timestamp of one line.
pub fn line_ts(line: &str) -> (r: i64)
    ensures
        r == spec_line_ts(line@),
{
    match json_string_field(line, "timestamp") {
        Some(f) => match rfc3339_millis(f.as_str()) {
            Some(m) => m,
            None => 0,
        },
        None => 0,
    }
}

/// What ingesting a list of lines yields: the records of the well-formed
/// lines, in input order; malformed lines are dropped.
pub open spec fn spec_ingest(lines: Seq<Seq<char>>) -> Seq<RecordView>
    decreases lines.len(),
{
    if lines.len() == 0 {
        Seq::empty()
    } else {
        spec_ingest(lines.drop_last()) + if canon_of(lines.last()) is Some {
            seq![spec_record_of(lines.last())]
        } else {
            Seq::<RecordView>::empty()
        }
    }
}

/// Ingesting keeps exactly the well-formed lines, as records, in order: a
/// malformed line is dropped without disturbing the rest.
pub proof fn lemma_ingest_drops_malformed(lines: Seq<Seq<char>>)
    ensures
        spec_ingest(lines) == lines.filter(|l: Seq<char>| canon_of(l) is Some).map_values(
            |l: Seq<char>| spec_record_of(l),
        ),
    decreases lines.len(),
{
    reveal(Seq::filter);
    let pred = |l: Seq<char>| canon_of(l) is Some;
    let f = |l: Seq<char>| spec_record_of(l);
    if lines.len() == 0 {
        assert(spec_ingest(lines) =~= lines.filter(pred).map_values(f));
    } else {
        lemma_ingest_drops_malformed(lines.drop_last());
        if pred(lines.last()) {
            assert(lines.filter(pred) == lines.drop_last().filter(pred).push(lines.last()));
            assert(lines.filter(pred).map_values(f) =~= lines.drop_last().filter(pred).map_values(
                f,
            ).push(f(lines.last())));
            assert(spec_ingest(lines) =~= spec_ingest(lines.drop_last()).push(f(lines.last())));
        } else {
            assert(lines.filter(pred) == lines.drop_last().filter(pred));
            assert(spec_ingest(lines) =~= spec_ingest(lines.drop_last()));
        }
    }
}

/// Parse a provider's raw log lines into records. A line that fails to
/// parse as JSON is dropped; the remaining lines of the file are kept.
pub fn ingest_lines(lines: &Vec<String>) -> (r: Vec<Record>)
    ensures
        recs(r@) == spec_ingest(strs(lines@)),
{
    let n = lines.len();
    let mut out: Vec<Record> = Vec::new();
    let mut i: usize = 0;
    while i < n
        invariant
            n == lines@.len(),
            i <= n,
            recs(out@) == spec_ingest(strs(lines@).take(i as int)),
        decreases n - i,
    {
        proof {
            assert(strs(lines@).take(i + 1 as int).drop_last() =~= strs(lines@).take(i as int));
            assert(strs(lines@).take(i + 1 as int).last() == lines@[i as int]@);
        }
        let line = &lines[i];
        let ghost before = out@;
        match canonical_json_line(line.as_str()) {
            Some(text) => {
                let ts = line_ts(line.as_str());
                out.push(Record { text, ts });
                proof {
                    assert(recs(out@) =~= recs(before).push(spec_record_of(lines@[i as int]@)));
                    assert(spec_ingest(strs(lines@).take(i + 1 as int)) =~= spec_ingest(
                        strs(lines@).take(i as int),
                    ).push(spec_record_of(lines@[i as int]@)));
                }
            },
            None => {
                proof {
                    assert(spec_ingest(strs(lines@).take(i + 1 as int)) =~= spec_ingest(
                        strs(lines@).take(i as int),
                    ));
                }
            },
        }
        i = i + 1;
    }
    proof {
        assert(strs(lines@).take(n as int) =~= strs(lines@));
    }
    out
}

/// The candidate roots searched for a provider's history files, in search
/// order. The primary provider's logs live under its own per-project
/// directory instead and are not gathered by candidate search.
pub open spec fn spec_history_roots(p: Provider) -> Seq<Seq<char>> {
    match p {
        Provider::Primary => Seq::empty(),
        Provider::Codex => seq![
            "~/.codex"@,
            "~/.openai"@,
            "~/.config/openai"@,
            "~/.config/codex"@,
            "~/Library/Application Support/OpenAI"@,
        ],
        Provider::Gemini => seq![
            "~/.gemini"@,
            "~/.config/gemini"@,
            "~/Library/Application Support/Gemini"@,
        ],
    }
}

pub fn history_roots(p: Provider) -> (r: Vec<String>)
    ensures
        strs(r@) == spec_history_roots(p),
{
    let mut r: Vec<String> = Vec::new();
    match p {
        Provider::Primary => {},
        Provider::Codex => {
            r.push("~/.codex".to_owned());
            r.push("~/.openai".to_owned());
            r.push("~/.config/openai".to_owned());
            r.push("~/.config/codex".to_owned());
            r.push("~/Library/Application Support/OpenAI".to_owned());
        },
        Provider::Gemini => {
            r.push("~/.gemini".to_owned());
            r.push("~/.config/gemini".to_owned());
            r.push("~/Library/Application Support/Gemini".to_owned());
        },
    }
    proof {
        assert(strs(r@) =~= spec_history_roots(p));
    }
    r
}

/// How many opening lines of a candidate file the gathering probe reads.
pub open spec fn probe_depth() -> int {
    10
}

/// Whether a candidate log file belongs to the project: one of its first
/// ten lines mentions the project path.
pub open spec fn spec_file_matches(lines: Seq<Seq<char>>, project: Seq<char>) -> bool {
    exists|i: int|
        0 <= i < lines.len() && i < probe_depth() && contains_seq(lines[i], project)
}

/// Probe the opening lines of a candidate `*.jsonl` file for the project
/// path, the cheap filter that keeps unrelated projects' logs out.
pub fn file_matches_project(lines: &Vec<String>, project: &str) -> (r: bool)
    ensures
        r == spec_file_matches(strs(lines@), project@),
{
    let n = if lines.len() < 10 {
        lines.len()
    } else {
        10
    };
    let mut i: usize = 0;
    while i < n
        invariant
            n <= lines@.len(),
            n <= 10,
            lines@.len() < 10 ==> n == lines@.len(),
            lines@.len() >= 10 ==> n == 10,
            i <= n,
            forall|j: int| 0 <= j < i ==> !contains_seq(strs(lines@)[j], project@),
        decreases n - i,
    {
        if str_contains(lines[i].as_str(), project) {
            assert(contains_seq(strs(lines@)[i as int], project@));
            return true;
        }
        i = i + 1;
    }
    false
}

/// What unification yields: the three providers' records concatenated in
/// the fixed order primary, codex, gemini, then stable-sorted by timestamp.
pub open spec fn spec_unify(
    primary: Seq<RecordView>,
    codex: Seq<RecordView>,
    gemini: Seq<RecordView>,
) -> Seq<RecordView> {
    sort_by_ts(primary + codex + gemini)
}

/// Merge the three providers' records into the unified order.
pub fn unify_records(primary: Vec<Record>, codex: Vec<Record>, gemini: Vec<Record>) -> (r: Vec<
    Record,
>)
    ensures
        recs(r@) == spec_unify(recs(primary@), recs(codex@), recs(gemini@)),
{
    let ghost c = recs(primary@);
    let ghost x = recs(codex@);
    let ghost g = recs(gemini@);
    let mut all = primary;
    let mut codex = codex;
    let mut gemini = gemini;
    all.append(&mut codex);
    all.append(&mut gemini);
    proof {
        assert(recs(all@) =~= c + x + g);
    }
    sort_records(all)
}

/// The unified order: non-decreasing by timestamp, a permutation of the
/// providers' records, and stable — records of equal timestamp (in
/// particular all records without one) keep their provider-then-arrival
/// order.
pub proof fn lemma_unify_ordering(
    primary: Seq<RecordView>,
    codex: Seq<RecordView>,
    gemini: Seq<RecordView>,
)
    ensures
        ts_sorted(spec_unify(primary, codex, gemini)),
        spec_unify(primary, codex, gemini).to_multiset() == (primary + codex
            + gemini).to_multiset(),
        forall|t: i64|
            #[trigger] ts_class(spec_unify(primary, codex, gemini), t) == ts_class(
                primary + codex + gemini,
                t,
            ),
{
    let all = primary + codex + gemini;
    lemma_sort_sorted(all);
    lemma_sort_permutes(all);
    assert forall|t: i64|
        #[trigger] ts_class(spec_unify(primary, codex, gemini), t) == ts_class(all, t) by {
        lemma_sort_stable(all, t);
    }
}

/// Unification is a function of the gathered lines alone: running it again
/// over an unchanged project yields the identical record sequence, hence a
/// byte-identical unified file.
pub proof fn lemma_unify_rerun_identical(
    primary1: Seq<Seq<char>>,
    codex1: Seq<Seq<char>>,
    gemini1: Seq<Seq<char>>,
    primary2: Seq<Seq<char>>,
    codex2: Seq<Seq<char>>,
    gemini2: Seq<Seq<char>>,
)
    requires
        primary1 == primary2,
        codex1 == codex2,
        gemini1 == gemini2,
    ensures
        spec_unify(spec_ingest(primary1), spec_ingest(codex1), spec_ingest(gemini1)) == spec_unify(
            spec_ingest(primary2),
            spec_ingest(codex2),
            spec_ingest(gemini2),
        ),
{
}

/// Per-provider contribution to a unified history.
pub struct SourceStat {
    pub provider: String,
    pub count: usize,
}

pub struct SourceStatView {
    pub provider: Seq<char>,
    pub count: usize,
}

impl View for SourceStat {
    type V = SourceStatView;

    open spec fn view(&self) -> SourceStatView {
        SourceStatView { provider: self.provider@, count: self.count }
    }
}

/// The views of a list of source statistics.
pub open spec fn stats_view(s: Seq<SourceStat>) -> Seq<SourceStatView> {
    s.map_values(|t: SourceStat| t@)
}

/// The statistics list: one entry per provider that contributed records, in
/// the fixed provider order; a provider contributing zero records is
/// omitted.
pub open spec fn spec_source_stats(primary: usize, codex: usize, gemini: usize) -> Seq<
    SourceStatView,
> {
    (if primary > 0 {
        seq![SourceStatView { provider: spec_provider_name(Provider::Primary), count: primary }]
    } else {
        Seq::<SourceStatView>::empty()
    }) + (if codex > 0 {
        seq![SourceStatView { provider: spec_provider_name(Provider::Codex), count: codex }]
    } else {
        Seq::<SourceStatView>::empty()
    }) + (if gemini > 0 {
        seq![SourceStatView { provider: spec_provider_name(Provider::Gemini), count: gemini }]
    } else {
        Seq::<SourceStatView>::empty()
    })
}

/// Build the per-provider statistics. Every returned count is positive.
pub fn source_stats(primary: usize, codex: usize, gemini: usize) -> (r: Vec<SourceStat>)
    ensures
        stats_view(r@) == spec_source_stats(primary, codex, gemini),
        forall|i: int| 0 <= i < r@.len() ==> r@[i]@.count > 0,
{
    let mut r: Vec<SourceStat> = Vec::new();
    if primary > 0 {
        r.push(SourceStat { provider: "primary".to_owned(), count: primary });
    }
    if codex > 0 {
        r.push(SourceStat { provider: "codex".to_owned(), count: codex });
    }
    if gemini > 0 {
        r.push(SourceStat { provider: "gemini".to_owned(), count: gemini });
    }
    proof {
        assert(stats_view(r@) =~= spec_source_stats(primary, codex, gemini));
    }
    r
}

/// The identifier a project path is filed under: the path with every `/`
/// replaced by `-`.
pub fn encode_project_id(path: &str) -> (r: String)
    ensures
        r@ == replaced(path@, '/', '-'),
{
    replace_char(path, '/', '-')
}

/// Where the unified history of a project lives, under the home directory.
pub open spec fn spec_unified_path(home: Seq<char>, project_path: Seq<char>) -> Seq<char> {
    home + "/.ishinex/projects/"@ + replaced(project_path, '/', '-') + "/unified/unified.jsonl"@
}

pub fn unified_file_path(home: &str, project_path: &str) -> (r: String)
    ensures
        r@ == spec_unified_path(home@, project_path@),
{
    let mut r = home.to_owned();
    r.append("/.ishinex/projects/");
    let id = encode_project_id(project_path);
    r.append(id.as_str());
    r.append("/unified/unified.jsonl");
    r
}

/// What `unify_provider_histories` reports and what the application then
/// writes, one record text per line, to the unified file.
pub struct UnifyResult {
    pub unified_path: String,
    pub total_messages: usize,
    pub sources: Vec<SourceStat>,
}

pub struct UnifyOutcome {
    pub result: UnifyResult,
    pub records: Vec<Record>,
}

/// Unify the gathered per-provider log lines of one project: parse each
/// provider's lines (dropping malformed ones), merge all records stable-
/// sorted by timestamp, and report the output path, the total count and the
/// non-zero per-provider counts.
pub fn unify_provider_histories(
    home: &str,
    project_path: &str,
    primary_lines: &Vec<String>,
    codex_lines: &Vec<String>,
    gemini_lines: &Vec<String>,
) -> (outcome: UnifyOutcome)
    ensures
        recs(outcome.records@) == spec_unify(
            spec_ingest(strs(primary_lines@)),
            spec_ingest(strs(codex_lines@)),
            spec_ingest(strs(gemini_lines@)),
        ),
        outcome.result.unified_path@ == spec_unified_path(home@, project_path@),
        outcome.result.total_messages == outcome.records@.len(),
        stats_view(outcome.result.sources@) == spec_source_stats(
            spec_ingest(strs(primary_lines@)).len() as usize,
            spec_ingest(strs(codex_lines@)).len() as usize,
            spec_ingest(strs(gemini_lines@)).len() as usize,
        ),
{
    let primary = ingest_lines(primary_lines);
    let codex = ingest_lines(codex_lines);
    let gemini = ingest_lines(gemini_lines);
    let sources = source_stats(primary.len(), codex.len(), gemini.len());
    let records = unify_records(primary, codex, gemini);
    let total = records.len();
    let unified_path = unified_file_path(home, project_path);
    UnifyOutcome {
        result: UnifyResult { unified_path, total_messages: total, sources },
        records,
    }
}

} // verus!
