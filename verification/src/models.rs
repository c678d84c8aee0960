//! Model discovery: parsing a models listing and scanning configuration
//! text for a default model, plus the precedence rule between the stored
//! default and the scanned one.
//!
//! The application runs the listing subprocess and reads the candidate
//! configuration files; which models a captured listing names, which value
//! a configuration text yields, and which default wins are decided and
//! proved here.

use vstd::prelude::*;

use crate::probes::{view_of, ProbeOutcome};
use crate::provider::Provider;
use crate::text::{push_char, strs, trim_of, trim_str};

verus! {

broadcast use vstd::seq_lib::group_seq_lib_default, Seq::lemma_filter_push;

/// The index of the first newline in `s`, or `s.len()` when there is none.
pub open spec fn find_nl(s: Seq<char>) -> int
    decreases s.len(),
{
    if s.len() == 0 {
        0
    } else if s[0] == '\n' {
        0
    } else {
        1 + find_nl(s.drop_first())
    }
}

proof fn lemma_find_nl_bounds(s: Seq<char>)
    ensures
        0 <= find_nl(s) <= s.len(),
    decreases s.len(),
{
    if s.len() != 0 && s[0] != '\n' {
        lemma_find_nl_bounds(s.drop_first());
    }
}

/// `find_nl` is characterized by its two defining properties.
proof fn lemma_find_nl_at(s: Seq<char>, k: int)
    requires
        0 <= k <= s.len(),
        forall|j: int| 0 <= j < k ==> s[j] != '\n',
        k < s.len() ==> s[k] == '\n',
    ensures
        find_nl(s) == k,
    decreases k,
{
    if k == 0 {
        if s.len() > 0 && s[0] != '\n' {
            assert(k < s.len() && s[k] != '\n');
            assert(false);
        }
    } else {
        assert(s[0] != '\n');
        let rest = s.drop_first();
        assert forall|j: int| 0 <= j < k - 1 implies rest[j] != '\n' by {
            assert(rest[j] == s[j + 1]);
        }
        if k - 1 < rest.len() {
            assert(rest[k - 1] == s[k]);
        }
        lemma_find_nl_at(rest, k - 1);
    }
}

/// `s` split at newlines, the separators dropped. Splitting always yields
/// at least one (possibly empty) segment.
pub open spec fn split_newlines(s: Seq<char>) -> Seq<Seq<char>>
    decreases s.len(),
{
    let i = find_nl(s);
    if 0 <= i && i < s.len() {
        seq![s.take(i)] + split_newlines(s.skip(i + 1))
    } else {
        seq![s]
    }
}

/// Unfold `split_newlines` at a known first newline position.
proof fn lemma_split_at(s: Seq<char>, k: int)
    requires
        0 <= k <= s.len(),
        forall|j: int| 0 <= j < k ==> s[j] != '\n',
        k < s.len() ==> s[k] == '\n',
    ensures
        k < s.len() ==> split_newlines(s) == seq![s.take(k)] + split_newlines(s.skip(k + 1)),
        k == s.len() ==> split_newlines(s) == seq![s],
{
    lemma_find_nl_at(s, k);
}

/// The segments kept from a split listing: each segment trimmed, empty
/// results dropped.
pub open spec fn kept_lines(segs: Seq<Seq<char>>) -> Seq<Seq<char>> {
    segs.map_values(|l: Seq<char>| trim_of(l)).filter(|l: Seq<char>| l.len() != 0)
}

proof fn lemma_kept_push(segs: Seq<Seq<char>>, l: Seq<char>)
    ensures
        kept_lines(segs.push(l)) == if trim_of(l).len() != 0 {
            kept_lines(segs).push(trim_of(l))
        } else {
            kept_lines(segs)
        },
{
    assert(segs.push(l).map_values(|x: Seq<char>| trim_of(x)) =~= segs.map_values(
        |x: Seq<char>| trim_of(x),
    ).push(trim_of(l)));
}

/// What a plaintext models listing names: its lines, trimmed, the empty
/// ones dropped, in order.
pub open spec fn spec_model_lines(s: Seq<char>) -> Seq<Seq<char>> {
    kept_lines(split_newlines(s))
}

/// Split a plaintext listing into trimmed, non-empty lines.
pub fn parse_model_lines(s: &str) -> (r: Vec<String>)
    ensures
        strs(r@) == spec_model_lines(s@),
{
    let n = s.unicode_len();
    let mut out: Vec<String> = Vec::new();
    let mut cur = String::new();
    let ghost mut start: int = 0;
    let ghost mut done: Seq<Seq<char>> = Seq::empty();
    let mut i: usize = 0;
    proof {
        assert(s@.skip(0) =~= s@);
        assert(split_newlines(s@) =~= done + split_newlines(s@.skip(0)));
        assert(strs(out@) =~= kept_lines(done));
    }
    while i < n
        invariant
            n == s@.len(),
            i <= n,
            0 <= start <= i as int,
            cur@ == s@.subrange(start, i as int),
            forall|j: int| start <= j < i as int ==> s@[j] != '\n',
            split_newlines(s@) == done + split_newlines(s@.skip(start)),
            strs(out@) == kept_lines(done),
        decreases n - i,
    {
        let c = s.get_char(i);
        if c == '\n' {
            proof {
                let tail = s@.skip(start);
                let k = i as int - start;
                assert forall|j: int| 0 <= j < k implies tail[j] != '\n' by {
                    assert(tail[j] == s@[start + j]);
                }
                assert(tail[k] == s@[i as int]);
                lemma_split_at(tail, k);
                assert(tail.take(k) =~= cur@);
                assert(tail.skip(k + 1) =~= s@.skip(i as int + 1));
                lemma_kept_push(done, cur@);
                assert(done + (seq![cur@] + split_newlines(s@.skip(i as int + 1))) =~= done.push(
                    cur@,
                ) + split_newlines(s@.skip(i as int + 1)));
            }
            let t = trim_str(cur.as_str());
            if t.as_str().unicode_len() != 0 {
                out.push(t);
                proof {
                    assert(strs(out@) =~= kept_lines(done).push(trim_of(cur@)));
                }
            }
            proof {
                done = done.push(cur@);
                start = i as int + 1;
            }
            cur = String::new();
            proof {
                assert(cur@ =~= s@.subrange(start, i as int + 1));
            }
        } else {
            push_char(&mut cur, c);
            proof {
                assert(cur@ =~= s@.subrange(start, i as int + 1));
            }
        }
        i = i + 1;
    }
    proof {
        let tail = s@.skip(start);
        let k = n as int - start;
        assert forall|j: int| 0 <= j < k implies tail[j] != '\n' by {
            assert(tail[j] == s@[start + j]);
        }
        lemma_split_at(tail, k);
        assert(tail =~= cur@);
        assert(split_newlines(s@) == done + seq![cur@]);
        lemma_kept_push(done, cur@);
        assert(done + seq![cur@] =~= done.push(cur@));
    }
    let t = trim_str(cur.as_str());
    if t.as_str().unicode_len() != 0 {
        out.push(t);
        proof {
            assert(strs(out@) =~= kept_lines(done).push(trim_of(cur@)));
        }
    }
    out
}

/// The string elements, in order, of a text that parses as a JSON array;
/// elements of other kinds are skipped. Nothing for a text that does not
/// parse as an array.
pub uninterp spec fn array_strings_of(s: Seq<char>) -> Option<Seq<Seq<char>>>;

/// Relies on `serde_json::from_str`, `serde_json::Value`'s `Array` variant
/// and `serde_json::Value::as_str`: whether the text parses as a JSON array
/// and which of its elements are strings depend on its characters alone.
#[verifier::external_body]
fn json_array_strings(s: &str) -> (r: Option<Vec<String>>)
    ensures
        r is Some <==> array_strings_of(s@) is Some,
        r matches Some(v) ==> array_strings_of(s@) == Some(strs(v@)),
{
    match serde_json::from_str::<serde_json::Value>(s) {
        Ok(serde_json::Value::Array(items)) => Some(
            items.iter().filter_map(|v| v.as_str().map(|t| t.to_string())).collect(),
        ),
        _ => None,
    }
}

/// The structured branch of a models listing: when the probe ran
/// successfully and its stdout parses as a JSON array with at least one
/// string element, exactly those strings, in array order. Anything else
/// yields nothing and the caller falls back to the plaintext listing.
pub fn models_from_json_probe(probe: Option<&ProbeOutcome>) -> (r: Option<Vec<String>>)
    ensures
        r is Some <==> ({
            &&& view_of(probe) matches Some(p)
            &&& p.success
            &&& array_strings_of(p.stdout) matches Some(l)
            &&& l.len() > 0
        }),
        r matches Some(v) ==> ({
            &&& view_of(probe) matches Some(p)
            &&& array_strings_of(p.stdout) == Some(strs(v@))
        }),
{
    match probe {
        Some(p) => {
            if p.success {
                match json_array_strings(p.stdout.as_str()) {
                    Some(list) => {
                        if list.len() > 0 {
                            Some(list)
                        } else {
                            None
                        }
                    },
                    None => None,
                }
            } else {
                None
            }
        },
        None => None,
    }
}

/// The plaintext fallback of a models listing: a successful probe yields
/// its trimmed non-empty stdout lines; a failed probe reports its stderr; a
/// probe that could not run reports the spawn error.
pub fn models_from_plain_probe(probe: Option<&ProbeOutcome>, spawn_error: &str) -> (r: Result<
    Vec<String>,
    String,
>)
    ensures
        match view_of(probe) {
            Some(p) => if p.success {
                r matches Ok(l) && strs(l@) == spec_model_lines(p.stdout)
            } else {
                r matches Err(e) && e@ == p.stderr
            },
            None => r matches Err(e) && e@ == spawn_error@,
        },
{
    match probe {
        Some(p) => {
            if p.success {
                Ok(parse_model_lines(p.stdout.as_str()))
            } else {
                Err(p.stderr.clone())
            }
        },
        None => Err(spawn_error.to_owned()),
    }
}

/// What the first capture group of a compiled pattern matches in a text:
/// nothing when the pattern does not compile, does not match, or the group
/// does not participate.
pub uninterp spec fn capture_of(pattern: Seq<char>, content: Seq<char>) -> Option<Seq<char>>;

/// Relies on `regex::Regex::new` and `regex::Regex::captures`: whether the
/// pattern compiles, whether it matches, and the text of its first capture
/// group depend on the pattern and the content alone.
#[verifier::external_body]
fn regex_capture(pattern: &str, content: &str) -> (r: Option<String>)
    ensures
        r is Some <==> capture_of(pattern@, content@) is Some,
        r matches Some(v) ==> capture_of(pattern@, content@) == Some(v@),
{
    match regex::Regex::new(pattern) {
        Ok(re) => match re.captures(content) {
            Some(c) => c.get(1).map(|m| m.as_str().to_string()),
            None => None,
        },
        Err(_) => None,
    }
}

/// `"key"\s*[:=]\s*"value"`.
pub open spec fn pat_quoted(key: Seq<char>) -> Seq<char> {
    "\""@ + key + "\"\\s*[:=]\\s*\"([^\"]+)\""@
}

/// `key\s*[:=]\s*"value"`.
pub open spec fn pat_plain(key: Seq<char>) -> Seq<char> {
    key + "\\s*[:=]\\s*\"([^\"]+)\""@
}

/// `key\s*[:=]\s*value` with a bare word value.
pub open spec fn pat_bare(key: Seq<char>) -> Seq<char> {
    key + "\\s*[:=]\\s*([A-Za-z0-9._-]+)"@
}

/// The value a configuration text yields for one key: the first of the
/// three patterns — quoted key, bare key with quoted value, bare key with
/// bare value — that captures.
pub open spec fn spec_extract(content: Seq<char>, key: Seq<char>) -> Option<Seq<char>> {
    if capture_of(pat_quoted(key), content) is Some {
        capture_of(pat_quoted(key), content)
    } else if capture_of(pat_plain(key), content) is Some {
        capture_of(pat_plain(key), content)
    } else {
        capture_of(pat_bare(key), content)
    }
}

/// Extract a `key: value` (JSON, YAML or TOML style) setting from a
/// configuration text.
pub fn extract_model_value(content: &str, key: &str) -> (r: Option<String>)
    ensures
        r is Some <==> spec_extract(content@, key@) is Some,
        r matches Some(v) ==> spec_extract(content@, key@) == Some(v@),
{
    let mut p1 = "\"".to_owned();
    p1.append(key);
    p1.append("\"\\s*[:=]\\s*\"([^\"]+)\"");
    if let Some(v) = regex_capture(p1.as_str(), content) {
        return Some(v);
    }
    let mut p2 = key.to_owned();
    p2.append("\\s*[:=]\\s*\"([^\"]+)\"");
    if let Some(v) = regex_capture(p2.as_str(), content) {
        return Some(v);
    }
    let mut p3 = key.to_owned();
    p3.append("\\s*[:=]\\s*([A-Za-z0-9._-]+)");
    regex_capture(p3.as_str(), content)
}

/// The value one configuration text yields: the keys `default_model`,
/// `model`, `chat_model` are tried in that order.
pub open spec fn spec_scan(content: Seq<char>) -> Option<Seq<char>> {
    if spec_extract(content, "default_model"@) is Some {
        spec_extract(content, "default_model"@)
    } else if spec_extract(content, "model"@) is Some {
        spec_extract(content, "model"@)
    } else {
        spec_extract(content, "chat_model"@)
    }
}

/// Scan one configuration text for a default model.
pub fn scan_content_for_model(content: &str) -> (r: Option<String>)
    ensures
        r is Some <==> spec_scan(content@) is Some,
        r matches Some(v) ==> spec_scan(content@) == Some(v@),
{
    if let Some(v) = extract_model_value(content, "default_model") {
        return Some(v);
    }
    if let Some(v) = extract_model_value(content, "model") {
        return Some(v);
    }
    extract_model_value(content, "chat_model")
}

/// The candidate configuration roots scanned for a provider's default
/// model, in scan order. The primary provider keeps no configuration files
/// to scan.
pub open spec fn spec_config_scan_roots(p: Provider) -> Seq<Seq<char>> {
    match p {
        Provider::Primary => Seq::empty(),
        Provider::Codex => seq![
            "~/.config/openai"@,
            "~/.config/codex"@,
            "~/.openai"@,
            "~/Library/Application Support/OpenAI"@,
        ],
        Provider::Gemini => seq![
            "~/.config/gemini"@,
            "~/.gemini"@,
            "~/Library/Application Support/Gemini"@,
        ],
    }
}

pub fn config_scan_roots(p: Provider) -> (r: Vec<String>)
    ensures
        strs(r@) == spec_config_scan_roots(p),
{
    let mut r: Vec<String> = Vec::new();
    match p {
        Provider::Primary => {},
        Provider::Codex => {
            r.push("~/.config/openai".to_owned());
            r.push("~/.config/codex".to_owned());
            r.push("~/.openai".to_owned());
            r.push("~/Library/Application Support/OpenAI".to_owned());
        },
        Provider::Gemini => {
            r.push("~/.config/gemini".to_owned());
            r.push("~/.gemini".to_owned());
            r.push("~/Library/Application Support/Gemini".to_owned());
        },
    }
    proof {
        assert(strs(r@) =~= spec_config_scan_roots(p));
    }
    r
}

/// The default model: the stored value when the settings store has one,
/// even when a configuration-file scan would yield a different value; the
/// scanned value only otherwise.
pub fn choose_default_model(stored: Option<String>, scanned: Option<String>) -> (r: Option<
    String,
>)
    ensures
        stored matches Some(s) ==> r matches Some(v) && v == s,
        stored is None ==> r == scanned,
{
    match stored {
        Some(s) => Some(s),
        None => scanned,
    }
}

} // verus!
