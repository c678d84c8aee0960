//! Event topics and payloads.
//!
//! Every event of a session is published twice: on a provider-wide topic
//! `"{provider}-{kind}"` and on a session-scoped topic
//! `"{provider}-{kind}:{session_id}"`. Payloads are one-line JSON texts built
//! here character by character, against an exact specification of the JSON
//! string escaping (the escaping used by serde_json's compact serializer:
//! short escapes for backspace, tab, newline, form feed and carriage return,
//! `\u00XX` with lower-case hex digits for the other control characters, and
//! `\"` and `\\` for quote and backslash).

use vstd::prelude::*;

use crate::provider::{
    kind_name, provider_name, spec_kind_name, spec_provider_name, EventKind, Provider,
};
use crate::text::push_char;

verus! {

/// The lower-case hexadecimal digit for `d`, for `0 <= d < 16`.
pub open spec fn hex_char(d: int) -> char {
    if d == 0 {
        '0'
    } else if d == 1 {
        '1'
    } else if d == 2 {
        '2'
    } else if d == 3 {
        '3'
    } else if d == 4 {
        '4'
    } else if d == 5 {
        '5'
    } else if d == 6 {
        '6'
    } else if d == 7 {
        '7'
    } else if d == 8 {
        '8'
    } else if d == 9 {
        '9'
    } else if d == 10 {
        'a'
    } else if d == 11 {
        'b'
    } else if d == 12 {
        'c'
    } else if d == 13 {
        'd'
    } else if d == 14 {
        'e'
    } else {
        'f'
    }
}

/// How one character appears inside a JSON string literal.
pub open spec fn escaped_char(c: char) -> Seq<char> {
    if c == '"' {
        seq!['\\', '"']
    } else if c == '\\' {
        seq!['\\', '\\']
    } else if c == '\u{8}' {
        seq!['\\', 'b']
    } else if c == '\t' {
        seq!['\\', 't']
    } else if c == '\n' {
        seq!['\\', 'n']
    } else if c == '\u{c}' {
        seq!['\\', 'f']
    } else if c == '\r' {
        seq!['\\', 'r']
    } else if (c as u32) < 0x20 {
        seq!['\\', 'u', '0', '0', hex_char((c as u32) as int / 16), hex_char(
            (c as u32) as int % 16,
        )]
    } else {
        seq![c]
    }
}

/// The body of the JSON string literal for `s` (without the quotes).
pub open spec fn json_escaped(s: Seq<char>) -> Seq<char>
    decreases s.len(),
{
    if s.len() == 0 {
        Seq::empty()
    } else {
        json_escaped(s.drop_last()) + escaped_char(s.last())
    }
}

/// The JSON string literal for `s`, quotes included.
pub open spec fn json_quoted(s: Seq<char>) -> Seq<char> {
    seq!['"'] + json_escaped(s) + seq!['"']
}

fn hex_char_exec(d: u32) -> (c: char)
    requires
        d < 16,
    ensures
        c == hex_char(d as int),
{
    match d {
        0 => '0',
        1 => '1',
        2 => '2',
        3 => '3',
        4 => '4',
        5 => '5',
        6 => '6',
        7 => '7',
        8 => '8',
        9 => '9',
        10 => 'a',
        11 => 'b',
        12 => 'c',
        13 => 'd',
        14 => 'e',
        _ => 'f',
    }
}

/// Append the escaped form of one character to `out`.
fn push_escaped(out: &mut String, c: char)
    ensures
        final(out)@ == old(out)@ + escaped_char(c),
{
    if c == '"' {
        push_char(out, '\\');
        push_char(out, '"');
    } else if c == '\\' {
        push_char(out, '\\');
        push_char(out, '\\');
    } else if c == '\u{8}' {
        push_char(out, '\\');
        push_char(out, 'b');
    } else if c == '\t' {
        push_char(out, '\\');
        push_char(out, 't');
    } else if c == '\n' {
        push_char(out, '\\');
        push_char(out, 'n');
    } else if c == '\u{c}' {
        push_char(out, '\\');
        push_char(out, 'f');
    } else if c == '\r' {
        push_char(out, '\\');
        push_char(out, 'r');
    } else {
        let code = c as u32;
        if code < 0x20 {
            push_char(out, '\\');
            push_char(out, 'u');
            push_char(out, '0');
            push_char(out, '0');
            push_char(out, hex_char_exec(code / 16));
            push_char(out, hex_char_exec(code % 16));
        } else {
            push_char(out, c);
        }
    }
    proof {
        assert(final(out)@ =~= old(out)@ + escaped_char(c));
    }
}

/// Append the JSON string literal for `s` (quotes included) to `out`.
fn append_quoted(out: &mut String, s: &str)
    ensures
        final(out)@ == old(out)@ + json_quoted(s@),
{
    let ghost base = out@;
    push_char(out, '"');
    let n: usize = s.unicode_len();
    let mut i: usize = 0;
    while i < n
        invariant
            n == s@.len(),
            i <= n,
            out@ == base + seq!['"'] + json_escaped(s@.take(i as int)),
        decreases n - i,
    {
        let c = s.get_char(i);
        push_escaped(out, c);
        proof {
            assert(s@.take(i + 1 as int).drop_last() =~= s@.take(i as int));
            assert(s@.take(i + 1 as int).last() == s@[i as int]);
        }
        i = i + 1;
    }
    push_char(out, '"');
    proof {
        assert(s@.take(n as int) =~= s@);
        assert(out@ =~= base + json_quoted(s@));
    }
}

/// One event to publish: a topic and a one-line payload.
pub struct Emission {
    pub topic: String,
    pub payload: String,
}

pub struct EmissionView {
    pub topic: Seq<char>,
    pub payload: Seq<char>,
}

impl View for Emission {
    type V = EmissionView;

    open spec fn view(&self) -> EmissionView {
        EmissionView { topic: self.topic@, payload: self.payload@ }
    }
}

/// The views of a sequence of emissions.
pub open spec fn emissions_view(s: Seq<Emission>) -> Seq<EmissionView> {
    s.map_values(|e: Emission| e@)
}

/// The provider-wide topic `"{provider}-{kind}"`.
pub open spec fn spec_wide_topic(p: Provider, k: EventKind) -> Seq<char> {
    spec_provider_name(p) + "-"@ + spec_kind_name(k)
}

/// The session-scoped topic `"{provider}-{kind}:{session_id}"`.
pub open spec fn spec_session_topic(p: Provider, k: EventKind, sid: Seq<char>) -> Seq<char> {
    spec_wide_topic(p, k) + ":"@ + sid
}

pub fn wide_topic(p: Provider, k: EventKind) -> (r: String)
    ensures
        r@ == spec_wide_topic(p, k),
{
    let mut t = provider_name(p).to_owned();
    t.append("-");
    t.append(kind_name(k));
    t
}

pub fn session_topic(p: Provider, k: EventKind, sid: &str) -> (r: String)
    ensures
        r@ == spec_session_topic(p, k, sid@),
{
    let mut t = wide_topic(p, k);
    t.append(":");
    t.append(sid);
    t
}

/// The init payload: emitted once, before any output of the session.
pub open spec fn spec_init_payload(
    p: Provider,
    sid: Seq<char>,
    model: Seq<char>,
    cwd: Seq<char>,
) -> Seq<char> {
    "{\"type\":\"system\",\"subtype\":\"init\",\"session_id\":"@ + json_quoted(sid)
        + ",\"model\":"@ + json_quoted(model) + ",\"cwd\":"@ + json_quoted(cwd) + ",\"provider\":"@
        + json_quoted(spec_provider_name(p)) + "}"@
}

/// The envelope wrapping one line of provider stdout as assistant text.
pub open spec fn spec_output_payload(line: Seq<char>) -> Seq<char> {
    "{\"type\":\"assistant\",\"message\":{\"content\":[{\"type\":\"text\",\"text\":"@
        + json_quoted(line) + "}]}}"@
}

pub fn init_payload(p: Provider, sid: &str, model: &str, cwd: &str) -> (r: String)
    ensures
        r@ == spec_init_payload(p, sid@, model@, cwd@),
{
    let mut t = "{\"type\":\"system\",\"subtype\":\"init\",\"session_id\":".to_owned();
    append_quoted(&mut t, sid);
    t.append(",\"model\":");
    append_quoted(&mut t, model);
    t.append(",\"cwd\":");
    append_quoted(&mut t, cwd);
    t.append(",\"provider\":");
    append_quoted(&mut t, provider_name(p));
    t.append("}");
    t
}

pub fn output_payload(line: &str) -> (r: String)
    ensures
        r@ == spec_output_payload(line@),
{
    let mut t = "{\"type\":\"assistant\",\"message\":{\"content\":[{\"type\":\"text\",\"text\":"
        .to_owned();
    append_quoted(&mut t, line);
    t.append("}]}}");
    t
}

/// The init event, published on the provider-wide topic first, then on the
/// session-scoped topic.
pub open spec fn spec_init_emissions(
    p: Provider,
    sid: Seq<char>,
    model: Seq<char>,
    cwd: Seq<char>,
) -> Seq<EmissionView> {
    seq![
        EmissionView {
            topic: spec_wide_topic(p, EventKind::Output),
            payload: spec_init_payload(p, sid, model, cwd),
        },
        EmissionView {
            topic: spec_session_topic(p, EventKind::Output, sid),
            payload: spec_init_payload(p, sid, model, cwd),
        },
    ]
}

/// One line of provider output, published on the session-scoped topic first,
/// then on the provider-wide topic, wrapped in the assistant-text envelope.
pub open spec fn spec_output_emissions(p: Provider, sid: Seq<char>, line: Seq<char>) -> Seq<
    EmissionView,
> {
    seq![
        EmissionView {
            topic: spec_session_topic(p, EventKind::Output, sid),
            payload: spec_output_payload(line),
        },
        EmissionView { topic: spec_wide_topic(p, EventKind::Output), payload: spec_output_payload(line) },
    ]
}

/// One line of provider stderr, published verbatim on the session-scoped
/// topic first, then on the provider-wide topic.
pub open spec fn spec_error_emissions(p: Provider, sid: Seq<char>, line: Seq<char>) -> Seq<
    EmissionView,
> {
    seq![
        EmissionView { topic: spec_session_topic(p, EventKind::Error, sid), payload: line },
        EmissionView { topic: spec_wide_topic(p, EventKind::Error), payload: line },
    ]
}

/// The completion event, payload the JSON boolean `true`, published on the
/// session-scoped topic first, then on the provider-wide topic.
pub open spec fn spec_complete_emissions(p: Provider, sid: Seq<char>) -> Seq<EmissionView> {
    seq![
        EmissionView { topic: spec_session_topic(p, EventKind::Complete, sid), payload: "true"@ },
        EmissionView { topic: spec_wide_topic(p, EventKind::Complete), payload: "true"@ },
    ]
}

/// A session's init announcement goes to exactly the provider-wide and the
/// session-scoped output topics, both carrying the one init payload, which
/// embeds the given session id. The surrounding process loop publishes it
/// before it begins reading the process's streams, so an init event with a
/// session's id is observable before any output event of that session; that
/// ordering is the loop's, not this library's.
pub proof fn lemma_init_announces_session(
    p: Provider,
    sid: Seq<char>,
    model: Seq<char>,
    cwd: Seq<char>,
)
    ensures
        spec_init_emissions(p, sid, model, cwd).len() == 2,
        spec_init_emissions(p, sid, model, cwd)[0].topic == spec_wide_topic(p, EventKind::Output),
        spec_init_emissions(p, sid, model, cwd)[1].topic == spec_session_topic(
            p,
            EventKind::Output,
            sid,
        ),
        spec_init_emissions(p, sid, model, cwd)[0].payload == spec_init_payload(p, sid, model, cwd),
        spec_init_emissions(p, sid, model, cwd)[1].payload == spec_init_payload(p, sid, model, cwd),
{
}

pub fn init_emissions(p: Provider, sid: &str, model: &str, cwd: &str) -> (r: Vec<Emission>)
    ensures
        emissions_view(r@) == spec_init_emissions(p, sid@, model@, cwd@),
{
    let payload = init_payload(p, sid, model, cwd);
    let wide = Emission { topic: wide_topic(p, EventKind::Output), payload: payload.clone() };
    let scoped = Emission { topic: session_topic(p, EventKind::Output, sid), payload };
    let mut r: Vec<Emission> = Vec::new();
    r.push(wide);
    r.push(scoped);
    proof {
        assert(emissions_view(r@) =~= spec_init_emissions(p, sid@, model@, cwd@));
    }
    r
}

pub fn output_emissions(p: Provider, sid: &str, line: &str) -> (r: Vec<Emission>)
    ensures
        emissions_view(r@) == spec_output_emissions(p, sid@, line@),
{
    let payload = output_payload(line);
    let scoped = Emission {
        topic: session_topic(p, EventKind::Output, sid),
        payload: payload.clone(),
    };
    let wide = Emission { topic: wide_topic(p, EventKind::Output), payload };
    let mut r: Vec<Emission> = Vec::new();
    r.push(scoped);
    r.push(wide);
    proof {
        assert(emissions_view(r@) =~= spec_output_emissions(p, sid@, line@));
    }
    r
}

pub fn error_emissions(p: Provider, sid: &str, line: &str) -> (r: Vec<Emission>)
    ensures
        emissions_view(r@) == spec_error_emissions(p, sid@, line@),
{
    let scoped = Emission {
        topic: session_topic(p, EventKind::Error, sid),
        payload: line.to_owned(),
    };
    let wide = Emission { topic: wide_topic(p, EventKind::Error), payload: line.to_owned() };
    let mut r: Vec<Emission> = Vec::new();
    r.push(scoped);
    r.push(wide);
    proof {
        assert(emissions_view(r@) =~= spec_error_emissions(p, sid@, line@));
    }
    r
}

pub fn complete_emissions(p: Provider, sid: &str) -> (r: Vec<Emission>)
    ensures
        emissions_view(r@) == spec_complete_emissions(p, sid@),
{
    let scoped = Emission {
        topic: session_topic(p, EventKind::Complete, sid),
        payload: "true".to_owned(),
    };
    let wide = Emission { topic: wide_topic(p, EventKind::Complete), payload: "true".to_owned() };
    let mut r: Vec<Emission> = Vec::new();
    r.push(scoped);
    r.push(wide);
    proof {
        assert(emissions_view(r@) =~= spec_complete_emissions(p, sid@));
    }
    r
}

} // verus!
