//! Events and their Server-Sent Events encoding.
//!
//! An event is written on the wire as
//!
//! ```text
//! event: {type}
//! data: {json}
//!
//! ```
//!
//! where `{json}` is a single-line JSON object whose first member is
//! `"type"`, holding the same name as the `event:` line.
use vstd::prelude::*;

use crate::json::{
    is_plain, lemma_escape_plain, lemma_read_json_string, lemma_read_value,
    spec_json_string, spec_json_value_text, spec_read_json_object, spec_read_members,
    JsonValue,
};

verus! {

#[verifier::external_type_specification]
#[verifier::external_body]
pub struct ExJsonError(serde_json::Error);

/// The text that `serde_json::to_string` produces for a string value.
pub uninterp spec fn json_string_literal(s: Seq<char>) -> Seq<char>;

/// A sequence of characters holds no line break (`\n` or `\r`).
pub open spec fn no_line_break(s: Seq<char>) -> bool {
    forall|i: int| 0 <= i < s.len() ==> s[i] != '\n' && s[i] != '\r'
}

/// Encodes `s` as a JSON string with `serde_json::to_string`.
///
/// Trusted: the call succeeds, and its text is `json_string_literal(s)`, which
/// is `spec_json_string(s)`: `"`, then each character as it is except `"` and
/// `\` and the control characters below U+0020, which are escaped (`\b`, `\t`,
/// `\n`, `\f`, `\r`, otherwise `\u00` and two lowercase hex digits), then `"`.
/// So it starts and ends with a double quote and holds no raw line break.
/// serde_json
/// serializes a `str` with `format_escaped_str`, which fails only where the
/// writer fails, and `to_string` writes into a `Vec<u8>`, which appends and
/// grows as needed; it writes `"` before and after the contents and escapes
/// every byte below 0x20, `\n` and `\r` among them, as a backslash sequence.
#[verifier::external_body]
fn json_quote(s: &str) -> (r: Result<String, serde_json::Error>)
    ensures
        r is Ok,
        r matches Ok(q) ==> q@ == json_string_literal(s@),
        r matches Ok(q) ==> q@ == spec_json_string(s@),
        r matches Ok(q) ==> q@.len() >= 2 && q@[0] == '"' && q@.last() == '"' && no_line_break(
            q@,
        ),
{
    serde_json::to_string(s)
}

/// Failure to encode an event as JSON.
#[derive(Debug)]
pub enum SerializeError {
    /// The JSON encoder's error, passed through.
    Json(serde_json::Error),
}

/// The SSE frame for an event named `event_type` with payload `data`.
pub open spec fn spec_sse_frame(event_type: Seq<char>, data: Seq<char>) -> Seq<char> {
    "event: "@ + event_type + "\ndata: "@ + data + "\n\n"@
}

/// Writes one Server-Sent Event: an `event:` line, a `data:` line and the
/// blank line that ends the event.
pub fn sse_frame(event_type: &str, data: &str) -> (r: String)
    ensures
        r@ == spec_sse_frame(event_type@, data@),
{
    let mut s = String::new();
    s.append("event: ");
    s.append(event_type);
    s.append("\ndata: ");
    s.append(data);
    s.append("\n\n");
    s
}

/// `s` between double quotes, written as it is.
pub open spec fn spec_quoted(s: Seq<char>) -> Seq<char> {
    "\""@ + s + "\""@
}

pub(crate) fn quote_verbatim(s: &str) -> (r: String)
    ensures
        r@ == spec_quoted(s@),
{
    let mut q = String::new();
    q.append("\"");
    q.append(s);
    q.append("\"");
    q
}

/// One member `"key":value` of a JSON object; `value` is JSON text already.
pub open spec fn spec_json_member(m: (Seq<char>, Seq<char>)) -> Seq<char> {
    spec_quoted(m.0) + ":"@ + m.1
}

/// The members of a JSON object, separated by commas.
pub open spec fn spec_json_members(ms: Seq<(Seq<char>, Seq<char>)>) -> Seq<char>
    decreases ms.len(),
{
    if ms.len() == 0 {
        Seq::empty()
    } else if ms.len() == 1 {
        spec_json_member(ms[0])
    } else {
        spec_json_members(ms.drop_last()) + ","@ + spec_json_member(ms.last())
    }
}

/// A compact JSON object with the given members, in order.
pub open spec fn spec_json_object(ms: Seq<(Seq<char>, Seq<char>)>) -> Seq<char> {
    "{"@ + spec_json_members(ms) + "}"@
}

/// The keys and value texts of a list of members.
pub open spec fn members_view(ms: Seq<(&str, String)>) -> Seq<(Seq<char>, Seq<char>)> {
    ms.map_values(|m: (&str, String)| (m.0@, m.1@))
}

/// Writes a compact JSON object from `(key, value)` members, in order.
///
/// Each value is JSON text already; each key is written between double quotes
/// as it is, so keys are plain names that need no escaping.
pub fn json_object(members: &Vec<(&str, String)>) -> (r: String)
    ensures
        r@ == spec_json_object(members_view(members@)),
{
    let ghost mv = members_view(members@);
    let mut s = String::new();
    s.append("{");
    let n = members.len();
    for i in 0..n
        invariant
            n == members@.len(),
            mv == members_view(members@),
            s@ == "{"@ + spec_json_members(mv.take(i as int)),
    {
        let ghost prev = s@;
        if i > 0 {
            s.append(",");
        }
        s.append("\"");
        s.append(members[i].0);
        s.append("\"");
        s.append(":");
        s.append(members[i].1.as_str());
        proof {
            let m = mv[i as int];
            assert(m == (members@[i as int].0@, members@[i as int].1@));
            assert(mv.take(i + 1).drop_last() =~= mv.take(i as int));
            assert(mv.take(i + 1).last() == m);
            if i == 0 {
                assert(mv.take(1) =~= seq![m]);
                assert(s@ =~= "{"@ + spec_json_member(m));
            } else {
                assert(s@ =~= prev + ","@ + spec_json_member(m));
            }
        }
    }
    proof {
        assert(mv.take(n as int) =~= mv);
    }
    s.append("}");
    s
}

/// JSON text of a boolean.
pub open spec fn spec_json_bool(b: bool) -> Seq<char> {
    if b {
        "true"@
    } else {
        "false"@
    }
}

/// The `"type"` member that starts every event's JSON payload.
pub open spec fn spec_type_member(e: &AgentEvent) -> (Seq<char>, Seq<char>) {
    ("type"@, spec_quoted(spec_event_type(e)))
}

/// The string fields of an event, in declaration order.
pub open spec fn spec_string_fields(e: &AgentEvent) -> Seq<Seq<char>> {
    match e {
        AgentEvent::TextDelta { content } => seq![content@],
        AgentEvent::ToolStart { tool_name, description } => seq![tool_name@, description@],
        AgentEvent::ToolResult { tool_name, summary } => seq![tool_name@, summary@],
        AgentEvent::Done { id } => seq![id@],
        AgentEvent::Error { message, .. } => seq![message@],
    }
}

/// The members of an event's JSON payload, given the JSON text `q` of its
/// string fields in declaration order: `"type"` first, then the fields in
/// declaration order.
pub open spec fn spec_payload_members(e: &AgentEvent, q: Seq<Seq<char>>) -> Seq<
    (Seq<char>, Seq<char>),
> {
    let tm = spec_type_member(e);
    match e {
        AgentEvent::TextDelta { .. } => seq![tm, ("content"@, q[0])],
        AgentEvent::ToolStart { .. } => seq![tm, ("tool_name"@, q[0]), ("description"@, q[1])],
        AgentEvent::ToolResult { .. } => seq![tm, ("tool_name"@, q[0]), ("summary"@, q[1])],
        AgentEvent::Done { .. } => seq![tm, ("id"@, q[0])],
        AgentEvent::Error { recoverable, .. } => seq![
            tm,
            ("message"@, q[0]),
            ("recoverable"@, spec_json_bool(*recoverable)),
        ],
    }
}

/// The JSON payload of an event, given the JSON text of its string fields.
pub open spec fn spec_payload(e: &AgentEvent, q: Seq<Seq<char>>) -> Seq<char> {
    spec_json_object(spec_payload_members(e, q))
}

/// The JSON text of each string field of an event.
pub open spec fn spec_quoted_fields(e: &AgentEvent) -> Seq<Seq<char>> {
    spec_string_fields(e).map_values(|f: Seq<char>| spec_json_string(f))
}

/// The JSON payload of an event, its strings encoded by serde_json.
pub open spec fn spec_data_json(e: &AgentEvent) -> Seq<char> {
    spec_payload(e, spec_quoted_fields(e))
}

/// The character texts of a list of strings.
pub open spec fn strings_view(v: Seq<String>) -> Seq<Seq<char>> {
    v.map_values(|q: String| q@)
}

proof fn lemma_concat_no_line_break(a: Seq<char>, b: Seq<char>)
    requires
        no_line_break(a),
        no_line_break(b),
    ensures
        no_line_break(a + b),
{
    assert forall|i: int| 0 <= i < (a + b).len() implies (a + b)[i] != '\n' && (a + b)[i]
        != '\r' by {
        if i < a.len() {
            assert((a + b)[i] == a[i]);
        } else {
            assert((a + b)[i] == b[i - a.len()]);
        }
    }
}

proof fn lemma_punctuation_no_line_break()
    ensures
        no_line_break("\""@),
        no_line_break(":"@),
        no_line_break(","@),
        no_line_break("{"@),
        no_line_break("}"@),
{
    reveal_strlit("\"");
    reveal_strlit(":");
    reveal_strlit(",");
    reveal_strlit("{");
    reveal_strlit("}");
}

proof fn lemma_member_no_line_break(m: (Seq<char>, Seq<char>))
    requires
        no_line_break(m.0),
        no_line_break(m.1),
    ensures
        no_line_break(spec_json_member(m)),
{
    lemma_punctuation_no_line_break();
    lemma_concat_no_line_break("\""@, m.0);
    lemma_concat_no_line_break("\""@ + m.0, "\""@);
    lemma_concat_no_line_break(spec_quoted(m.0), ":"@);
    lemma_concat_no_line_break(spec_quoted(m.0) + ":"@, m.1);
}

proof fn lemma_object_no_line_break(ms: Seq<(Seq<char>, Seq<char>)>)
    requires
        forall|i: int| 0 <= i < ms.len() ==> no_line_break(#[trigger] ms[i].0) && no_line_break(
            ms[i].1,
        ),
    ensures
        no_line_break(spec_json_members(ms)),
        no_line_break(spec_json_object(ms)),
    decreases ms.len(),
{
    lemma_punctuation_no_line_break();
    if ms.len() == 0 {
    } else if ms.len() == 1 {
        lemma_member_no_line_break(ms[0]);
    } else {
        let init = ms.drop_last();
        assert forall|i: int| 0 <= i < init.len() implies no_line_break(#[trigger] init[i].0)
            && no_line_break(init[i].1) by {
            assert(init[i] == ms[i]);
        }
        lemma_object_no_line_break(init);
        lemma_member_no_line_break(ms.last());
        lemma_concat_no_line_break(spec_json_members(init), ","@);
        lemma_concat_no_line_break(spec_json_members(init) + ","@, spec_json_member(ms.last()));
    }
    lemma_concat_no_line_break("{"@, spec_json_members(ms));
    lemma_concat_no_line_break("{"@ + spec_json_members(ms), "}"@);
}

proof fn lemma_event_type_no_line_break(e: &AgentEvent)
    ensures
        no_line_break(spec_event_type(e)),
        no_line_break(spec_type_member(e).0),
        no_line_break(spec_type_member(e).1),
{
    reveal_strlit("text_delta");
    reveal_strlit("tool_start");
    reveal_strlit("tool_result");
    reveal_strlit("done");
    reveal_strlit("error");
    reveal_strlit("type");
    lemma_punctuation_no_line_break();
    lemma_concat_no_line_break("\""@, spec_event_type(e));
    lemma_concat_no_line_break("\""@ + spec_event_type(e), "\""@);
}

proof fn lemma_member_names_no_line_break()
    ensures
        no_line_break("content"@),
        no_line_break("tool_name"@),
        no_line_break("description"@),
        no_line_break("summary"@),
        no_line_break("id"@),
        no_line_break("message"@),
        no_line_break("recoverable"@),
        no_line_break(spec_json_bool(true)),
        no_line_break(spec_json_bool(false)),
{
    reveal_strlit("content");
    reveal_strlit("tool_name");
    reveal_strlit("description");
    reveal_strlit("summary");
    reveal_strlit("id");
    reveal_strlit("message");
    reveal_strlit("recoverable");
    reveal_strlit("true");
    reveal_strlit("false");
}

/// `f` is exactly one SSE event: the line `event: {event_type}`, the line
/// `data: {data}`, and an empty line; its only line breaks are the three `\n`
/// that end those lines, and it holds no `\r`.
pub open spec fn is_one_event_frame(f: Seq<char>, event_type: Seq<char>, data: Seq<char>) -> bool {
    let end_event: int = event_type.len() as int + 7;
    let end_data: int = end_event + 7 + data.len();
    &&& f.len() == end_data + 2
    &&& f.take(7) == "event: "@
    &&& f.subrange(7, end_event) == event_type
    &&& f.subrange(end_event + 1, end_event + 7) == "data: "@
    &&& f.subrange(end_event + 7, end_data) == data
    &&& forall|i: int|
        0 <= i < f.len() ==> (f[i] == '\n' <==> (i == end_event || i == end_data || i
            == end_data + 1))
    &&& forall|i: int| 0 <= i < f.len() ==> f[i] != '\r'
}

/// A frame whose name and payload hold no line break is exactly one SSE event:
/// the line `event: {name}`, the line `data: {payload}`, and an empty line. Its
/// only line breaks are the three `\n` that end those lines, and it holds no `\r`.
pub proof fn law_frame_is_one_event(event_type: Seq<char>, data: Seq<char>)
    requires
        no_line_break(event_type),
        no_line_break(data),
    ensures
        is_one_event_frame(spec_sse_frame(event_type, data), event_type, data),
{
    reveal_strlit("event: ");
    reveal_strlit("\ndata: ");
    reveal_strlit("\n\n");
    reveal_strlit("data: ");
    let f = spec_sse_frame(event_type, data);
    let end_event: int = event_type.len() as int + 7;
    let end_data: int = end_event + 7 + data.len();
    let a = "event: "@;
    let b = "\ndata: "@;
    let c = "\n\n"@;
    assert(f == a + event_type + b + data + c);
    assert(f.take(7) =~= a);
    assert(f.subrange(7, end_event) =~= event_type);
    assert(f.subrange(end_event + 1, end_event + 7) =~= "data: "@);
    assert(f.subrange(end_event + 7, end_data) =~= data);
    assert forall|i: int| 0 <= i < f.len() implies (f[i] == '\n' <==> (i == end_event || i
        == end_data || i == end_data + 1)) && f[i] != '\r' by {
        if i < 7 {
            assert(f[i] == a[i]);
        } else if i < end_event {
            assert(f[i] == event_type[i - 7]);
        } else if i < end_event + 7 {
            assert(f[i] == b[i - end_event]);
        } else if i < end_data {
            assert(f[i] == data[i - end_event - 7]);
        } else {
            assert(f[i] == c[i - end_data]);
        }
    }
}

proof fn lemma_members_start_with_first(ms: Seq<(Seq<char>, Seq<char>)>)
    requires
        ms.len() >= 1,
    ensures
        spec_json_members(ms).len() >= spec_json_member(ms[0]).len(),
        spec_json_members(ms).take(spec_json_member(ms[0]).len() as int) == spec_json_member(
            ms[0],
        ),
    decreases ms.len(),
{
    if ms.len() > 1 {
        let init = ms.drop_last();
        lemma_members_start_with_first(init);
        assert(init[0] == ms[0]);
        let m0 = spec_json_member(ms[0]);
        let rest = ","@ + spec_json_member(ms.last());
        assert(spec_json_members(ms) == spec_json_members(init) + rest);
        assert((spec_json_members(init) + rest).take(m0.len() as int) =~= spec_json_members(
            init,
        ).take(m0.len() as int));
    }
}

/// The JSON payload of every event, whatever the JSON text of its string
/// fields, starts with the member `"type"` whose value is the name written on
/// the frame's `event:` line.
pub proof fn law_payload_starts_with_type(e: AgentEvent, q: Seq<Seq<char>>)
    ensures
        ({
            let d = spec_payload(&e, q);
            let head = "{"@ + spec_quoted("type"@) + ":"@ + spec_quoted(spec_event_type(&e));
            d.len() >= head.len() && d.take(head.len() as int) == head
        }),
{
    let tm = spec_type_member(&e);
    let ms = spec_payload_members(&e, q);
    let d = spec_payload(&e, q);
    assert(ms[0] == tm);
    lemma_members_start_with_first(ms);
    let m0 = spec_json_member(tm);
    let head = "{"@ + spec_quoted("type"@) + ":"@ + spec_quoted(spec_event_type(&e));
    assert(head =~= "{"@ + m0);
    assert(d == "{"@ + spec_json_members(ms) + "}"@);
    assert(d.take(head.len() as int) =~= "{"@ + spec_json_members(ms).take(m0.len() as int));
}

proof fn lemma_punctuation_chars()
    ensures
        "\""@ == seq!['"'],
        ":"@ == seq![':'],
        ","@ == seq![','],
        "{"@ == seq!['{'],
        "}"@ == seq!['}'],
        "true"@ == seq!['t', 'r', 'u', 'e'],
        "false"@ == seq!['f', 'a', 'l', 's', 'e'],
{
    reveal_strlit("\"");
    reveal_strlit(":");
    reveal_strlit(",");
    reveal_strlit("{");
    reveal_strlit("}");
    reveal_strlit("true");
    reveal_strlit("false");
    assert("\""@ =~= seq!['"']);
    assert(":"@ =~= seq![':']);
    assert(","@ =~= seq![',']);
    assert("{"@ =~= seq!['{']);
    assert("}"@ =~= seq!['}']);
    assert("true"@ =~= seq!['t', 'r', 'u', 'e']);
    assert("false"@ =~= seq!['f', 'a', 'l', 's', 'e']);
}

/// A plain name between quotes is its JSON string literal.
pub(crate) proof fn lemma_quoted_plain(s: Seq<char>)
    requires
        is_plain(s),
    ensures
        spec_quoted(s) == spec_json_string(s),
{
    lemma_punctuation_chars();
    lemma_escape_plain(s);
}

proof fn lemma_members_first(ms: Seq<(Seq<char>, Seq<char>)>)
    requires
        ms.len() >= 2,
    ensures
        spec_json_members(ms) == spec_json_member(ms[0]) + ","@ + spec_json_members(
            ms.drop_first(),
        ),
    decreases ms.len(),
{
    if ms.len() == 2 {
        assert(ms.drop_last().len() == 1);
        assert(ms.drop_first().len() == 1);
        assert(ms.drop_last()[0] == ms[0]);
        assert(ms.drop_first()[0] == ms.last());
        assert(spec_json_members(ms.drop_last()) == spec_json_member(ms[0]));
        assert(spec_json_members(ms.drop_first()) == spec_json_member(ms.last()));
    } else {
        let init = ms.drop_last();
        lemma_members_first(init);
        assert(init[0] == ms[0]);
        assert(init.drop_first() =~= ms.drop_first().drop_last());
        assert(ms.drop_first().last() == ms.last());
        assert(spec_json_members(ms.drop_first()) == spec_json_members(ms.drop_first().drop_last())
            + ","@ + spec_json_member(ms.last()));
        assert(spec_json_members(ms) =~= spec_json_member(ms[0]) + ","@ + spec_json_members(
            ms.drop_first(),
        ));
    }
}

/// Reading one member written for a plain name and a value, then `rest`.
proof fn lemma_read_member(k: Seq<char>, v: JsonValue, rest: Seq<char>)
    requires
        is_plain(k),
    ensures
        spec_read_members(spec_json_member((k, spec_json_value_text(v))) + rest) == (if rest
            == seq!['}'] {
            Some(seq![(k, v)])
        } else if rest.len() > 0 && rest[0] == ',' {
            match spec_read_members(rest.drop_first()) {
                Some(ms) => Some(seq![(k, v)] + ms),
                None => None,
            }
        } else {
            None
        }),
{
    lemma_punctuation_chars();
    lemma_quoted_plain(k);
    let vt = spec_json_value_text(v);
    let t = spec_json_member((k, vt)) + rest;
    assert(spec_json_member((k, vt)) == spec_json_string(k) + seq![':'] + vt);
    assert(t =~= spec_json_string(k) + (seq![':'] + vt + rest));
    lemma_read_json_string(k, seq![':'] + vt + rest);
    let n1 = spec_json_string(k).len() as int;
    assert(t.skip(n1) =~= seq![':'] + vt + rest);
    let t2 = t.skip(n1).drop_first();
    assert(t2 =~= vt + rest);
    lemma_read_value(v, rest);
    let n2 = vt.len() as int;
    assert(t2.skip(n2) =~= rest);
}

/// Reading the members written for `ms`, then `}`, gives back the names and
/// values `vs` that `ms` writes.
#[verifier::rlimit(60)]
proof fn lemma_read_members(
    ms: Seq<(Seq<char>, Seq<char>)>,
    vs: Seq<(Seq<char>, JsonValue)>,
)
    requires
        ms.len() >= 1,
        vs.len() == ms.len(),
        forall|i: int|
            0 <= i < ms.len() ==> is_plain(#[trigger] ms[i].0) && ms[i].0 == vs[i].0 && ms[i].1
                == spec_json_value_text(vs[i].1),
    ensures
        spec_read_members(spec_json_members(ms) + seq!['}']) == Some(vs),
    decreases ms.len(),
{
    let k = ms[0].0;
    let v = vs[0].1;
    assert(is_plain(ms[0].0));
    assert(ms[0] == (k, spec_json_value_text(v)));
    if ms.len() == 1 {
        assert(spec_json_members(ms) == spec_json_member(ms[0]));
        lemma_read_member(k, v, seq!['}']);
        assert(vs =~= seq![(k, v)]);
    } else {
        let ms2 = ms.drop_first();
        let vs2 = vs.drop_first();
        lemma_members_first(ms);
        let rest = seq![','] + spec_json_members(ms2) + seq!['}'];
        assert(","@ == seq![',']) by {
            lemma_punctuation_chars();
        }
        assert(spec_json_members(ms) + seq!['}'] =~= spec_json_member(ms[0]) + rest);
        lemma_read_member(k, v, rest);
        assert forall|i: int| 0 <= i < ms2.len() implies is_plain(#[trigger] ms2[i].0) && ms2[i].0
            == vs2[i].0 && ms2[i].1 == spec_json_value_text(vs2[i].1) by {
            assert(ms2[i] == ms[i + 1]);
            assert(vs2[i] == vs[i + 1]);
        }
        lemma_read_members(ms2, vs2);
        assert(rest.len() > 1);
        assert(rest != seq!['}']);
        assert(rest.drop_first() =~= spec_json_members(ms2) + seq!['}']);
        assert(vs =~= seq![(k, v)] + vs2);
    }
}

/// The names and values of an event's JSON payload as a JSON reader sees
/// them: `"type"` with the event's name, then each field with its value, in
/// declaration order.
pub open spec fn spec_event_json_members(e: &AgentEvent) -> Seq<(Seq<char>, JsonValue)> {
    let t = ("type"@, JsonValue::Str(spec_event_type(e)));
    match e {
        AgentEvent::TextDelta { content } => seq![t, ("content"@, JsonValue::Str(content@))],
        AgentEvent::ToolStart { tool_name, description } => seq![
            t,
            ("tool_name"@, JsonValue::Str(tool_name@)),
            ("description"@, JsonValue::Str(description@)),
        ],
        AgentEvent::ToolResult { tool_name, summary } => seq![
            t,
            ("tool_name"@, JsonValue::Str(tool_name@)),
            ("summary"@, JsonValue::Str(summary@)),
        ],
        AgentEvent::Done { id } => seq![t, ("id"@, JsonValue::Str(id@))],
        AgentEvent::Error { message, recoverable } => seq![
            t,
            ("message"@, JsonValue::Str(message@)),
            ("recoverable"@, JsonValue::Bool(*recoverable)),
        ],
    }
}

proof fn lemma_names_plain(e: &AgentEvent)
    ensures
        is_plain(spec_event_type(e)),
        is_plain("type"@),
        is_plain("content"@),
        is_plain("tool_name"@),
        is_plain("description"@),
        is_plain("summary"@),
        is_plain("id"@),
        is_plain("message"@),
        is_plain("recoverable"@),
{
    reveal_strlit("text_delta");
    reveal_strlit("tool_start");
    reveal_strlit("tool_result");
    reveal_strlit("done");
    reveal_strlit("error");
    reveal_strlit("type");
    reveal_strlit("content");
    reveal_strlit("tool_name");
    reveal_strlit("description");
    reveal_strlit("summary");
    reveal_strlit("id");
    reveal_strlit("message");
    reveal_strlit("recoverable");
}

/// The JSON payload of every event reads back, with a JSON reader, as an
/// object whose members are `"type"` holding the event's name and then every
/// field holding exactly its value, in declaration order: every string,
/// whatever characters it holds, comes back unchanged.
pub proof fn law_payload_reads_back(e: AgentEvent)
    ensures
        spec_read_json_object(spec_data_json(&e)) == Some(spec_event_json_members(&e)),
{
    let ms = spec_payload_members(&e, spec_quoted_fields(&e));
    let vs = spec_event_json_members(&e);
    lemma_payload_members_match(&e);
    lemma_read_members(ms, vs);
    lemma_members_first_nonempty(ms);
    let t = spec_data_json(&e);
    assert("{"@ == seq!['{'] && "}"@ == seq!['}']) by {
        lemma_punctuation_chars();
    }
    assert(t == "{"@ + spec_json_members(ms) + "}"@);
    assert(t.drop_first() =~= spec_json_members(ms) + seq!['}']);
    assert(t.len() > 2);
    assert(t != seq!['{', '}']);
}

/// The members written for an event write, member by member, its names and
/// values as a reader sees them.
proof fn lemma_payload_members_match(e: &AgentEvent)
    ensures
        ({
            let ms = spec_payload_members(e, spec_quoted_fields(e));
            let vs = spec_event_json_members(e);
            &&& ms.len() >= 1
            &&& vs.len() == ms.len()
            &&& forall|i: int|
                0 <= i < ms.len() ==> is_plain(#[trigger] ms[i].0) && ms[i].0 == vs[i].0
                    && ms[i].1 == spec_json_value_text(vs[i].1)
        }),
{
    lemma_names_plain(e);
    lemma_quoted_plain(spec_event_type(e));
    assert(spec_json_bool(true) == spec_json_value_text(JsonValue::Bool(true))
        && spec_json_bool(false) == spec_json_value_text(JsonValue::Bool(false))) by {
        lemma_punctuation_chars();
    }
    let ms = spec_payload_members(e, spec_quoted_fields(e));
    let vs = spec_event_json_members(e);
    assert(ms[0].1 == spec_json_value_text(vs[0].1));
}

proof fn lemma_members_first_nonempty(ms: Seq<(Seq<char>, Seq<char>)>)
    requires
        ms.len() >= 1,
    ensures
        spec_json_members(ms).len() > 0,
{
    lemma_members_start_with_first(ms);
    lemma_punctuation_chars();
}

/// A type that can be streamed as Server-Sent Events.
///
/// Events are written as
///
/// ```text
/// event: {type}
/// data: {json}
///
/// ```
///
/// Implementors give the name written on the `event:` line and the JSON
/// payload written on the `data:` line; the frame itself comes from
/// [`sse_frame`].
///
/// An implementation whose `event_type` and `data_json` are proved against
/// `spec_type_name` and `spec_data` sets `obeys_event_spec` to `true`; the
/// contracts of those methods are conditional on it, and hold nothing of an
/// implementation that leaves it `false`.
pub trait SseEvent: Send + 'static {
    /// Whether this type's `event_type` and `data_json` meet their contracts.
    open spec fn obeys_event_spec() -> bool {
        false
    }

    /// The SSE event type name of this event.
    open spec fn spec_type_name(&self) -> Seq<char> {
        Seq::empty()
    }

    /// The JSON payload of this event, or the error its encoding gives.
    open spec fn spec_data(&self) -> Result<Seq<char>, SerializeError> {
        Ok(Seq::empty())
    }

    /// Returns the SSE event type name (used in the `event:` field).
    fn event_type(&self) -> (r: &str)
        ensures
            Self::obeys_event_spec() ==> r@ == self.spec_type_name(),
    ;

    /// The JSON payload of this event, on one line.
    fn data_json(&self) -> (r: Result<String, SerializeError>)
        ensures
            Self::obeys_event_spec() ==> match self.spec_data() {
                Ok(d) => r matches Ok(s) && s@ == d,
                Err(e) => r == Err::<String, SerializeError>(e),
            },
    ;

    /// Serializes this event as an SSE-formatted string: the frame of
    /// [`SseEvent::event_type`] and [`SseEvent::data_json`], or the payload's
    /// error, passed through.
    fn to_sse_string(&self) -> (r: Result<String, SerializeError>)
        ensures
            Self::obeys_event_spec() ==> match self.spec_data() {
                Ok(d) => r matches Ok(s) && s@ == spec_sse_frame(self.spec_type_name(), d),
                Err(e) => r == Err::<String, SerializeError>(e),
            },
    {
        match self.data_json() {
            Ok(data) => Ok(sse_frame(self.event_type(), data.as_str())),
            Err(e) => Err(e),
        }
    }
}

/// Built-in agent events for AI streaming.
///
/// | Variant | SSE event type |
/// |---------|----------------|
/// | `TextDelta` | `text_delta` |
/// | `ToolStart` | `tool_start` |
/// | `ToolResult` | `tool_result` |
/// | `Done` | `done` |
/// | `Error` | `error` |
#[derive(Debug, Clone)]
pub enum AgentEvent {
    /// AI text content being streamed (token by token or chunk by chunk).
    TextDelta {
        /// The text content to append.
        content: String,
    },
    /// AI is about to use a tool.
    ToolStart {
        /// Name of the tool being invoked.
        tool_name: String,
        /// Human-readable description of what the tool will do.
        description: String,
    },
    /// Tool execution completed.
    ToolResult {
        /// Name of the tool that completed.
        tool_name: String,
        /// Summary of the tool result.
        summary: String,
    },
    /// Stream complete.
    Done {
        /// Unique identifier for the completed message/session.
        id: String,
    },
    /// Error occurred during streaming.
    Error {
        /// Human-readable error message.
        message: String,
        /// Whether the error is recoverable and streaming can continue.
        recoverable: bool,
    },
}

/// The SSE event type name of each variant.
pub open spec fn spec_event_type(e: &AgentEvent) -> Seq<char> {
    match e {
        AgentEvent::TextDelta { .. } => "text_delta"@,
        AgentEvent::ToolStart { .. } => "tool_start"@,
        AgentEvent::ToolResult { .. } => "tool_result"@,
        AgentEvent::Done { .. } => "done"@,
        AgentEvent::Error { .. } => "error"@,
    }
}

impl AgentEvent {
    /// Creates a text delta event.
    pub fn text(content: &str) -> (e: Self)
        ensures
            e matches AgentEvent::TextDelta { content: c } && c@ == content@,
    {
        AgentEvent::TextDelta { content: content.to_owned() }
    }

    /// Creates a tool start event.
    pub fn tool_start(tool_name: &str, description: &str) -> (e: Self)
        ensures
            e matches AgentEvent::ToolStart { tool_name: t, description: d } && t@ == tool_name@
                && d@ == description@,
    {
        AgentEvent::ToolStart { tool_name: tool_name.to_owned(), description: description.to_owned() }
    }

    /// Creates a tool result event.
    pub fn tool_result(tool_name: &str, summary: &str) -> (e: Self)
        ensures
            e matches AgentEvent::ToolResult { tool_name: t, summary: s } && t@ == tool_name@
                && s@ == summary@,
    {
        AgentEvent::ToolResult { tool_name: tool_name.to_owned(), summary: summary.to_owned() }
    }

    /// Creates a done event.
    pub fn done(id: &str) -> (e: Self)
        ensures
            e matches AgentEvent::Done { id: i } && i@ == id@,
    {
        AgentEvent::Done { id: id.to_owned() }
    }

    /// Creates an error event.
    pub fn error(message: &str, recoverable: bool) -> (e: Self)
        ensures
            e matches AgentEvent::Error { message: m, recoverable: r } && m@ == message@ && r
                == recoverable,
    {
        AgentEvent::Error { message: message.to_owned(), recoverable }
    }
}

proof fn lemma_payload_no_line_break(e: &AgentEvent, q: Seq<Seq<char>>)
    requires
        q.len() == spec_string_fields(e).len(),
        forall|i: int| 0 <= i < q.len() ==> no_line_break(#[trigger] q[i]),
    ensures
        no_line_break(spec_payload(e, q)),
{
    lemma_event_type_no_line_break(e);
    lemma_member_names_no_line_break();
    let ms = spec_payload_members(e, q);
    assert forall|i: int| 0 <= i < ms.len() implies no_line_break(#[trigger] ms[i].0)
        && no_line_break(ms[i].1) by {
        if i > 0 {
            match e {
                AgentEvent::Error { recoverable, .. } => {
                    if i == 2 {
                        assert(ms[i].1 == spec_json_bool(*recoverable));
                    } else {
                        assert(ms[i].1 == q[i - 1]);
                    }
                },
                _ => {
                    assert(ms[i].1 == q[i - 1]);
                },
            }
        }
    }
    lemma_object_no_line_break(ms);
}

impl AgentEvent {
    /// Writes the JSON payload of this event from the JSON text of its string
    /// fields, given in declaration order: the `"type"` member holding the
    /// event's name, then the fields in declaration order.
    pub fn payload_from_quoted(&self, quoted: &Vec<String>) -> (r: String)
        requires
            quoted@.len() == spec_string_fields(self).len(),
        ensures
            r@ == spec_payload(self, strings_view(quoted@)),
    {
        let tag = quote_verbatim(self.event_type());
        let ghost tm = spec_type_member(self);
        let ghost q = strings_view(quoted@);
        let members = match self {
            AgentEvent::TextDelta { .. } => vec![("type", tag), ("content", quoted[0].clone())],
            AgentEvent::ToolStart { .. } => vec![
                ("type", tag),
                ("tool_name", quoted[0].clone()),
                ("description", quoted[1].clone()),
            ],
            AgentEvent::ToolResult { .. } => vec![
                ("type", tag),
                ("tool_name", quoted[0].clone()),
                ("summary", quoted[1].clone()),
            ],
            AgentEvent::Done { .. } => vec![("type", tag), ("id", quoted[0].clone())],
            AgentEvent::Error { recoverable, .. } => {
                let b = if *recoverable {
                    "true".to_owned()
                } else {
                    "false".to_owned()
                };
                vec![("type", tag), ("message", quoted[0].clone()), ("recoverable", b)]
            },
        };
        proof {
            assert(members_view(members@) =~= spec_payload_members(self, q));
        }
        json_object(&members)
    }
}

impl SseEvent for AgentEvent {
    open spec fn obeys_event_spec() -> bool {
        true
    }

    open spec fn spec_type_name(&self) -> Seq<char> {
        spec_event_type(self)
    }

    open spec fn spec_data(&self) -> Result<Seq<char>, SerializeError> {
        Ok(spec_data_json(self))
    }

    fn event_type(&self) -> (r: &str)
        ensures
            r@ == spec_event_type(self),
    {
        match self {
            AgentEvent::TextDelta { .. } => "text_delta",
            AgentEvent::ToolStart { .. } => "tool_start",
            AgentEvent::ToolResult { .. } => "tool_result",
            AgentEvent::Done { .. } => "done",
            AgentEvent::Error { .. } => "error",
        }
    }

    /// The JSON payload: the `"type"` member, then the fields in declaration
    /// order, strings encoded by serde_json.
    fn data_json(&self) -> (r: Result<String, SerializeError>)
        ensures
            r is Ok,
            r matches Ok(d) ==> d@ == spec_data_json(self) && no_line_break(d@),
    {
        let (first, second) = match self {
            AgentEvent::TextDelta { content } => (content, None),
            AgentEvent::ToolStart { tool_name, description } => (tool_name, Some(description)),
            AgentEvent::ToolResult { tool_name, summary } => (tool_name, Some(summary)),
            AgentEvent::Done { id } => (id, None),
            AgentEvent::Error { message, .. } => (message, None),
        };
        let mut quoted: Vec<String> = Vec::new();
        match json_quote(first.as_str()) {
            Ok(q) => quoted.push(q),
            Err(e) => return Err(SerializeError::Json(e)),
        }
        if let Some(f) = second {
            match json_quote(f.as_str()) {
                Ok(q) => quoted.push(q),
                Err(e) => return Err(SerializeError::Json(e)),
            }
        }
        proof {
            assert(strings_view(quoted@) =~= spec_quoted_fields(self));
            lemma_payload_no_line_break(self, strings_view(quoted@));
        }
        Ok(self.payload_from_quoted(&quoted))
    }

    fn to_sse_string(&self) -> (r: Result<String, SerializeError>)
        ensures
            r is Ok,
            r matches Ok(s) ==> s@ == spec_sse_frame(spec_event_type(self), spec_data_json(self)),
            r matches Ok(s) ==> is_one_event_frame(
                s@,
                spec_event_type(self),
                spec_data_json(self),
            ),
    {
        match self.data_json() {
            Ok(data) => {
                proof {
                    lemma_event_type_no_line_break(self);
                    law_frame_is_one_event(spec_event_type(self), data@);
                }
                Ok(sse_frame(self.event_type(), data.as_str()))
            },
            Err(e) => Err(e),
        }
    }
}

} // verus!
