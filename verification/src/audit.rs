//! The line format of the local audit log.
//!
//! When auditing is enabled, every tool execution and every outbound
//! request is appended to `logs/apeclaw_audit.log` in the workspace, one
//! JSON object per line:
//! `{"ts":"<rfc3339>","event":"tool_exec","tool":"web_fetch","args":"https://...","host":"<host>"}`,
//! every field a JSON string, so that no field can break the line.

use vstd::prelude::*;

verus! {

/// The log file name relative to the workspace directory.
pub const AUDIT_LOG_FILE: &'static str = "logs/apeclaw_audit.log";

#[verifier::external_type_specification]
#[verifier::external_body]
pub struct ExJsonError(serde_json::Error);

/// A lower-case hexadecimal digit.
pub open spec fn hex_lower(d: int) -> char {
    seq!['0', '1', '2', '3', '4', '5', '6', '7', '8', '9', 'a', 'b', 'c', 'd', 'e', 'f'][d]
}

/// How a JSON string literal writes one character: `"` and `\` and the
/// control characters below U+0020 are escaped (short escapes where JSON
/// has one, `\u00XX` otherwise); every other character stands as it is.
pub open spec fn json_escape_char(c: char) -> Seq<char> {
    let u = c as u32;
    if c == '"' {
        seq!['\\', '"']
    } else if c == '\\' {
        seq!['\\', '\\']
    } else if u == 0x08 {
        seq!['\\', 'b']
    } else if u == 0x09 {
        seq!['\\', 't']
    } else if u == 0x0a {
        seq!['\\', 'n']
    } else if u == 0x0c {
        seq!['\\', 'f']
    } else if u == 0x0d {
        seq!['\\', 'r']
    } else if u < 0x20 {
        seq!['\\', 'u', '0', '0', hex_lower((u / 16) as int), hex_lower((u % 16) as int)]
    } else {
        seq![c]
    }
}

/// The escaped body of a JSON string literal.
pub open spec fn json_escape(s: Seq<char>) -> Seq<char>
    decreases s.len(),
{
    if s.len() == 0 {
        seq![]
    } else {
        json_escape_char(s[0]) + json_escape(s.drop_first())
    }
}

/// The JSON string literal of a text: the escaped text in double quotes.
pub open spec fn json_string_literal(s: Seq<char>) -> Seq<char> {
    seq!['"'] + json_escape(s) + seq!['"']
}

/// Calls `serde_json::to_string` on a string slice. Its serializer writes
/// the string as a JSON string literal (escaping `"`, `\` and control
/// characters as `json_escape_char` says) into a `Vec<u8>`, which cannot
/// fail; the contract states that result.
#[verifier::external_body]
fn json_quote(s: &str) -> (r: Result<String, serde_json::Error>)
    ensures
        r is Ok,
        r matches Ok(v) ==> v@ == json_string_literal(s@),
{
    serde_json::to_string(s)
}

/// The tool of an event detail: the text before its first space (all of
/// it when there is no space).
pub open spec fn tool_of(detail: Seq<char>) -> Seq<char>
    decreases detail.len(),
{
    if detail.len() == 0 || detail[0] == ' ' {
        seq![]
    } else {
        seq![detail[0]] + tool_of(detail.drop_first())
    }
}

/// The arguments of an event detail: the text after its first space
/// (nothing when there is no space).
pub open spec fn args_of(detail: Seq<char>) -> Seq<char>
    decreases detail.len(),
{
    if detail.len() == 0 {
        seq![]
    } else if detail[0] == ' ' {
        detail.drop_first()
    } else {
        args_of(detail.drop_first())
    }
}

/// Splitting at the first space, found at `j`.
proof fn lemma_split_at_first_space(d: Seq<char>, j: int)
    requires
        0 <= j <= d.len(),
        forall|k: int| 0 <= k < j ==> d[k] != ' ',
        j == d.len() || d[j] == ' ',
    ensures
        tool_of(d) == d.subrange(0, j),
        args_of(d) == if j < d.len() {
            d.subrange(j + 1, d.len() as int)
        } else {
            seq![]
        },
    decreases j,
{
    if j > 0 {
        lemma_split_at_first_space(d.drop_first(), j - 1);
        assert(d.subrange(0, j) =~= seq![d[0]] + d.drop_first().subrange(0, j - 1));
        if j < d.len() {
            assert(d.drop_first().subrange(j, d.len() - 1) =~= d.subrange(j + 1, d.len() as int));
        }
    } else if d.len() > 0 {
        assert(d.drop_first() =~= d.subrange(1, d.len() as int));
    }
}

/// Splits an event detail such as `web_fetch https://example.com` into its
/// tool (`web_fetch`) and its arguments (`https://example.com`) at the
/// first space.
pub fn split_detail(detail: &str) -> (r: (&str, &str))
    ensures
        r.0@ == tool_of(detail@),
        r.1@ == args_of(detail@),
{
    let cs = crate::text::chars_of(detail);
    let n = cs.len();
    let mut j: usize = 0;
    while j < n && cs[j] != ' '
        invariant
            cs@ == detail@,
            n == cs.len(),
            j <= n,
            forall|k: int| 0 <= k < j ==> detail@[k] != ' ',
        decreases n - j,
    {
        j += 1;
    }
    proof {
        lemma_split_at_first_space(detail@, j as int);
    }
    let tool = detail.substring_char(0, j);
    if j < n {
        (tool, detail.substring_char(j + 1, n))
    } else {
        (tool, detail.substring_char(n, n))
    }
}

/// One audit log line from its fields, each already a JSON value.
pub open spec fn audit_line_text(
    ts_json: Seq<char>,
    event_json: Seq<char>,
    tool_json: Seq<char>,
    args_json: Seq<char>,
    host_json: Seq<char>,
) -> Seq<char> {
    "{\"ts\":"@ + ts_json + ",\"event\":"@ + event_json + ",\"tool\":"@ + tool_json
        + ",\"args\":"@ + args_json + ",\"host\":"@ + host_json + "}\n"@
}

/// Assembles one audit log line from its fields, each already encoded as a
/// JSON value.
pub fn audit_line_from_parts(
    ts_json: &str,
    event_json: &str,
    tool_json: &str,
    args_json: &str,
    host_json: &str,
) -> (r: String)
    ensures
        r@ == audit_line_text(ts_json@, event_json@, tool_json@, args_json@, host_json@),
{
    let mut line = "{\"ts\":".to_string();
    line.append(ts_json);
    line.append(",\"event\":");
    line.append(event_json);
    line.append(",\"tool\":");
    line.append(tool_json);
    line.append(",\"args\":");
    line.append(args_json);
    line.append(",\"host\":");
    line.append(host_json);
    line.append("}\n");
    line
}

/// A text as a JSON string literal (an empty literal should the encoder
/// report an error).
fn json_text(s: &str) -> (r: String)
    ensures
        r@ == json_string_literal(s@),
{
    match json_quote(s) {
        Ok(v) => v,
        Err(_) => "\"\"".to_string(),
    }
}

/// The audit log line for an event: every field is written as a JSON string
/// literal, and the detail is split into its tool and its arguments at the
/// first space.
pub fn audit_line(ts: &str, event_type: &str, detail: &str, host: &str) -> (r: String)
    ensures
        r@ == audit_line_text(
            json_string_literal(ts@),
            json_string_literal(event_type@),
            json_string_literal(tool_of(detail@)),
            json_string_literal(args_of(detail@)),
            json_string_literal(host@),
        ),
{
    let (tool, args) = split_detail(detail);
    let ts_json = json_text(ts);
    let event_json = json_text(event_type);
    let tool_json = json_text(tool);
    let args_json = json_text(args);
    let host_json = json_text(host);
    audit_line_from_parts(
        ts_json.as_str(),
        event_json.as_str(),
        tool_json.as_str(),
        args_json.as_str(),
        host_json.as_str(),
    )
}

/// The JSON escaping of a text never holds a line break.
proof fn lemma_json_escape_has_no_newline(s: Seq<char>)
    ensures
        forall|i: int| 0 <= i < json_escape(s).len() ==> json_escape(s)[i] != '\n',
    decreases s.len(),
{
    if s.len() > 0 {
        lemma_json_escape_has_no_newline(s.drop_first());
        let head = json_escape_char(s[0]);
        let rest = json_escape(s.drop_first());
        assert(forall|i: int| 0 <= i < head.len() ==> head[i] != '\n');
        assert(json_escape(s) == head + rest);
        assert forall|i: int| 0 <= i < json_escape(s).len() implies json_escape(s)[i] != '\n' by {
            if i < head.len() {
                assert(json_escape(s)[i] == head[i]);
            } else {
                assert(json_escape(s)[i] == rest[i - head.len()]);
            }
        }
    }
}

/// A JSON string literal never holds a line break.
proof fn lemma_json_literal_has_no_newline(s: Seq<char>)
    ensures
        !json_string_literal(s).contains('\n'),
{
    lemma_json_escape_has_no_newline(s);
    let lit = json_string_literal(s);
    assert forall|i: int| 0 <= i < lit.len() implies lit[i] != '\n' by {
        if 0 < i < lit.len() - 1 {
            assert(lit[i] == json_escape(s)[i - 1]);
        }
    }
}

/// Each event is exactly one line of the log: whatever the timestamp, event
/// type, detail and host hold, the audit line ends with its only line
/// break.
pub proof fn audit_line_is_one_line(
    ts: Seq<char>,
    event_type: Seq<char>,
    detail: Seq<char>,
    host: Seq<char>,
)
    ensures
        ({
            let line = audit_line_text(
                json_string_literal(ts),
                json_string_literal(event_type),
                json_string_literal(tool_of(detail)),
                json_string_literal(args_of(detail)),
                json_string_literal(host),
            );
            &&& line.len() > 0
            &&& line.last() == '\n'
            &&& forall|i: int| 0 <= i < line.len() - 1 ==> line[i] != '\n'
        }),
{
    let a = json_string_literal(ts);
    let b = json_string_literal(event_type);
    let c = json_string_literal(tool_of(detail));
    let d = json_string_literal(args_of(detail));
    let e = json_string_literal(host);
    lemma_json_literal_has_no_newline(ts);
    lemma_json_literal_has_no_newline(event_type);
    lemma_json_literal_has_no_newline(tool_of(detail));
    lemma_json_literal_has_no_newline(args_of(detail));
    lemma_json_literal_has_no_newline(host);
    reveal_strlit("{\"ts\":");
    reveal_strlit(",\"event\":");
    reveal_strlit(",\"tool\":");
    reveal_strlit(",\"args\":");
    reveal_strlit(",\"host\":");
    reveal_strlit("}\n");
    let line = audit_line_text(a, b, c, d, e);
    assert(line.last() == '\n');
    assert forall|i: int| 0 <= i < line.len() - 1 implies line[i] != '\n' by {
        if line[i] == '\n' {
            assert(false);
        }
    }
}

} // verus!
