//! The requests sent to the Datagouv MCP server and to the answer service,
//! and the reading of their replies.

use crate::agentic::errors::AgentError;
use crate::agentic::memory::{lines_of, skip_from, text_lines};
use crate::agentic::replies::{extract_json_object, first_json_object, truncate_text, truncated};
use crate::text::{
    chars_of, eq_lit, matches_at, push_all, push_lit, starts_with, starts_with_chars, string_of,
    trim, trim_chars, views,
};
use crate::json::{
    content_text, error_entry, json_quoted, json_valid, push_json_quoted, read_content_text, read_error_entry,
    Json,
};
use crate::types::{prompt_body_of, GmailMessage};
use crate::trusted::{json_compact, json_compact_of, json_document, parse_json_tree};
use vstd::prelude::*;

verus! {

/// `s` with every leading copy of `p` removed, as `str::trim_start_matches` does.
pub open spec fn strip_leading(s: Seq<char>, p: Seq<char>) -> Seq<char>
    decreases s.len(),
{
    if p.len() > 0 && starts_with(s, p) {
        strip_leading(s.skip(p.len() as int), p)
    } else {
        s
    }
}

/// The data of a server-sent event line worth parsing: the trimmed line must
/// start with `data:`; what follows, trimmed, must be neither empty nor `[DONE]`.
pub open spec fn sse_data(line: Seq<char>) -> Option<Seq<char>> {
    let l = trim(line);
    if starts_with(l, "data:"@) {
        let d = trim(strip_leading(l, "data:"@));
        if d.len() == 0 || d == "[DONE]"@ {
            None
        } else {
            Some(d)
        }
    } else {
        None
    }
}

/// The event data found in `lines`, in order.
pub open spec fn sse_chunks(lines: Seq<Seq<char>>) -> Seq<Seq<char>>
    decreases lines.len(),
{
    if lines.len() == 0 {
        Seq::empty()
    } else {
        match sse_data(lines.last()) {
            Some(d) => sse_chunks(lines.drop_last()).push(d),
            None => sse_chunks(lines.drop_last()),
        }
    }
}

/// The first of `cs` that serde_json reads as JSON.
pub open spec fn first_json(cs: Seq<Seq<char>>) -> Option<Seq<char>>
    decreases cs.len(),
{
    if cs.len() == 0 {
        None
    } else {
        match first_json(cs.drop_last()) {
            Some(c) => Some(c),
            None => if json_valid(cs.last()) {
                Some(cs.last())
            } else {
                None
            },
        }
    }
}

/// The JSON text of an MCP reply body: the whole trimmed body when it is
/// JSON, else the first event-stream `data:` chunk that is; otherwise the
/// tool's name and a message saying why nothing could be read.
pub open spec fn mcp_payload(endpoint: Seq<char>, tool: Seq<char>, body: Seq<char>) -> Result<
    Seq<char>,
    (Seq<char>, Seq<char>),
> {
    let t = trim(body);
    if t.len() == 0 {
        Err((tool, "Datagouv MCP returned empty body from "@ + endpoint + "."@))
    } else if json_valid(t) {
        Ok(t)
    } else {
        let chunks = sse_chunks(text_lines(body));
        match first_json(chunks) {
            Some(c) => Ok(c),
            None => if chunks.len() == 0 {
                Err(
                    (
                        tool,
                        "Datagouv MCP returned non-JSON payload for "@ + tool + " at "@ + endpoint
                            + ": "@ + truncated(body, 240),
                    ),
                )
            } else {
                Err(
                    (
                        tool,
                        "Datagouv MCP payload parse failure for "@ + tool + " at "@ + endpoint
                            + ": "@ + truncated(body, 240),
                    ),
                )
            },
        }
    }
}

/// The views of a result carrying text, or a tool name and a message.
pub open spec fn payload_view(r: Result<String, (String, String)>) -> Result<
    Seq<char>,
    (Seq<char>, Seq<char>),
> {
    match r {
        Ok(s) => Ok(s@),
        Err((t, m)) => Err((t@, m@)),
    }
}

fn strip_leading_chars(v: &[char], p: &[char]) -> (r: Vec<char>)
    ensures
        r@ == strip_leading(v@, p@),
{
    let mut i: usize = 0;
    assert(v@.skip(0) =~= v@);
    if p.len() > 0 {
        while i <= v.len() && matches_at(v, p, i)
            invariant
                p.len() > 0,
                i <= v.len(),
                strip_leading(v@, p@) == strip_leading(v@.skip(i as int), p@),
            decreases v.len() - i,
        {
            assert(v@.skip(i as int).take(p.len() as int) =~= v@.subrange(i as int, i + p.len()));
            assert(v@.skip(i as int).skip(p.len() as int) =~= v@.skip(i + p.len()));
            i += p.len();
        }
        proof {
            if starts_with(v@.skip(i as int), p@) {
                assert(v@.skip(i as int).take(p.len() as int) =~= v@.subrange(i as int, i + p.len()));
            }
        }
    }
    skip_from(v, i)
}

fn sse_data_of(line: &[char]) -> (r: Option<Vec<char>>)
    ensures
        r is Some <==> sse_data(line@) is Some,
        r matches Some(d) ==> d@ == sse_data(line@)->0,
{
    let l = trim_chars(line);
    let prefix = chars_of("data:");
    if !starts_with_chars(l.as_slice(), prefix.as_slice()) {
        return None;
    }
    let d = trim_chars(strip_leading_chars(l.as_slice(), prefix.as_slice()).as_slice());
    if d.len() == 0 || eq_lit(d.as_slice(), "[DONE]") {
        None
    } else {
        Some(d)
    }
}

/// Picks the JSON text out of an MCP reply body, plain JSON or an event stream.
pub fn mcp_payload_text(endpoint: &str, tool_name: &str, body: &str) -> (r: Result<String, (String, String)>)
    ensures
        payload_view(r) == mcp_payload(endpoint@, tool_name@, body@),
        r matches Ok(t) ==> json_valid(t@),
{
    let all = chars_of(body);
    let t = trim_chars(all.as_slice());
    if t.len() == 0 {
        let mut m = chars_of("Datagouv MCP returned empty body from ");
        push_all(&mut m, chars_of(endpoint).as_slice());
        push_lit(&mut m, ".");
        return Err((string_of(chars_of(tool_name).as_slice()), string_of(m.as_slice())));
    }
    let whole = string_of(t.as_slice());
    if let Some(_) = parse_json_tree(whole.as_str()) {
        return Ok(whole);
    }
    let lines = lines_of(all.as_slice());
    let mut chunks: Vec<Vec<char>> = Vec::new();
    let mut i: usize = 0;
    while i < lines.len()
        invariant
            i <= lines.len(),
            trim(body@).len() > 0,
            !json_valid(trim(body@)),
            views(lines@) == text_lines(body@),
            views(chunks@) == sse_chunks(views(lines@).take(i as int)),
            first_json(views(chunks@)) is None,
        decreases lines.len() - i,
    {
        assert(views(lines@).take(i + 1).drop_last() =~= views(lines@).take(i as int));
        if let Some(d) = sse_data_of(lines[i].as_slice()) {
            let text = string_of(d.as_slice());
            let ghost before = views(chunks@);
            if let Some(_) = parse_json_tree(text.as_str()) {
                proof {
                    assert(views(lines@).take(i + 1).last() == lines@[i as int]@);
                    assert(sse_chunks(views(lines@).take(i + 1)) == before.push(d@));
                    assert(before.push(d@).drop_last() =~= before);
                    assert(first_json(before.push(d@)) == Some(d@));
                    lemma_first_json_prefix(views(lines@), i + 1);
                }
                return Ok(text);
            }
            chunks.push(d);
            assert(views(chunks@) =~= before.push(d@));
            assert(views(chunks@).drop_last() =~= before);
        }
        i += 1;
    }
    assert(views(lines@).take(lines.len() as int) =~= views(lines@));
    let mut k: usize = 0;
    while k < chunks.len()
        invariant
            k <= chunks.len(),
            trim(body@).len() > 0,
            !json_valid(trim(body@)),
            views(chunks@) == sse_chunks(text_lines(body@)),
            first_json(views(chunks@)) is None,
            forall|j: int| 0 <= j < k ==> !json_valid(#[trigger] views(chunks@)[j]),
        decreases chunks.len() - k,
    {
        let text = string_of(chunks[k].as_slice());
        proof {
            lemma_first_json_none(views(chunks@), k as int);
        }
        if let Some(_) = parse_json_tree(text.as_str()) {
            return Ok(text);
        }
        k += 1;
    }
    let mut m = chars_of(if chunks.len() == 0 {
        "Datagouv MCP returned non-JSON payload for "
    } else {
        "Datagouv MCP payload parse failure for "
    });
    push_all(&mut m, chars_of(tool_name).as_slice());
    push_lit(&mut m, " at ");
    push_all(&mut m, chars_of(endpoint).as_slice());
    push_lit(&mut m, ": ");
    push_all(&mut m, chars_of(truncate_text(body, 240).as_str()).as_slice());
    Err((string_of(chars_of(tool_name).as_slice()), string_of(m.as_slice())))
}

/// Reads an MCP reply body as JSON, plain or from an event stream: the
/// document serde_json reads the chosen payload text as; on failure, the
/// tool's name and the reason.
pub fn parse_mcp_response_payload(endpoint: &str, tool_name: &str, body: &str) -> (r: Result<Json, (String, String)>)
    ensures
        match mcp_payload(endpoint@, tool_name@, body@) {
            Ok(payload) => r matches Ok(d) && json_document(payload) == Some(d),
            Err(e) => r matches Err((t, m)) && (t@, m@) == e,
        },
{
    match mcp_payload_text(endpoint, tool_name, body) {
        Ok(text) => match parse_json_tree(text.as_str()) {
            Some(doc) => Ok(doc),
            None => {
                // Unreachable: the payload text was chosen because serde_json reads it.
                assert(false);
                Err((string_of(chars_of(tool_name).as_slice()), text))
            },
        },
        Err(e) => Err(e),
    }
}

/// What a tool call's payload amounts to, from the payload read as a tree and
/// its compact rendering: the text of its first content item; else the error
/// it reports, with a stock message where it gives none; else the rendering,
/// or a stock note where that is blank.
pub open spec fn tool_reply(tool: Seq<char>, doc: Json, rendered: Seq<char>) -> Result<
    Seq<char>,
    (Seq<char>, Seq<char>),
> {
    match content_text(doc) {
        Some(text) => Ok(text),
        None => match error_entry(doc) {
            Some(message) => Err(
                (
                    tool,
                    match message {
                        Some(m) => m,
                        None => "tool call failed"@,
                    },
                ),
            ),
            None => if trim(rendered).len() == 0 {
                Ok("No output returned by Datagouv MCP tool."@)
            } else {
                Ok(rendered)
            },
        },
    }
}

/// The error for a tool that failed, or that sent nothing readable.
pub open spec fn tool_error(r: AgentError, e: (Seq<char>, Seq<char>)) -> bool {
    r matches AgentError::DatagouvToolError { tool, message } && tool@ == e.0 && message@ == e.1
}

/// Reads the answer out of a tool call's payload, given as a tree and as its
/// compact rendering.
pub fn read_tool_reply(tool_name: &str, doc: &Json, rendered: &str) -> (r: Result<String, AgentError>)
    ensures
        match tool_reply(tool_name@, *doc, rendered@) {
            Ok(text) => r matches Ok(t) && t@ == text,
            Err(e) => r matches Err(err) && tool_error(err, e),
        },
{
    if let Some(text) = read_content_text(doc) {
        return Ok(text);
    }
    if let Some(message) = read_error_entry(doc) {
        let m = match message {
            Some(m) => m,
            None => string_of(chars_of("tool call failed").as_slice()),
        };
        return Err(AgentError::DatagouvToolError { tool: string_of(chars_of(tool_name).as_slice()), message: m });
    }
    if trim_chars(chars_of(rendered).as_slice()).len() == 0 {
        Ok(string_of(chars_of("No output returned by Datagouv MCP tool.").as_slice()))
    } else {
        Ok(string_of(chars_of(rendered).as_slice()))
    }
}

/// What the MCP server's reply to a tool call amounts to: the answer, or the
/// failure of the tool named in it.
pub open spec fn tool_call_answer(endpoint: Seq<char>, tool: Seq<char>, body: Seq<char>) -> Result<
    Seq<char>,
    (Seq<char>, Seq<char>),
> {
    match mcp_payload(endpoint, tool, body) {
        Ok(payload) => tool_reply(tool, json_document(payload)->0, json_compact_of(payload)),
        Err(e) => Err(e),
    }
}

/// Reads the answer out of the body the MCP server sent for a tool call.
pub fn datagouv_tool_answer(endpoint: &str, tool_name: &str, body: &str) -> (r: Result<String, AgentError>)
    ensures
        match tool_call_answer(endpoint@, tool_name@, body@) {
            Ok(text) => r matches Ok(t) && t@ == text,
            Err(e) => r matches Err(err) && tool_error(err, e),
        },
{
    let payload = match mcp_payload_text(endpoint, tool_name, body) {
        Ok(p) => p,
        Err((tool, message)) => return Err(AgentError::DatagouvToolError { tool, message }),
    };
    let doc = parse_json_tree(payload.as_str());
    let rendered = json_compact(payload.as_str());
    match (doc, rendered) {
        (Some(d), Some(text)) => read_tool_reply(tool_name, &d, text.as_str()),
        _ => {
            // Unreachable: the payload was chosen because serde_json reads it.
            assert(false);
            Err(AgentError::AnswerEndpointEmpty)
        },
    }
}

/// What the MCP server's reply to `initialize` amounts to: nothing when it
/// reports no error, else the failure of the `initialize` step.
pub open spec fn initialize_failure(endpoint: Seq<char>, body: Seq<char>) -> Option<(Seq<char>, Seq<char>)> {
    match mcp_payload(endpoint, "initialize"@, body) {
        Err(e) => Some(e),
        Ok(payload) => match error_entry(json_document(payload)->0) {
            None => None,
            Some(message) => Some(
                (
                    "initialize"@,
                    match message {
                        Some(m) => m,
                        None => "initialize failed"@,
                    },
                ),
            ),
        },
    }
}

/// Checks the body the MCP server sent for `initialize`.
pub fn check_initialize_reply(endpoint: &str, body: &str) -> (r: Result<(), AgentError>)
    ensures
        match initialize_failure(endpoint@, body@) {
            None => r is Ok,
            Some(e) => r matches Err(err) && tool_error(err, e),
        },
{
    let payload = match mcp_payload_text(endpoint, "initialize", body) {
        Ok(p) => p,
        Err((tool, message)) => return Err(AgentError::DatagouvToolError { tool, message }),
    };
    let doc = match parse_json_tree(payload.as_str()) {
        Some(d) => d,
        None => {
            // Unreachable: the payload was chosen because serde_json reads it.
            assert(false);
            return Ok(());
        },
    };
    match read_error_entry(&doc) {
        None => Ok(()),
        Some(message) => {
            let m = match message {
                Some(m) => m,
                None => string_of(chars_of("initialize failed").as_slice()),
            };
            Err(AgentError::DatagouvToolError { tool: string_of(chars_of("initialize").as_slice()), message: m })
        },
    }
}

/// The text of an answer endpoint's reply worth reading: the first JSON object
/// in the trimmed reply, or the whole trimmed reply.
pub open spec fn answer_candidate_of(payload: Seq<char>) -> Seq<char> {
    match first_json_object(trim(payload)) {
        Some(o) => o,
        None => trim(payload),
    }
}

/// Picks the part of an answer endpoint's reply to read.
pub fn answer_candidate(payload_text: &str) -> (r: String)
    ensures
        r@ == answer_candidate_of(payload_text@),
{
    let trimmed = string_of(trim_chars(chars_of(payload_text).as_slice()).as_slice());
    match extract_json_object(trimmed.as_str()) {
        Some(o) => string_of(chars_of(o).as_slice()),
        None => trimmed,
    }
}

/// The shapes an answer endpoint replies in: an object with the answer under
/// one of several keys, or a bare string.
#[derive(Debug)]
pub enum EndpointReply {
    Structured {
        answer: Option<String>,
        response: Option<String>,
        message: Option<String>,
        text: Option<String>,
        body: Option<String>,
    },
    Plain(String),
}

/// The first of the given optional strings that is there, or the empty text.
pub open spec fn first_given(a: Option<String>, b: Option<String>, c: Option<String>, d: Option<String>, e: Option<String>) -> Seq<char> {
    match a {
        Some(x) => x@,
        None => match b {
            Some(x) => x@,
            None => match c {
                Some(x) => x@,
                None => match d {
                    Some(x) => x@,
                    None => match e {
                        Some(x) => x@,
                        None => Seq::empty(),
                    },
                },
            },
        },
    }
}

/// The answer in a reply: a bare string as it is; from an object, the first
/// of `answer`, `response`, `message`, `text` and `body` that is there; from a
/// reply of neither shape, the candidate text itself. `None` where that
/// answer is blank.
pub open spec fn endpoint_answer(candidate: Seq<char>, parsed: Option<EndpointReply>) -> Option<Seq<char>> {
    let a = match parsed {
        Some(EndpointReply::Plain(v)) => v@,
        Some(EndpointReply::Structured { answer, response, message, text, body }) => first_given(
            answer,
            response,
            message,
            text,
            body,
        ),
        None => candidate,
    };
    if trim(a).len() == 0 {
        None
    } else {
        Some(a)
    }
}

fn or_next(a: Option<String>, b: Option<String>) -> (r: Option<String>)
    ensures
        r == (match a {
            Some(x) => Some(x),
            None => b,
        }),
{
    match a {
        Some(x) => Some(x),
        None => b,
    }
}

/// The answer an endpoint gave, from the candidate text and its reading as
/// one of the reply shapes (`None` where it is neither); fails when the answer
/// is blank.
pub fn answer_from_reply(candidate: String, parsed: Option<EndpointReply>) -> (r: Result<String, AgentError>)
    ensures
        match endpoint_answer(candidate@, parsed) {
            Some(a) => r matches Ok(t) && t@ == a,
            None => r matches Err(AgentError::AnswerEndpointEmpty),
        },
{
    let a = match parsed {
        Some(EndpointReply::Plain(v)) => v,
        Some(EndpointReply::Structured { answer, response, message, text, body }) => {
            let picked = or_next(answer, or_next(response, or_next(message, or_next(text, body))));
            match picked {
                Some(x) => x,
                None => String::new(),
            }
        },
        None => candidate,
    };
    if trim_chars(chars_of(a.as_str()).as_slice()).len() == 0 {
        Err(AgentError::AnswerEndpointEmpty)
    } else {
        Ok(a)
    }
}

/// The question a citizen asks in an email: the text the pipeline reads from
/// it (plain text, else HTML, else the snippet), trimmed.
pub open spec fn citizen_question(m: GmailMessage) -> Seq<char> {
    trim(prompt_body_of(m))
}

/// The body of `POST /query` on the answer service, the payload the web
/// interface sends too: `{"query": q}` as serde_json writes it.
pub open spec fn query_request(q: Seq<char>) -> Seq<char> {
    "{\"query\":"@ + json_quoted(q) + "}"@
}

/// Builds the answer service's request for the citizen question in `message`.
pub fn answer_request_body(message: &GmailMessage) -> (r: String)
    ensures
        r@ == query_request(citizen_question(*message)),
{
    let body = message.prompt_body();
    let question = string_of(trim_chars(chars_of(body.as_str()).as_slice()).as_slice());
    let mut v = chars_of("{\"query\":");
    push_json_quoted(&mut v, question.as_str());
    push_lit(&mut v, "}");
    string_of(v.as_slice())
}

/// The `initialize` request that opens an MCP session, as serde_json writes
/// it (members in key order).
pub open spec fn initialize_request() -> Seq<char> {
    "{\"id\":1,\"jsonrpc\":\"2.0\",\"method\":\"initialize\",\"params\":{\"capabilities\":{\"roots\":{\"listChanged\":false},\"sampling\":{}},\"clientInfo\":{\"name\":\"email-interface\",\"version\":\"0.1.0\"},\"protocolVersion\":\"2024-11-05\"}}"@
}

/// Builds the `initialize` request.
pub fn mcp_initialize_request() -> (r: String)
    ensures
        r@ == initialize_request(),
{
    string_of(chars_of("{\"id\":1,\"jsonrpc\":\"2.0\",\"method\":\"initialize\",\"params\":{\"capabilities\":{\"roots\":{\"listChanged\":false},\"sampling\":{}},\"clientInfo\":{\"name\":\"email-interface\",\"version\":\"0.1.0\"},\"protocolVersion\":\"2024-11-05\"}}").as_slice())
}

/// The notification that the session is initialized.
pub open spec fn initialized_notification() -> Seq<char> {
    "{\"jsonrpc\":\"2.0\",\"method\":\"initialized\",\"params\":{}}"@
}

/// Builds the `initialized` notification.
pub fn mcp_initialized_notification() -> (r: String)
    ensures
        r@ == initialized_notification(),
{
    string_of(chars_of("{\"jsonrpc\":\"2.0\",\"method\":\"initialized\",\"params\":{}}").as_slice())
}

/// The `tools/call` request that runs `tool` on `query`, as serde_json writes
/// it (members in key order).
pub open spec fn tool_call_request(tool: Seq<char>, query: Seq<char>) -> Seq<char> {
    "{\"id\":2,\"jsonrpc\":\"2.0\",\"method\":\"tools/call\",\"params\":{\"arguments\":{\"query\":"@
        + json_quoted(query) + "},\"name\":"@ + json_quoted(tool) + "}}"@
}

/// Builds the `tools/call` request for `tool_name` on `query`.
pub fn mcp_tool_call_request(tool_name: &str, query: &str) -> (r: String)
    ensures
        r@ == tool_call_request(tool_name@, query@),
{
    let mut v = chars_of("{\"id\":2,\"jsonrpc\":\"2.0\",\"method\":\"tools/call\",\"params\":{\"arguments\":{\"query\":");
    push_json_quoted(&mut v, query);
    push_lit(&mut v, "},\"name\":");
    push_json_quoted(&mut v, tool_name);
    push_lit(&mut v, "}}");
    string_of(v.as_slice())
}

proof fn lemma_first_json_none(cs: Seq<Seq<char>>, j: int)
    requires
        0 <= j < cs.len(),
        first_json(cs) is None,
    ensures
        !json_valid(cs[j]),
    decreases cs.len(),
{
    if j < cs.len() - 1 {
        lemma_first_json_none(cs.drop_last(), j);
    }
}

proof fn lemma_first_json_prefix(lines: Seq<Seq<char>>, k: int)
    requires
        0 <= k <= lines.len(),
        first_json(sse_chunks(lines.take(k))) is Some,
    ensures
        first_json(sse_chunks(lines)) == first_json(sse_chunks(lines.take(k))),
    decreases lines.len() - k,
{
    if k < lines.len() {
        let cs = sse_chunks(lines.take(k));
        assert(lines.take(k + 1).drop_last() =~= lines.take(k));
        assert(lines.take(k + 1).last() == lines[k]);
        if let Some(d) = sse_data(lines[k]) {
            assert(sse_chunks(lines.take(k + 1)) == cs.push(d));
            assert(cs.push(d).drop_last() =~= cs);
        }
        lemma_first_json_prefix(lines, k + 1);
    } else {
        assert(lines.take(k) =~= lines);
    }
}

} // verus!
