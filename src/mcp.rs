//! The protocol server's logic: one JSON request per input line, at most one
//! JSON response line per request.
//!
//! `handle_line` decides what a line asks for. Everything it can answer
//! from fixed data or from the line itself it answers at once; a tool call
//! whose arguments check out comes back as a request for the caller to run,
//! and `tool_reply` frames what came of it. A tool's failure is a successful
//! response whose content carries an error marker; only an undecodable line,
//! an unknown method and an unknown reference document are protocol errors.

use vstd::prelude::*;

use crate::catalog::{
    FIELDS_REFERENCE, FIELDS_URI, INITIALIZE_RESULT, RESOURCE_CATALOG, SYNTAX_REFERENCE,
    SYNTAX_URI, TOOL_CATALOG,
};
use crate::error::{error_message, SciXError};
use crate::json::{decode_json, field, get_field, get_str, json_decoded, json_quoted, opt_ref,
    quote_json, str_of, JsonValue};
use crate::text::{push_str, same_text};
use crate::tools::{or_default, request_fits, tool_problem, ToolRequest};

verus! {

/// What to do with one input line.
#[derive(Debug)]
pub enum Step {
    /// Write this response line.
    Reply(String),
    /// Write nothing: the line was a notification.
    Ignore,
    /// Run the tool request, then write `tool_reply(&id, ..)` with its outcome.
    Invoke { id: String, request: ToolRequest },
}

/// The text of a request's `id` in a response: a scalar as it came, and
/// `null` when it is absent, null or not a scalar.
pub open spec fn id_text(id: Option<JsonValue>) -> Seq<char> {
    match id {
        Some(JsonValue::Bool(b)) => if b {
            "true"@
        } else {
            "false"@
        },
        Some(JsonValue::Number(t)) => t@,
        Some(JsonValue::Str(s)) => json_quoted(s@),
        _ => "null"@,
    }
}

pub open spec fn method_of(v: Option<JsonValue>) -> Seq<char> {
    or_default(str_of(field(v, "method"@)), ""@)
}

/// A success response.
pub open spec fn result_line(id: Seq<char>, result: Seq<char>) -> Seq<char> {
    "{\"id\":"@ + id + ",\"jsonrpc\":\"2.0\",\"result\":"@ + result + "}"@
}

/// A protocol error response.
pub open spec fn error_line(id: Seq<char>, code: Seq<char>, message: Seq<char>) -> Seq<char> {
    "{\"error\":{\"code\":"@ + code + ",\"message\":"@ + json_quoted(message) + "},\"id\":"@ + id
        + ",\"jsonrpc\":\"2.0\"}"@
}

pub open spec fn parse_error_line() -> Seq<char> {
    error_line("null"@, "-32700"@, "Parse error"@)
}

/// The content envelope of a tool's outcome: one text item, marked as an
/// error when the tool failed.
pub open spec fn tool_content(text: Seq<char>, failed: bool) -> Seq<char> {
    "{\"content\":[{\"text\":"@ + json_quoted(text) + ",\"type\":\"text\"}]"@ + if failed {
        ",\"isError\":true}"@
    } else {
        "}"@
    }
}

/// The response to a tool call that ran, or failed, with `outcome`.
pub open spec fn tool_line(id: Seq<char>, outcome: Result<Seq<char>, SciXError>) -> Seq<char> {
    match outcome {
        Ok(text) => result_line(id, tool_content(text, false)),
        Err(e) => result_line(id, tool_content("Error: "@ + error_message(e), true)),
    }
}

/// The response to a tool call refused for `problem` before it ran.
pub open spec fn problem_line(id: Seq<char>, problem: Seq<char>) -> Seq<char> {
    result_line(id, tool_content("Error: Invalid query: "@ + problem, true))
}

pub open spec fn tools_list_body() -> Seq<char> {
    "{\"tools\":"@ + TOOL_CATALOG@ + "}"@
}

pub open spec fn resource_body(uri: Seq<char>, text: Seq<char>) -> Seq<char> {
    "{\"contents\":[{\"mimeType\":\"text/plain\",\"text\":"@ + json_quoted(text) + ",\"uri\":"@
        + json_quoted(uri) + "}]}"@
}

pub open spec fn is_reply(r: Step, text: Seq<char>) -> bool {
    r matches Step::Reply(t) && t@ == text
}

/// What a decoded request `v` calls for.
pub open spec fn step_fits(r: Step, v: Option<JsonValue>) -> bool {
    let id = id_text(field(v, "id"@));
    let m = method_of(v);
    let params = field(v, "params"@);
    if m == "initialize"@ {
        is_reply(r, result_line(id, INITIALIZE_RESULT@))
    } else if m == "tools/list"@ {
        is_reply(r, result_line(id, tools_list_body()))
    } else if m == "tools/call"@ {
        let name = or_default(str_of(field(params, "name"@)), ""@);
        let args = field(params, "arguments"@);
        match tool_problem(name, args) {
            Some(p) => is_reply(r, problem_line(id, p)),
            None => r matches Step::Invoke { id: i, request } && i@ == id && request_fits(
                request,
                name,
                args,
            ),
        }
    } else if m == "resources/list"@ {
        is_reply(r, result_line(id, RESOURCE_CATALOG@))
    } else if m == "resources/read"@ {
        let uri = or_default(str_of(field(params, "uri"@)), ""@);
        if uri == FIELDS_URI@ {
            is_reply(r, result_line(id, resource_body(uri, FIELDS_REFERENCE@)))
        } else if uri == SYNTAX_URI@ {
            is_reply(r, result_line(id, resource_body(uri, SYNTAX_REFERENCE@)))
        } else {
            is_reply(r, error_line(id, "-32602"@, "Unknown resource: "@ + uri))
        }
    } else if m == "notifications/initialized"@ || m == "notifications/cancelled"@ {
        r is Ignore
    } else {
        is_reply(r, error_line(id, "-32601"@, "Method not found: "@ + m))
    }
}

/// What an input line calls for: a parse error when it is not JSON.
pub open spec fn line_fits(r: Step, line: Seq<char>) -> bool {
    match json_decoded(line) {
        None => is_reply(r, parse_error_line()),
        Some(v) => step_fits(r, Some(v)),
    }
}

pub open spec fn outcome_view(o: Result<String, SciXError>) -> Result<Seq<char>, SciXError> {
    match o {
        Ok(s) => Ok(s@),
        Err(e) => Err(e),
    }
}

fn render_id(id: Option<&JsonValue>) -> (r: String)
    ensures
        r@ == id_text(opt_ref(id)),
{
    match id {
        Some(JsonValue::Bool(b)) => if *b {
            String::from_str("true")
        } else {
            String::from_str("false")
        },
        Some(JsonValue::Number(t)) => t.clone(),
        Some(JsonValue::Str(s)) => quote_json(s.as_str()),
        _ => String::from_str("null"),
    }
}

/// A success response line.
pub fn result_response(id: &str, result: &str) -> (r: String)
    ensures
        r@ == result_line(id@, result@),
{
    let mut s = String::from_str("{\"id\":");
    push_str(&mut s, id);
    push_str(&mut s, ",\"jsonrpc\":\"2.0\",\"result\":");
    push_str(&mut s, result);
    push_str(&mut s, "}");
    s
}

/// A protocol error response line.
pub fn error_response(id: &str, code: &str, message: &str) -> (r: String)
    ensures
        r@ == error_line(id@, code@, message@),
{
    let mut s = String::from_str("{\"error\":{\"code\":");
    push_str(&mut s, code);
    push_str(&mut s, ",\"message\":");
    let q = quote_json(message);
    push_str(&mut s, q.as_str());
    push_str(&mut s, "},\"id\":");
    push_str(&mut s, id);
    push_str(&mut s, ",\"jsonrpc\":\"2.0\"}");
    s
}

fn content_envelope(text: &str, failed: bool) -> (r: String)
    ensures
        r@ == tool_content(text@, failed),
{
    let mut s = String::from_str("{\"content\":[{\"text\":");
    let q = quote_json(text);
    push_str(&mut s, q.as_str());
    push_str(&mut s, ",\"type\":\"text\"}]");
    if failed {
        push_str(&mut s, ",\"isError\":true}");
    } else {
        push_str(&mut s, "}");
    }
    s
}

/// The response line to a tool call that came to `outcome`: the text on
/// success, the error's message under an error marker on failure.
pub fn tool_reply(id: &str, outcome: &Result<String, SciXError>) -> (r: String)
    ensures
        r@ == tool_line(id@, outcome_view(*outcome)),
{
    match outcome {
        Ok(text) => {
            let body = content_envelope(text.as_str(), false);
            result_response(id, body.as_str())
        },
        Err(e) => {
            let mut text = String::from_str("Error: ");
            let m = e.message();
            push_str(&mut text, m.as_str());
            let body = content_envelope(text.as_str(), true);
            result_response(id, body.as_str())
        },
    }
}

fn resource_reply(id: &str, uri: &str, text: &str) -> (r: String)
    ensures
        r@ == result_line(id@, resource_body(uri@, text@)),
{
    let mut body = String::from_str("{\"contents\":[{\"mimeType\":\"text/plain\",\"text\":");
    let t = quote_json(text);
    push_str(&mut body, t.as_str());
    push_str(&mut body, ",\"uri\":");
    let u = quote_json(uri);
    push_str(&mut body, u.as_str());
    push_str(&mut body, "}]}");
    result_response(id, body.as_str())
}

fn tool_step(id: String, params: Option<&JsonValue>) -> (r: Step)
    ensures
        ({
            let name = or_default(str_of(field(opt_ref(params), "name"@)), ""@);
            let args = field(opt_ref(params), "arguments"@);
            match tool_problem(name, args) {
                Some(p) => is_reply(r, problem_line(id@, p)),
                None => r matches Step::Invoke { id: i, request } && i@ == id@ && request_fits(
                    request,
                    name,
                    args,
                ),
            }
        }),
{
    proof {
        reveal_strlit("");
    }
    let name = match get_str(get_field(params, "name")) {
        Some(n) => n,
        None => "",
    };
    let args = get_field(params, "arguments");
    match ToolRequest::from_call(name, args) {
        Ok(request) => Step::Invoke { id, request },
        Err(problem) => {
            let mut text = String::from_str("Error: Invalid query: ");
            push_str(&mut text, problem.as_str());
            let body = content_envelope(text.as_str(), true);
            Step::Reply(result_response(id.as_str(), body.as_str()))
        },
    }
}

fn read_step(id: &str, params: Option<&JsonValue>) -> (r: Step)
    ensures
        ({
            let uri = or_default(str_of(field(opt_ref(params), "uri"@)), ""@);
            if uri == FIELDS_URI@ {
                is_reply(r, result_line(id@, resource_body(uri, FIELDS_REFERENCE@)))
            } else if uri == SYNTAX_URI@ {
                is_reply(r, result_line(id@, resource_body(uri, SYNTAX_REFERENCE@)))
            } else {
                is_reply(r, error_line(id@, "-32602"@, "Unknown resource: "@ + uri))
            }
        }),
{
    proof {
        reveal_strlit("");
    }
    let uri = match get_str(get_field(params, "uri")) {
        Some(u) => u,
        None => "",
    };
    if same_text(uri, FIELDS_URI) {
        Step::Reply(resource_reply(id, uri, FIELDS_REFERENCE))
    } else if same_text(uri, SYNTAX_URI) {
        Step::Reply(resource_reply(id, uri, SYNTAX_REFERENCE))
    } else {
        let mut message = String::from_str("Unknown resource: ");
        push_str(&mut message, uri);
        Step::Reply(error_response(id, "-32602", message.as_str()))
    }
}

/// Decides what one decoded request calls for.
pub fn handle_request(v: &JsonValue) -> (r: Step)
    ensures
        step_fits(r, Some(*v)),
{
    proof {
        reveal_strlit("");
        reveal_strlit("initialize");
        reveal_strlit("tools/list");
        reveal_strlit("tools/call");
        reveal_strlit("resources/list");
        reveal_strlit("resources/read");
        reveal_strlit("notifications/initialized");
        reveal_strlit("notifications/cancelled");
    }
    let id = render_id(get_field(Some(v), "id"));
    let method = match get_str(get_field(Some(v), "method")) {
        Some(m) => m,
        None => "",
    };
    let params = get_field(Some(v), "params");
    if same_text(method, "initialize") {
        Step::Reply(result_response(id.as_str(), INITIALIZE_RESULT))
    } else if same_text(method, "tools/list") {
        let mut body = String::from_str("{\"tools\":");
        push_str(&mut body, TOOL_CATALOG);
        push_str(&mut body, "}");
        Step::Reply(result_response(id.as_str(), body.as_str()))
    } else if same_text(method, "tools/call") {
        tool_step(id, params)
    } else if same_text(method, "resources/list") {
        Step::Reply(result_response(id.as_str(), RESOURCE_CATALOG))
    } else if same_text(method, "resources/read") {
        read_step(id.as_str(), params)
    } else if same_text(method, "notifications/initialized") || same_text(
        method,
        "notifications/cancelled",
    ) {
        Step::Ignore
    } else {
        let mut message = String::from_str("Method not found: ");
        push_str(&mut message, method);
        Step::Reply(error_response(id.as_str(), "-32601", message.as_str()))
    }
}

/// Decides what one input line calls for: a parse error response when it is
/// not JSON, else what its request calls for.
pub fn handle_line(line: &str) -> (r: Step)
    ensures
        line_fits(r, line@),
{
    match decode_json(line) {
        Some(v) => handle_request(&v),
        None => Step::Reply(error_response("null", "-32700", "Parse error")),
    }
}

proof fn lemma_methods_distinct()
    ensures
        "tools/list"@ != "initialize"@,
        "tools/call"@ != "initialize"@,
        "tools/call"@ != "tools/list"@,
{
    reveal_strlit("initialize");
    reveal_strlit("tools/list");
    reveal_strlit("tools/call");
    assert("tools/list"@[0] != "initialize"@[0]);
    assert("tools/call"@[0] != "initialize"@[0]);
    assert("tools/call"@[6] != "tools/list"@[6]);
}

/// A line that is not JSON is answered with exactly one response: a parse
/// error whose `id` is null.
pub proof fn lemma_undecodable_line(line: Seq<char>, r: Step)
    requires
        json_decoded(line) is None,
        line_fits(r, line),
    ensures
        r matches Step::Reply(t) && t@ == error_line("null"@, "-32700"@, "Parse error"@),
{
}

/// A tool call that names no known tool is answered at once with a success
/// response whose content is marked as an error and names the tool.
pub proof fn lemma_unknown_tool(line: Seq<char>, r: Step)
    requires
        json_decoded(line) is Some,
        line_fits(r, line),
        method_of(json_decoded(line)) == "tools/call"@,
        ({
            let name = or_default(
                str_of(field(field(json_decoded(line), "params"@), "name"@)),
                ""@,
            );
            tool_problem(name, field(field(json_decoded(line), "params"@), "arguments"@))
                == Some("Unknown tool: "@ + name)
        }),
    ensures
        r matches Step::Reply(t) && t@ == result_line(
            id_text(field(json_decoded(line), "id"@)),
            tool_content(
                "Error: Invalid query: Unknown tool: "@ + or_default(
                    str_of(field(field(json_decoded(line), "params"@), "name"@)),
                    ""@,
                ),
                true,
            ),
        ),
{
    lemma_methods_distinct();
    let name = or_default(str_of(field(field(json_decoded(line), "params"@), "name"@)), ""@);
    assert("Error: Invalid query: "@ + ("Unknown tool: "@ + name) =~= "Error: Invalid query: Unknown tool: "@ + name) by {
        reveal_strlit("Error: Invalid query: ");
        reveal_strlit("Unknown tool: ");
        reveal_strlit("Error: Invalid query: Unknown tool: ");
    }
}

/// A tool call whose arguments are refused (a required one missing or of the
/// wrong shape) is answered at once with a content-level failure; no request
/// is handed out to be run, so no outbound call is made.
pub proof fn lemma_refused_arguments_make_no_call(line: Seq<char>, r: Step)
    requires
        json_decoded(line) is Some,
        line_fits(r, line),
        method_of(json_decoded(line)) == "tools/call"@,
        tool_problem(
            or_default(str_of(field(field(json_decoded(line), "params"@), "name"@)), ""@),
            field(field(json_decoded(line), "params"@), "arguments"@),
        ) is Some,
    ensures
        !(r is Invoke),
        r matches Step::Reply(t) && t@ == problem_line(
            id_text(field(json_decoded(line), "id"@)),
            tool_problem(
                or_default(str_of(field(field(json_decoded(line), "params"@), "name"@)), ""@),
                field(field(json_decoded(line), "params"@), "arguments"@),
            ).unwrap(),
        ),
{
    lemma_methods_distinct();
}

/// Listing the tool catalog twice yields the same catalog, byte for byte:
/// the answers to two listing requests differ in their `id` alone.
pub proof fn lemma_catalog_listing_stable(line1: Seq<char>, line2: Seq<char>, r1: Step, r2: Step)
    requires
        json_decoded(line1) is Some,
        json_decoded(line2) is Some,
        method_of(json_decoded(line1)) == "tools/list"@,
        method_of(json_decoded(line2)) == "tools/list"@,
        line_fits(r1, line1),
        line_fits(r2, line2),
    ensures
        r1 matches Step::Reply(t) && t@ == result_line(
            id_text(field(json_decoded(line1), "id"@)),
            tools_list_body(),
        ),
        r2 matches Step::Reply(t) && t@ == result_line(
            id_text(field(json_decoded(line2), "id"@)),
            tools_list_body(),
        ),
        id_text(field(json_decoded(line1), "id"@)) == id_text(field(json_decoded(line2), "id"@))
            ==> r1->Reply_0@ == r2->Reply_0@,
{
    lemma_methods_distinct();
}

} // verus!
