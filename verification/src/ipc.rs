//! What a client of the server's HTTP interface decides without the
//! network: which workspace a project name stands for, what a request by
//! method name means, and what an answer holds.

use vstd::prelude::*;
use vstd::string::StringExecFns;
use crate::json::{Json, JsonView};
use crate::lsp::number;
use crate::text::str_eq;

verus! {

/// The number of times a connection is tried.
pub const CONNECT_ATTEMPTS: u32 = 30;

/// The pause between two tries of a connection, in milliseconds.
pub const CONNECT_INTERVAL_MILLIS: u64 = 500;

/// The directory of the workspace that a project name stands for.
pub open spec fn workspace_of(project_type: Seq<char>) -> Option<Seq<char>> {
    if project_type == "test-project"@ || project_type == "test-project-singleton"@
        || project_type == "test-project-concurrent"@ {
        Some("test-project"@)
    } else if project_type == "test-project-diagnostics"@ {
        Some("test-project-diagnostics"@)
    } else {
        None
    }
}

/// Finds the directory of the workspace that `project_type` stands for;
/// `None` for a name that stands for none.
pub fn project_workspace(project_type: &str) -> (dir: Option<&'static str>)
    ensures
        match dir {
            Some(d) => workspace_of(project_type@) == Some(d@),
            None => workspace_of(project_type@) is None,
        },
{
    if str_eq(project_type, "test-project") || str_eq(project_type, "test-project-singleton")
        || str_eq(project_type, "test-project-concurrent") {
        Some("test-project")
    } else if str_eq(project_type, "test-project-diagnostics") {
        Some("test-project-diagnostics")
    } else {
        None
    }
}

/// The text that reports a project name that stands for no workspace.
pub fn unknown_project_message(project_type: &str) -> (text: String)
    ensures
        text@ == "Unknown project type: "@ + project_type@,
{
    let mut text = "Unknown project type: ".to_owned();
    text.append(project_type);
    text
}

/// What a request by method name asks for.
#[derive(Debug, Clone, Copy, PartialEq, Eq, Structural)]
pub enum IpcMethod {
    /// The list of tools.
    ListTools,
    /// A call of a tool.
    CallTool,
    /// The handshake, which the server needs none of.
    Initialize,
}

/// The request that the method name `method` makes.
pub open spec fn method_named(method: Seq<char>) -> Option<IpcMethod> {
    if method == "tools/list"@ {
        Some(IpcMethod::ListTools)
    } else if method == "tools/call"@ {
        Some(IpcMethod::CallTool)
    } else if method == "initialize"@ {
        Some(IpcMethod::Initialize)
    } else {
        None
    }
}

/// Reads a method name.
pub fn find_method(method: &str) -> (found: Option<IpcMethod>)
    ensures
        found == method_named(method@),
{
    if str_eq(method, "tools/list") {
        Some(IpcMethod::ListTools)
    } else if str_eq(method, "tools/call") {
        Some(IpcMethod::CallTool)
    } else if str_eq(method, "initialize") {
        Some(IpcMethod::Initialize)
    } else {
        None
    }
}

/// The text that reports a method that is not known.
pub fn unknown_method_message(method: &str) -> (text: String)
    ensures
        text@ == "Unknown method: "@ + method@,
{
    let mut text = "Unknown method: ".to_owned();
    text.append(method);
    text
}

/// The answer to the handshake.
pub open spec fn initialize_reply_view() -> JsonView {
    JsonView::Object(
        seq![
            ("protocolVersion"@, JsonView::String("2024-11-05"@)),
            (
                "serverInfo"@,
                JsonView::Object(
                    seq![
                        ("name"@, JsonView::String("rust-analyzer-server"@)),
                        ("version"@, JsonView::String("0.3.0"@)),
                    ],
                ),
            ),
            (
                "capabilities"@,
                JsonView::Object(seq![("tools"@, JsonView::Object(Seq::empty()))]),
            ),
        ],
    )
}

/// Writes the answer to the handshake.
pub fn initialize_reply() -> (reply: Json)
    ensures
        reply@ == initialize_reply_view(),
{
    let nothing = Json::Object(Vec::new());
    assert(nothing@ == JsonView::Object(Seq::empty())) by {
        assert(crate::json::view_members(Seq::empty()) =~= Seq::<(Seq<char>, JsonView)>::empty());
    }
    Json::object3(
        "protocolVersion",
        Json::string("2024-11-05"),
        "serverInfo",
        Json::object2(
            "name",
            Json::string("rust-analyzer-server"),
            "version",
            Json::string("0.3.0"),
        ),
        "capabilities",
        Json::object1("tools", nothing),
    )
}

/// The name of the tool that the parameters of a call name; the empty
/// text where they name none.
pub open spec fn called_tool(params: JsonView) -> Seq<char> {
    match params.field("name"@).as_str() {
        Some(name) => name,
        None => Seq::empty(),
    }
}

/// The arguments that the parameters of a call carry; an empty object
/// where they carry none.
pub open spec fn call_arguments(params: JsonView) -> JsonView {
    match params.get("arguments"@) {
        Some(arguments) => arguments,
        None => JsonView::Object(Seq::empty()),
    }
}

/// Reads the tool name and the arguments from the parameters of a call.
pub fn read_tool_call(params: &Json) -> (call: (String, Json))
    ensures
        call.0@ == called_tool(params@),
        call.1@ == call_arguments(params@),
{
    let name = match params.text_field("name") {
        Some(name) => name,
        None => String::new(),
    };
    let arguments = match params.get("arguments") {
        Some(arguments) => arguments.clone(),
        None => {
            let nothing = Json::Object(Vec::new());
            assert(nothing@ == JsonView::Object(Seq::empty())) by {
                assert(crate::json::view_members(Seq::empty()) =~= Seq::<
                    (Seq<char>, JsonView),
                >::empty());
            }
            nothing
        },
    };
    (name, arguments)
}

/// Whether an answer reports success.
pub open spec fn is_ok(body: JsonView) -> bool {
    body.field("ok"@).as_bool() == Some(true)
}

/// The error text of an answer, or `fallback` where it has none.
pub open spec fn error_text(body: JsonView, fallback: Seq<char>) -> Seq<char> {
    match body.field("error"@).as_str() {
        Some(text) => text,
        None => fallback,
    }
}

/// What the answer to a tool call holds: the result of a success; else the
/// error text, as it is where the HTTP status reports the failure too, and
/// marked as a server error where it does not.
pub open spec fn call_outcome(body: JsonView, status_is_error: bool) -> Result<
    JsonView,
    Seq<char>,
> {
    if is_ok(body) {
        Ok(body.field("result"@))
    } else if status_is_error {
        Err(error_text(body, "unknown error"@))
    } else {
        Err("Server error: "@ + error_text(body, "unknown error"@))
    }
}

/// What the answer to a request for the list of tools holds.
pub open spec fn list_outcome(body: JsonView) -> Result<JsonView, Seq<char>> {
    if is_ok(body) {
        Ok(body.field("result"@))
    } else {
        Err("Server error: "@ + error_text(body, "unknown"@))
    }
}

/// The view of what was read from an answer.
pub open spec fn outcome_view(r: Result<Json, String>) -> Result<JsonView, Seq<char>> {
    match r {
        Ok(v) => Ok(v@),
        Err(e) => Err(e@),
    }
}

fn reports_success(body: &Json) -> (yes: bool)
    ensures
        yes == is_ok(body@),
{
    match body.field("ok").as_bool() {
        Some(ok) => ok,
        None => false,
    }
}

fn read_error(body: &Json, fallback: &str) -> (text: String)
    ensures
        text@ == error_text(body@, fallback@),
{
    match body.text_field("error") {
        Some(text) => text,
        None => fallback.to_owned(),
    }
}

/// Reads the answer to a tool call.
pub fn read_call_answer(body: &Json, status_is_error: bool) -> (r: Result<Json, String>)
    ensures
        outcome_view(r) == call_outcome(body@, status_is_error),
{
    if reports_success(body) {
        Ok(body.field("result"))
    } else if status_is_error {
        Err(read_error(body, "unknown error"))
    } else {
        let mut text = "Server error: ".to_owned();
        text.append(read_error(body, "unknown error").as_str());
        Err(text)
    }
}

/// Reads the answer to a request for the list of tools.
pub fn read_list_answer(body: &Json) -> (r: Result<Json, String>)
    ensures
        outcome_view(r) == list_outcome(body@),
{
    if reports_success(body) {
        Ok(body.field("result"))
    } else {
        let mut text = "Server error: ".to_owned();
        text.append(read_error(body, "unknown").as_str());
        Err(text)
    }
}

/// A tool result with the one text item `text`, as a JSON value.
pub open spec fn text_content_view(text: Seq<char>) -> JsonView {
    JsonView::Object(
        seq![
            (
                "content"@,
                JsonView::Array(
                    seq![
                        JsonView::Object(
                            seq![
                                ("type"@, JsonView::String("text"@)),
                                ("text"@, JsonView::String(text)),
                            ],
                        ),
                    ],
                ),
            ),
        ],
    )
}

/// Writes a tool result with the one text item `text` as a JSON value.
pub fn text_content(text: String) -> (content: Json)
    ensures
        content@ == text_content_view(text@),
{
    let item = Json::object2("type", Json::string("text"), "text", Json::String(text));
    let mut items: Vec<Json> = Vec::new();
    items.push(item);
    assert(crate::json::view_items(items@) =~= seq![item@]);
    Json::object1("content", Json::array(items))
}

} // verus!
