use rust_analyzer_server::error::{LastObserved, RequestError, RetryError};
use rust_analyzer_server::json::{Json, Number};
use rust_analyzer_server::lsp::{Query, Span};
use rust_analyzer_server::retry::RetryPolicy;
use rust_analyzer_server::run::{first_query, RunAction, RunError, Stage, ToolRun};
use rust_analyzer_server::tools::{parse_tool_call, Tool, ToolCall};

fn s(t: &str) -> Json {
    Json::String(t.to_string())
}

fn n(v: u64) -> Json {
    Json::Number(Number::PosInt(v))
}

fn obj(members: Vec<(&str, Json)>) -> Json {
    Json::Object(members.into_iter().map(|(k, v)| (k.to_string(), v)).collect())
}

fn policy() -> RetryPolicy {
    RetryPolicy { interval_millis: 500, budget_secs: 15 }
}

fn range(line: u64, character: u64) -> Json {
    obj(vec![
        ("start", obj(vec![("line", n(line)), ("character", n(character))])),
        ("end", obj(vec![("line", n(line)), ("character", n(character + 1))])),
    ])
}

fn hover_query() -> Query {
    Query::Hover { uri: "file:///ws/a.rs".to_string(), line: 1, character: 2 }
}

#[test]
fn run_begins_by_asking_first_query() {
    let (run, action) = ToolRun::begin(Tool::Hover, hover_query(), policy());
    assert_eq!(action, RunAction::Ask(hover_query()));
    assert_eq!(run.stage(), Stage::Asking);
    assert!(!run.has_waited());
}

#[test]
fn hover_run_polls_until_ready() {
    let (mut run, _) = ToolRun::begin(Tool::Hover, hover_query(), policy());
    assert_eq!(run.on_outcome(Ok(Json::Null), 10), RunAction::Sleep { millis: 500 });
    assert_eq!(run.stage(), Stage::Sleeping);
    assert!(run.has_waited());
    assert_eq!(run.on_wake(), RunAction::Ask(hover_query()));
    assert_eq!(run.on_outcome(Err(RequestError::Timeout), 600), RunAction::Sleep { millis: 500 });
    assert_eq!(run.on_wake(), RunAction::Ask(hover_query()));
    let hover = obj(vec![("contents", s("fn main()"))]);
    assert_eq!(run.on_outcome(Ok(hover.clone()), 1200), RunAction::Finish(hover));
    assert_eq!(run.stage(), Stage::Ended);
}

#[test]
fn run_times_out_with_last_observation() {
    let (mut run, _) = ToolRun::begin(Tool::Hover, hover_query(), policy());
    assert_eq!(run.on_outcome(Ok(Json::Array(vec![])), 15_000), RunAction::Sleep { millis: 500 });
    run.on_wake();
    assert_eq!(
        run.on_outcome(Err(RequestError::Timeout), 16_200),
        RunAction::Fail(RunError::Retry(RetryError::IndexingTimeout {
            waited_secs: 16,
            last: LastObserved::Failed(RequestError::Timeout),
        }))
    );
    assert_eq!(run.stage(), Stage::Ended);
}

#[test]
fn definition_run_shortens_ready_result() {
    let query = Query::Definition { uri: "u".to_string(), line: 0, character: 0 };
    let (mut run, _) = ToolRun::begin(Tool::Definition, query, policy());
    let links = Json::Array(vec![obj(vec![
        ("targetUri", s("file:///ws/lib.rs")),
        ("targetSelectionRange", range(3, 4)),
    ])]);
    assert_eq!(
        run.on_outcome(Ok(links), 0),
        RunAction::Finish(Json::Array(vec![obj(vec![("location", s("/ws/lib.rs:3:4"))])]))
    );
}

#[test]
fn incoming_calls_run_prepares_then_expands() {
    let prepare = Query::PrepareCallHierarchy { uri: "u".to_string(), line: 5, character: 6 };
    let (mut run, first) = ToolRun::begin(Tool::IncomingCalls, prepare.clone(), policy());
    assert_eq!(first, RunAction::Ask(prepare.clone()));
    assert_eq!(run.on_outcome(Ok(Json::Array(vec![])), 0), RunAction::Sleep { millis: 500 });
    assert_eq!(run.on_wake(), RunAction::Ask(prepare.clone()));
    assert_eq!(run.on_outcome(Ok(obj(vec![])), 500), RunAction::Sleep { millis: 500 });
    assert_eq!(run.on_wake(), RunAction::Ask(prepare.clone()));
    let item = obj(vec![("name", s("callee"))]);
    assert_eq!(
        run.on_outcome(Ok(Json::Array(vec![item.clone(), n(2)])), 1000),
        RunAction::Ask(Query::IncomingCalls { item: item.clone() })
    );
    assert_eq!(run.stage(), Stage::Expanding);
    assert_eq!(run.on_outcome(Err(RequestError::Timeout), 1100), RunAction::Sleep { millis: 500 });
    assert_eq!(run.on_wake(), RunAction::Ask(prepare));
    assert_eq!(
        run.on_outcome(Ok(Json::Array(vec![item.clone()])), 1700),
        RunAction::Ask(Query::IncomingCalls { item })
    );
    let calls = Json::Array(vec![obj(vec![(
        "from",
        obj(vec![("name", s("caller")), ("uri", s("file:///ws/c.rs")), ("range", range(8, 0))]),
    )])]);
    assert_eq!(
        run.on_outcome(Ok(calls), 1800),
        RunAction::Finish(Json::Array(vec![obj(vec![
            ("caller", s("caller")),
            ("location", s("/ws/c.rs:8:0")),
        ])]))
    );
}

#[test]
fn expansion_result_counts_even_when_empty() {
    let prepare = Query::PrepareCallHierarchy { uri: "u".to_string(), line: 0, character: 0 };
    let (mut run, _) = ToolRun::begin(Tool::OutgoingCalls, prepare, policy());
    let item = obj(vec![("name", s("f"))]);
    assert_eq!(
        run.on_outcome(Ok(Json::Array(vec![item.clone()])), 0),
        RunAction::Ask(Query::OutgoingCalls { item })
    );
    assert_eq!(run.on_outcome(Ok(Json::Array(vec![])), 10), RunAction::Finish(Json::Array(vec![])));
    assert_eq!(run.stage(), Stage::Ended);
}

#[test]
fn workspace_symbols_are_judged_in_short_form() {
    let query = Query::WorkspaceSymbol { query: "Foo".to_string() };
    let (mut run, _) = ToolRun::begin(Tool::WorkspaceSymbol, query.clone(), policy());
    let unusable = Json::Array(vec![obj(vec![("name", s("Foo"))])]);
    assert_eq!(run.on_outcome(Ok(unusable), 0), RunAction::Sleep { millis: 500 });
    assert_eq!(run.on_wake(), RunAction::Ask(query));
    let usable = Json::Array(vec![obj(vec![
        ("name", s("Foo")),
        ("kind", n(23)),
        ("location", obj(vec![("uri", s("file:///ws/f.rs")), ("range", range(1, 2))])),
    ])]);
    assert_eq!(
        run.on_outcome(Ok(usable), 500),
        RunAction::Finish(Json::Array(vec![obj(vec![
            ("name", s("Foo")),
            ("kind", s("struct")),
            ("location", s("/ws/f.rs:1:2")),
        ])]))
    );
}

#[test]
fn tools_without_retry_end_at_once() {
    let query = Query::Completion { uri: "u".to_string(), line: 0, character: 0 };
    let (mut run, _) = ToolRun::begin(Tool::Completion, query.clone(), policy());
    assert_eq!(run.on_outcome(Ok(Json::Null), 0), RunAction::Finish(Json::Null));
    let (mut failing, _) = ToolRun::begin(Tool::Completion, query, policy());
    assert_eq!(
        failing.on_outcome(Err(RequestError::Timeout), 0),
        RunAction::Fail(RunError::Request(RequestError::Timeout))
    );
    assert_eq!(failing.stage(), Stage::Ended);
    let module = Query::ParentModule { uri: "u".to_string(), line: 0, character: 0 };
    let (mut parent, _) = ToolRun::begin(Tool::ParentModule, module, policy());
    assert_eq!(
        parent.on_outcome(Ok(Json::Array(vec![obj(vec![("targetUri", s("file:///m.rs"))])])), 0),
        RunAction::Finish(Json::Array(vec![obj(vec![("location", s("/m.rs"))])]))
    );
}

#[test]
fn events_out_of_turn_change_nothing() {
    let (mut run, _) = ToolRun::begin(Tool::Hover, hover_query(), policy());
    assert_eq!(run.on_wake(), RunAction::Fail(RunError::OutOfTurn));
    assert_eq!(run.stage(), Stage::Asking);
    assert_eq!(run.on_outcome(Ok(Json::Null), 0), RunAction::Sleep { millis: 500 });
    assert_eq!(run.on_outcome(Ok(s("late")), 1), RunAction::Fail(RunError::OutOfTurn));
    assert_eq!(run.stage(), Stage::Sleeping);
    run.on_wake();
    assert_eq!(run.on_outcome(Ok(s("ready")), 2), RunAction::Finish(s("ready")));
    assert_eq!(run.on_outcome(Ok(s("again")), 3), RunAction::Fail(RunError::OutOfTurn));
    assert_eq!(run.on_wake(), RunAction::Fail(RunError::OutOfTurn));
}

#[test]
fn cancelled_run_is_over() {
    let (mut run, _) = ToolRun::begin(Tool::Hover, hover_query(), policy());
    run.on_outcome(Ok(Json::Null), 0);
    run.cancel();
    assert_eq!(run.stage(), Stage::Ended);
    assert_eq!(run.on_wake(), RunAction::Fail(RunError::OutOfTurn));
    assert_eq!(run.on_outcome(Ok(s("x")), 0), RunAction::Fail(RunError::OutOfTurn));
}

fn call(tool_name: &str) -> ToolCall {
    let args = obj(vec![
        ("file_path", s("src/a.rs")),
        ("line", n(1)),
        ("character", n(2)),
        ("end_line", n(3)),
        ("end_character", n(4)),
        ("query", s("Foo")),
        ("workspace_path", s("/ws")),
    ]);
    parse_tool_call(tool_name, &args).unwrap()
}

#[test]
fn first_query_by_tool() {
    let uri = "file:///ws/src/a.rs";
    let known = Json::Array(vec![]);
    assert_eq!(
        first_query(&call("rust_analyzer_hover"), uri, &known),
        Some(Query::Hover { uri: uri.to_string(), line: 1, character: 2 })
    );
    assert_eq!(
        first_query(&call("rust_analyzer_incoming_calls"), uri, &known),
        Some(Query::PrepareCallHierarchy { uri: uri.to_string(), line: 1, character: 2 })
    );
    assert_eq!(
        first_query(&call("rust_analyzer_outgoing_calls"), uri, &known),
        Some(Query::PrepareCallHierarchy { uri: uri.to_string(), line: 1, character: 2 })
    );
    assert_eq!(
        first_query(&call("rust_analyzer_symbols"), uri, &known),
        Some(Query::DocumentSymbols { uri: uri.to_string() })
    );
    assert_eq!(
        first_query(&call("rust_analyzer_format"), uri, &known),
        Some(Query::Formatting { uri: uri.to_string() })
    );
    assert_eq!(
        first_query(&call("rust_analyzer_workspace_symbol"), "", &known),
        Some(Query::WorkspaceSymbol { query: "Foo".to_string() })
    );
    let span = Span { start_line: 1, start_character: 2, end_line: 3, end_character: 4 };
    assert_eq!(
        first_query(&call("rust_analyzer_inlay_hint"), uri, &known),
        Some(Query::InlayHints { uri: uri.to_string(), span })
    );
    let inside = obj(vec![("range", obj(vec![
        ("start", obj(vec![("line", n(2))])),
        ("end", obj(vec![("line", n(2))])),
    ]))]);
    let outside = obj(vec![("range", obj(vec![
        ("start", obj(vec![("line", n(7))])),
        ("end", obj(vec![("line", n(8))])),
    ]))]);
    assert_eq!(
        first_query(
            &call("rust_analyzer_code_actions"),
            uri,
            &Json::Array(vec![outside, inside.clone()])
        ),
        Some(Query::CodeActions {
            uri: uri.to_string(),
            span,
            diagnostics: Json::Array(vec![inside])
        })
    );
    assert_eq!(first_query(&call("rust_analyzer_get_workspace"), uri, &known), None);
    assert_eq!(first_query(&call("rust_analyzer_set_workspace"), uri, &known), None);
    assert_eq!(first_query(&call("rust_analyzer_diagnostics"), uri, &known), None);
    assert_eq!(first_query(&call("rust_analyzer_workspace_diagnostics"), uri, &known), None);
}

#[test]
fn run_stops_when_the_session_is_gone() {
    let (mut run, _) = ToolRun::begin(Tool::Hover, hover_query(), policy());
    assert_eq!(run.on_outcome(Ok(Json::Null), 0), RunAction::Sleep { millis: 500 });
    run.on_wake();
    assert_eq!(
        run.on_outcome(Err(RequestError::SessionClosed), 500),
        RunAction::Fail(RunError::Retry(RetryError::Aborted(RequestError::SessionClosed)))
    );
    assert_eq!(run.stage(), Stage::Ended);
    let prepare = Query::PrepareCallHierarchy { uri: "u".to_string(), line: 0, character: 0 };
    let (mut calls, _) = ToolRun::begin(Tool::IncomingCalls, prepare, policy());
    assert_eq!(
        calls.on_outcome(Err(RequestError::DocumentNotOpen), 0),
        RunAction::Fail(RunError::Retry(RetryError::Aborted(RequestError::DocumentNotOpen)))
    );
}
