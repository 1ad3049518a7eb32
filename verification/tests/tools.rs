use rust_analyzer_server::error::{LastObserved, RequestError};
use rust_analyzer_server::json::{Json, Number};
use rust_analyzer_server::lsp::{Query, Span};
use rust_analyzer_server::retry::Poll;
use rust_analyzer_server::simplify::Shape;
use rust_analyzer_server::tools::{
    find_tool, first_item, keep_polling_diagnostics, parse_tool_call, should_poll_diagnostics,
    Arity, Param, Tool, ToolCall, ToolError, ToolParams,
};

fn s(t: &str) -> Json {
    Json::String(t.to_string())
}

fn n(v: u64) -> Json {
    Json::Number(Number::PosInt(v))
}

fn obj(members: Vec<(&str, Json)>) -> Json {
    Json::Object(members.into_iter().map(|(k, v)| (k.to_string(), v)).collect())
}

fn none() -> Span {
    Span { start_line: 0, start_character: 0, end_line: 0, end_character: 0 }
}

#[test]
fn extract_file_path_reads_a_string() {
    assert_eq!(
        ToolParams::extract_file_path(&obj(vec![("file_path", s("src/a.rs"))])),
        Ok("src/a.rs".to_string())
    );
    let missing = ToolParams::extract_file_path(&obj(vec![])).unwrap_err();
    assert_eq!(missing, ToolError::Missing(Param::FilePath));
    assert_eq!(missing.message(), "Missing file_path");
    assert_eq!(
        ToolParams::extract_file_path(&obj(vec![("file_path", n(1))])),
        Err(ToolError::Missing(Param::FilePath))
    );
    assert_eq!(ToolParams::extract_file_path(&Json::Null), Err(ToolError::Missing(Param::FilePath)));
}

#[test]
fn extract_position_reports_first_missing() {
    assert_eq!(
        ToolParams::extract_position(&obj(vec![("line", n(3)), ("character", n(9))])),
        Ok((3, 9))
    );
    assert_eq!(
        ToolParams::extract_position(&obj(vec![("character", n(9))])),
        Err(ToolError::Missing(Param::Line))
    );
    assert_eq!(
        ToolParams::extract_position(&obj(vec![("line", n(3))])),
        Err(ToolError::Missing(Param::Character))
    );
    assert_eq!(
        ToolParams::extract_position(&obj(vec![
            ("line", Json::Number(Number::NegInt(-1))),
            ("character", n(9))
        ])),
        Err(ToolError::Missing(Param::Line))
    );
    assert_eq!(
        ToolParams::extract_position(&obj(vec![
            ("line", n((7u64 << 32) + 5)),
            ("character", n(u32::MAX as u64))
        ])),
        Ok((5, u32::MAX))
    );
}

#[test]
fn extract_range_reads_four_numbers() {
    let full = obj(vec![
        ("line", n(1)),
        ("character", n(2)),
        ("end_line", n(3)),
        ("end_character", n(4)),
    ]);
    assert_eq!(ToolParams::extract_range(&full), Ok((1, 2, 3, 4)));
    let no_end_line = obj(vec![("line", n(1)), ("character", n(2)), ("end_character", n(4))]);
    assert_eq!(ToolParams::extract_range(&no_end_line), Err(ToolError::Missing(Param::EndLine)));
    let no_end_char = obj(vec![("line", n(1)), ("character", n(2)), ("end_line", n(3))]);
    assert_eq!(
        ToolParams::extract_range(&no_end_char),
        Err(ToolError::Missing(Param::EndCharacter))
    );
    assert_eq!(ToolParams::extract_range(&obj(vec![])), Err(ToolError::Missing(Param::Line)));
}

#[test]
fn missing_messages() {
    assert_eq!(ToolError::Missing(Param::Line).message(), "Missing line");
    assert_eq!(ToolError::Missing(Param::Character).message(), "Missing character");
    assert_eq!(ToolError::Missing(Param::EndLine).message(), "Missing end_line");
    assert_eq!(ToolError::Missing(Param::EndCharacter).message(), "Missing end_character");
    assert_eq!(ToolError::Missing(Param::Query).message(), "Missing query parameter");
    assert_eq!(ToolError::Missing(Param::WorkspacePath).message(), "Missing workspace_path");
    assert_eq!(ToolError::UnknownTool("nope".to_string()).message(), "Unknown tool: nope");
}

#[test]
fn every_tool_name_is_known() {
    let names = [
        ("rust_analyzer_hover", Tool::Hover),
        ("rust_analyzer_definition", Tool::Definition),
        ("rust_analyzer_references", Tool::References),
        ("rust_analyzer_implementation", Tool::Implementation),
        ("rust_analyzer_parent_module", Tool::ParentModule),
        ("rust_analyzer_incoming_calls", Tool::IncomingCalls),
        ("rust_analyzer_outgoing_calls", Tool::OutgoingCalls),
        ("rust_analyzer_inlay_hint", Tool::InlayHint),
        ("rust_analyzer_completion", Tool::Completion),
        ("rust_analyzer_symbols", Tool::Symbols),
        ("rust_analyzer_workspace_symbol", Tool::WorkspaceSymbol),
        ("rust_analyzer_format", Tool::Format),
        ("rust_analyzer_code_actions", Tool::CodeActions),
        ("rust_analyzer_get_workspace", Tool::GetWorkspace),
        ("rust_analyzer_set_workspace", Tool::SetWorkspace),
        ("rust_analyzer_diagnostics", Tool::Diagnostics),
        ("rust_analyzer_workspace_diagnostics", Tool::WorkspaceDiagnostics),
    ];
    for (name, tool) in names {
        assert_eq!(find_tool(name), Some(tool));
    }
    assert_eq!(find_tool("rust_analyzer_"), None);
    assert_eq!(find_tool("hover"), None);
    assert_eq!(find_tool(""), None);
}

#[test]
fn unknown_tool_is_reported_before_arguments() {
    assert_eq!(
        parse_tool_call("rust_analyzer_rename", &obj(vec![])),
        Err(ToolError::UnknownTool("rust_analyzer_rename".to_string()))
    );
}

#[test]
fn position_tools_read_file_then_position() {
    let args = obj(vec![("file_path", s("src/a.rs")), ("line", n(4)), ("character", n(2))]);
    assert_eq!(
        parse_tool_call("rust_analyzer_hover", &args),
        Ok(ToolCall {
            tool: Tool::Hover,
            file_path: "src/a.rs".to_string(),
            span: Span { start_line: 4, start_character: 2, end_line: 0, end_character: 0 },
            text: String::new(),
        })
    );
    assert_eq!(
        parse_tool_call("rust_analyzer_definition", &obj(vec![("line", n(4))])),
        Err(ToolError::Missing(Param::FilePath))
    );
    assert_eq!(
        parse_tool_call("rust_analyzer_references", &obj(vec![("file_path", s("a"))])),
        Err(ToolError::Missing(Param::Line))
    );
}

#[test]
fn range_tools_read_the_end_too() {
    let args = obj(vec![
        ("file_path", s("a.rs")),
        ("line", n(1)),
        ("character", n(2)),
        ("end_line", n(3)),
        ("end_character", n(4)),
    ]);
    let span = Span { start_line: 1, start_character: 2, end_line: 3, end_character: 4 };
    assert_eq!(
        parse_tool_call("rust_analyzer_code_actions", &args),
        Ok(ToolCall {
            tool: Tool::CodeActions,
            file_path: "a.rs".to_string(),
            span,
            text: String::new()
        })
    );
    assert_eq!(
        parse_tool_call("rust_analyzer_inlay_hint", &args).map(|c| c.span),
        Ok(span)
    );
    let short = obj(vec![("file_path", s("a.rs")), ("line", n(1)), ("character", n(2))]);
    assert_eq!(
        parse_tool_call("rust_analyzer_inlay_hint", &short),
        Err(ToolError::Missing(Param::EndLine))
    );
}

#[test]
fn text_and_bare_tools() {
    assert_eq!(
        parse_tool_call("rust_analyzer_workspace_symbol", &obj(vec![("query", s("Foo"))])),
        Ok(ToolCall {
            tool: Tool::WorkspaceSymbol,
            file_path: String::new(),
            span: none(),
            text: "Foo".to_string()
        })
    );
    assert_eq!(
        parse_tool_call("rust_analyzer_workspace_symbol", &obj(vec![])),
        Err(ToolError::Missing(Param::Query))
    );
    assert_eq!(
        parse_tool_call("rust_analyzer_set_workspace", &obj(vec![("workspace_path", s("/w"))])),
        Ok(ToolCall {
            tool: Tool::SetWorkspace,
            file_path: String::new(),
            span: none(),
            text: "/w".to_string()
        })
    );
    assert_eq!(
        parse_tool_call("rust_analyzer_set_workspace", &obj(vec![])),
        Err(ToolError::Missing(Param::WorkspacePath))
    );
    assert_eq!(
        parse_tool_call("rust_analyzer_get_workspace", &Json::Null),
        Ok(ToolCall {
            tool: Tool::GetWorkspace,
            file_path: String::new(),
            span: none(),
            text: String::new()
        })
    );
    assert_eq!(
        parse_tool_call("rust_analyzer_symbols", &obj(vec![("file_path", s("a.rs"))])),
        Ok(ToolCall {
            tool: Tool::Symbols,
            file_path: "a.rs".to_string(),
            span: none(),
            text: String::new()
        })
    );
    assert_eq!(
        parse_tool_call("rust_analyzer_workspace_diagnostics", &obj(vec![])).map(|c| c.tool),
        Ok(Tool::WorkspaceDiagnostics)
    );
}

#[test]
fn tools_that_retry_and_shorten() {
    let retrying = [
        Tool::Hover,
        Tool::Definition,
        Tool::References,
        Tool::Implementation,
        Tool::IncomingCalls,
        Tool::OutgoingCalls,
        Tool::WorkspaceSymbol,
    ];
    let all = [
        Tool::Hover,
        Tool::Definition,
        Tool::References,
        Tool::Implementation,
        Tool::ParentModule,
        Tool::IncomingCalls,
        Tool::OutgoingCalls,
        Tool::InlayHint,
        Tool::Completion,
        Tool::Symbols,
        Tool::WorkspaceSymbol,
        Tool::Format,
        Tool::CodeActions,
        Tool::GetWorkspace,
        Tool::SetWorkspace,
        Tool::Diagnostics,
        Tool::WorkspaceDiagnostics,
    ];
    for tool in all {
        assert_eq!(tool.retries(), retrying.contains(&tool));
    }
    assert_eq!(Tool::Hover.shape(), None);
    assert_eq!(Tool::Definition.shape(), Some(Shape::Definition));
    assert_eq!(Tool::References.shape(), Some(Shape::Reference));
    assert_eq!(Tool::Implementation.shape(), Some(Shape::Implementation));
    assert_eq!(Tool::ParentModule.shape(), Some(Shape::ParentModule));
    assert_eq!(Tool::IncomingCalls.shape(), Some(Shape::IncomingCall));
    assert_eq!(Tool::OutgoingCalls.shape(), Some(Shape::OutgoingCall));
    assert_eq!(Tool::InlayHint.shape(), Some(Shape::InlayHint));
    assert_eq!(Tool::WorkspaceSymbol.shape(), Some(Shape::WorkspaceSymbol));
    assert_eq!(Tool::Completion.shape(), None);
    assert_eq!(Tool::Format.arity(), Arity::File);
    assert_eq!(Tool::SetWorkspace.arity(), Arity::WorkspacePath);
    assert_eq!(Tool::WorkspaceSymbol.arity(), Arity::Query);
    assert_eq!(Tool::GetWorkspace.arity(), Arity::Nothing);
    assert_eq!(Tool::CodeActions.arity(), Arity::FileRange);
    assert_eq!(Tool::Completion.arity(), Arity::FilePosition);
}

#[test]
fn first_item_of_prepared_hierarchy() {
    let item = obj(vec![("name", s("f"))]);
    assert_eq!(first_item(Ok(Json::Array(vec![item.clone(), n(2)]))), Ok(item));
    assert_eq!(first_item(Ok(Json::Array(vec![]))), Err(Poll::NotReady(LastObserved::Empty)));
    assert_eq!(first_item(Ok(Json::Null)), Err(Poll::NotReady(LastObserved::Empty)));
    assert_eq!(first_item(Ok(obj(vec![]))), Err(Poll::NotReady(LastObserved::Empty)));
    assert_eq!(
        first_item(Err(RequestError::Timeout)),
        Err(Poll::NotReady(LastObserved::Failed(RequestError::Timeout)))
    );
    assert_eq!(
        first_item(Err(RequestError::SessionClosed)),
        Err(Poll::Broken(RequestError::SessionClosed))
    );
}

#[test]
fn diagnostics_poll_policy() {
    assert!(should_poll_diagnostics("src/diagnostics_test.rs"));
    assert!(should_poll_diagnostics("simple_error"));
    assert!(should_poll_diagnostics("a/simple_error_2.rs"));
    assert!(!should_poll_diagnostics("src/main.rs"));
    assert!(!should_poll_diagnostics("diagnostics-test.rs"));
    assert!(!should_poll_diagnostics(""));
    assert!(keep_polling_diagnostics(&Json::Array(vec![]), 0));
    assert!(keep_polling_diagnostics(&Json::Null, 7_999));
    assert!(!keep_polling_diagnostics(&Json::Null, 8_000));
    assert!(!keep_polling_diagnostics(&Json::Array(vec![n(1)]), 0));
}

#[test]
fn query_params_by_kind() {
    let span = Span { start_line: 1, start_character: 2, end_line: 3, end_character: 4 };
    let position = |line: u64, character: u64| obj(vec![("line", n(line)), ("character", n(character))]);
    let hints = Query::InlayHints { uri: "u".to_string(), span };
    assert_eq!(hints.method(), "textDocument/inlayHint");
    assert_eq!(hints.document(), Some("u"));
    assert_eq!(
        hints.params(),
        obj(vec![
            ("textDocument", obj(vec![("uri", s("u"))])),
            ("range", obj(vec![("start", position(1, 2)), ("end", position(3, 4))])),
        ])
    );
    let references = Query::References { uri: "u".to_string(), line: 5, character: 6 };
    assert_eq!(
        references.params(),
        obj(vec![
            ("textDocument", obj(vec![("uri", s("u"))])),
            ("position", position(5, 6)),
            ("context", obj(vec![("includeDeclaration", Json::Bool(true))])),
        ])
    );
    let formatting = Query::Formatting { uri: "u".to_string() };
    assert_eq!(
        formatting.params(),
        obj(vec![
            ("textDocument", obj(vec![("uri", s("u"))])),
            ("options", obj(vec![("tabSize", n(4)), ("insertSpaces", Json::Bool(true))])),
        ])
    );
    let workspace = Query::WorkspaceDiagnostics;
    assert_eq!(workspace.document(), None);
    assert_eq!(
        workspace.params(),
        obj(vec![("identifier", s("rust-analyzer")), ("previousResultId", Json::Null)])
    );
    let calls = Query::IncomingCalls { item: n(1) };
    assert_eq!(calls.params(), obj(vec![("item", n(1))]));
    assert_eq!(calls.document(), None);
    let symbol = Query::WorkspaceSymbol { query: "Foo".to_string() };
    assert_eq!(symbol.params(), obj(vec![("query", s("Foo"))]));
}
