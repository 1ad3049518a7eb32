use rust_analyzer_server::client::{
    diagnostics_from_pull, DiagnosticsLookup, Outgoing, Reaction, RustAnalyzerClient, SessionState,
};
use rust_analyzer_server::config::RETRY_INTERVAL_MILLIS;
use rust_analyzer_server::error::RequestError;
use rust_analyzer_server::json::{Json, Number};
use rust_analyzer_server::lsp::{Query, Span};
use rust_analyzer_server::progress::ProgressEntry;
use rust_analyzer_server::retry::{ReadinessRetry, RetryPolicy, RetryStep};
use rust_analyzer_server::router::PendingRequest;

fn s(t: &str) -> Json {
    Json::String(t.to_string())
}

fn n(v: u64) -> Json {
    Json::Number(Number::PosInt(v))
}

fn obj(members: Vec<(&str, Json)>) -> Json {
    Json::Object(members.into_iter().map(|(k, v)| (k.to_string(), v)).collect())
}

fn response(id: u64, result: Json) -> Json {
    obj(vec![("jsonrpc", s("2.0")), ("id", n(id)), ("result", result)])
}

fn error_response(id: u64, code: i64, message: &str) -> Json {
    obj(vec![
        ("jsonrpc", s("2.0")),
        ("id", n(id)),
        ("error", obj(vec![("code", Json::Number(Number::NegInt(code))), ("message", s(message))])),
    ])
}

fn notification(method: &str, params: Json) -> Json {
    obj(vec![("jsonrpc", s("2.0")), ("method", s(method)), ("params", params)])
}

fn progress(token: &str, value: Json) -> Json {
    notification("$/progress", obj(vec![("token", s(token)), ("value", value)]))
}

fn publish(uri: &str, count: usize) -> Json {
    let diagnostics = (0..count).map(|i| obj(vec![("message", s(&format!("d{}", i)))])).collect();
    notification(
        "textDocument/publishDiagnostics",
        obj(vec![("uri", s(uri)), ("diagnostics", Json::Array(diagnostics))]),
    )
}

fn ready_client() -> RustAnalyzerClient {
    let mut client = RustAnalyzerClient::new("/ws".to_string());
    assert!(client.start(0).is_some());
    let reaction = client.receive(&response(1, obj(vec![("capabilities", obj(vec![]))])));
    assert!(matches!(reaction, Reaction::Initialized { .. }));
    assert_eq!(client.state(), SessionState::Ready);
    client
}

fn position_params(uri: &str, line: u64, character: u64) -> Json {
    obj(vec![
        ("textDocument", obj(vec![("uri", s(uri))])),
        ("position", obj(vec![("line", n(line)), ("character", n(character))])),
    ])
}

fn request(id: u64, method: &str, params: Json) -> Json {
    obj(vec![("jsonrpc", s("2.0")), ("id", n(id)), ("method", s(method)), ("params", params)])
}

#[test]
fn new_session_is_unattached_and_empty() {
    let client = RustAnalyzerClient::new("/ws".to_string());
    assert_eq!(client.state(), SessionState::Unattached);
    assert_eq!(client.workspace_root(), "/ws");
    assert!(!client.is_indexing());
    assert!(client.active_progress().is_empty());
    assert!(client.open_documents().is_empty());
    assert_eq!(client.published_diagnostics("file:///ws/a.rs"), None);
    assert!(!client.is_pending(1));
}

#[test]
fn start_sends_initialize_with_workspace_root() {
    let mut client = RustAnalyzerClient::new("/ws".to_string());
    let handshake = client.start(5).expect("handshake");
    assert_eq!(
        handshake,
        request(
            1,
            "initialize",
            obj(vec![
                ("processId", Json::Null),
                ("rootUri", s("file:///ws")),
                (
                    "capabilities",
                    obj(vec![("window", obj(vec![("workDoneProgress", Json::Bool(true))]))])
                ),
            ])
        )
    );
    assert_eq!(client.state(), SessionState::Initializing);
    assert!(client.is_pending(1));
    assert_eq!(client.start(6), None);
    assert_eq!(client.state(), SessionState::Initializing);
}

#[test]
fn handshake_response_makes_session_ready() {
    let mut client = RustAnalyzerClient::new("/ws".to_string());
    client.start(0);
    let reaction = client.receive(&response(1, obj(vec![])));
    assert_eq!(
        reaction,
        Reaction::Initialized { notify: notification("initialized", obj(vec![])) }
    );
    assert_eq!(client.state(), SessionState::Ready);
    assert!(!client.is_pending(1));
    assert_eq!(client.capabilities(), &obj(vec![]));
}

#[test]
fn handshake_error_ends_session() {
    let mut client = RustAnalyzerClient::new("/ws".to_string());
    client.start(0);
    let reaction = client.receive(&error_response(1, -32603, "boom"));
    assert_eq!(
        reaction,
        Reaction::InitializeFailed {
            error: RequestError::Backend { code: -32603, message: "boom".to_string() },
            failed: vec![],
        }
    );
    assert_eq!(client.state(), SessionState::Terminated);
}

#[test]
fn requests_are_refused_before_ready() {
    let mut client = RustAnalyzerClient::new("/ws".to_string());
    assert_eq!(
        client.send_request("workspace/symbol", Json::Null, 0),
        Err(RequestError::NotReady)
    );
    client.start(0);
    assert_eq!(client.workspace_symbol("x", 0), Err(RequestError::NotReady));
    assert_eq!(client.open_document("file:///ws/a.rs", "", 0), Err(RequestError::NotReady));
    client.teardown();
    assert_eq!(client.workspace_symbol("x", 0), Err(RequestError::SessionClosed));
    assert_eq!(client.open_document("file:///ws/a.rs", "", 0), Err(RequestError::SessionClosed));
}

#[test]
fn position_query_needs_open_document() {
    let mut client = ready_client();
    assert_eq!(client.hover("file:///ws/a.rs", 1, 2, 10), Err(RequestError::DocumentNotOpen));
    assert!(!client.is_pending(2));
    let announce = client.open_document("file:///ws/a.rs", "fn main(){}", 10).unwrap();
    assert_eq!(
        announce,
        Some(notification(
            "textDocument/didOpen",
            obj(vec![(
                "textDocument",
                obj(vec![
                    ("uri", s("file:///ws/a.rs")),
                    ("languageId", s("rust")),
                    ("version", n(1)),
                    ("text", s("fn main(){}")),
                ])
            )])
        ))
    );
    assert_eq!(client.open_document("file:///ws/a.rs", "changed", 11), Ok(None));
    assert_eq!(client.open_documents(), vec!["file:///ws/a.rs".to_string()]);
    let out = client.hover("file:///ws/a.rs", 1, 2, 12).unwrap();
    assert_eq!(
        out,
        Outgoing {
            id: 2,
            message: request(2, "textDocument/hover", position_params("file:///ws/a.rs", 1, 2)),
        }
    );
    assert!(client.is_pending(2));
}

#[test]
fn ids_strictly_increase_and_are_not_reused() {
    let mut client = ready_client();
    let mut last = 1;
    for i in 0..50u64 {
        let out = client.workspace_symbol("q", i).unwrap();
        assert!(out.id > last);
        last = out.id;
        if i % 3 == 0 {
            assert_eq!(client.timeout(out.id).len(), 1);
        }
        if i % 5 == 0 {
            let _ = client.receive(&response(out.id, Json::Null));
        }
    }
    assert_eq!(last, 51);
}

#[test]
fn responses_in_reverse_order_reach_their_own_requests() {
    let mut client = ready_client();
    let mut issued = Vec::new();
    for i in 0..8u64 {
        let out = client.send_request(&format!("m{}", i), n(i), i).unwrap();
        issued.push((out.id, format!("m{}", i), i));
    }
    for (id, method, at) in issued.iter().rev() {
        let reaction = client.receive(&response(*id, s(&format!("answer to {}", method))));
        assert_eq!(
            reaction,
            Reaction::Completed {
                request: PendingRequest { id: *id, method: method.clone(), issued_at: *at },
                outcome: Ok(s(&format!("answer to {}", method))),
            }
        );
        assert!(!client.is_pending(*id));
    }
}

#[test]
fn late_and_duplicate_responses_are_dropped() {
    let mut client = ready_client();
    let out = client.workspace_symbol("q", 0).unwrap();
    assert_eq!(
        client.timeout(out.id),
        vec![PendingRequest { id: out.id, method: "workspace/symbol".to_string(), issued_at: 0 }]
    );
    assert_eq!(client.timeout(out.id), vec![]);
    assert_eq!(client.receive(&response(out.id, n(1))), Reaction::Dropped);
    let next = client.workspace_symbol("q", 1).unwrap();
    assert_eq!(next.id, out.id + 1);
    assert!(matches!(client.receive(&response(next.id, n(1))), Reaction::Completed { .. }));
    assert_eq!(client.receive(&response(next.id, n(1))), Reaction::Dropped);
    assert_eq!(client.receive(&response(999, n(1))), Reaction::Dropped);
}

#[test]
fn backend_error_is_passed_on_with_code_and_message() {
    let mut client = ready_client();
    let out = client.workspace_symbol("q", 0).unwrap();
    assert_eq!(
        client.receive(&error_response(out.id, -32601, "method not found")),
        Reaction::Completed {
            request: PendingRequest {
                id: out.id,
                method: "workspace/symbol".to_string(),
                issued_at: 0
            },
            outcome: Err(RequestError::Backend {
                code: -32601,
                message: "method not found".to_string()
            }),
        }
    );
    assert_eq!(client.state(), SessionState::Ready);
}

#[test]
fn server_request_gets_default_reply() {
    let mut client = ready_client();
    let msg = obj(vec![
        ("jsonrpc", s("2.0")),
        ("id", s("srv-1")),
        ("method", s("window/workDoneProgress/create")),
        ("params", obj(vec![("token", s("t"))])),
    ]);
    assert_eq!(
        client.receive(&msg),
        Reaction::Reply {
            message: obj(vec![("jsonrpc", s("2.0")), ("id", s("srv-1")), ("result", Json::Null)])
        }
    );
}

#[test]
fn malformed_messages_are_skipped() {
    let mut client = ready_client();
    assert_eq!(client.receive(&Json::Null), Reaction::Skipped);
    assert_eq!(client.receive(&obj(vec![("jsonrpc", s("2.0"))])), Reaction::Skipped);
    assert_eq!(client.receive(&obj(vec![("method", n(3))])), Reaction::Skipped);
    assert_eq!(client.receive(&obj(vec![("id", s("x")), ("result", n(1))])), Reaction::Skipped);
    assert_eq!(client.state(), SessionState::Ready);
    assert!(client.workspace_symbol("q", 0).is_ok());
}

#[test]
fn progress_notifications_drive_indexing() {
    let mut client = ready_client();
    assert!(!client.is_indexing());
    let begin = progress("idx", obj(vec![("kind", s("begin")), ("title", s("Indexing"))]));
    assert_eq!(client.receive(&begin), Reaction::Applied);
    assert!(client.is_indexing());
    let report = progress(
        "idx",
        obj(vec![("kind", s("report")), ("message", s("3/10")), ("percentage", n(50))]),
    );
    assert_eq!(client.receive(&report), Reaction::Applied);
    assert!(client.is_indexing());
    assert_eq!(
        client.active_progress(),
        vec![ProgressEntry {
            token: "idx".to_string(),
            title: "Indexing".to_string(),
            message: Some("3/10".to_string()),
            percentage: Some(50),
        }]
    );
    assert_eq!(client.receive(&progress("idx", obj(vec![("kind", s("end"))]))), Reaction::Applied);
    assert!(!client.is_indexing());
    assert_eq!(client.receive(&progress("idx", obj(vec![("kind", s("end"))]))), Reaction::Applied);
    assert!(!client.is_indexing());
}

#[test]
fn publish_replaces_cached_diagnostics() {
    let mut client = ready_client();
    client.receive(&publish("a.rs", 3));
    assert_eq!(client.published_diagnostics("a.rs").map(|d| d.len()), Some(3));
    client.receive(&publish("b.rs", 2));
    client.receive(&publish("a.rs", 1));
    assert_eq!(
        client.published_diagnostics("a.rs"),
        Some(vec![obj(vec![("message", s("d0"))])])
    );
    assert_eq!(client.published_diagnostics("b.rs").map(|d| d.len()), Some(2));
    client.receive(&publish("a.rs", 0));
    assert_eq!(client.published_diagnostics("a.rs"), Some(vec![]));
}

#[test]
fn diagnostics_lookup_prefers_cache_then_pulls() {
    let mut client = ready_client();
    client.open_document("a.rs", "", 0).unwrap();
    match client.diagnostics("a.rs", 1) {
        DiagnosticsLookup::Pull(out) => {
            assert_eq!(
                out.message,
                request(
                    out.id,
                    "textDocument/diagnostic",
                    obj(vec![("textDocument", obj(vec![("uri", s("a.rs"))]))])
                )
            );
            assert!(client.is_pending(out.id));
        }
        other => panic!("unexpected lookup {:?}", other),
    }
    client.receive(&publish("a.rs", 2));
    assert_eq!(
        client.diagnostics("a.rs", 2),
        DiagnosticsLookup::Known(Json::Array(vec![
            obj(vec![("message", s("d0"))]),
            obj(vec![("message", s("d1"))]),
        ]))
    );
    match client.diagnostics("unopened.rs", 3) {
        DiagnosticsLookup::Pull(out) => {
            assert_eq!(
                out.message,
                request(
                    out.id,
                    "textDocument/diagnostic",
                    obj(vec![("textDocument", obj(vec![("uri", s("unopened.rs"))]))])
                )
            );
            assert!(client.is_pending(out.id));
        }
        other => panic!("unexpected lookup {:?}", other),
    }
    assert!(!client.is_open("unopened.rs"));
    client.teardown();
    assert_eq!(client.diagnostics("a.rs", 4), DiagnosticsLookup::Known(Json::Array(vec![])));
    let mut idle = RustAnalyzerClient::new("/ws".to_string());
    assert_eq!(idle.diagnostics("a.rs", 0), DiagnosticsLookup::Known(Json::Array(vec![])));
}

#[test]
fn only_position_and_range_queries_need_the_document_open() {
    let mut client = ready_client();
    let span = Span { start_line: 0, start_character: 0, end_line: 1, end_character: 0 };
    assert_eq!(client.definition("u", 0, 0, 0), Err(RequestError::DocumentNotOpen));
    assert_eq!(client.references("u", 0, 0, 0), Err(RequestError::DocumentNotOpen));
    assert_eq!(client.completion("u", 0, 0, 0), Err(RequestError::DocumentNotOpen));
    assert_eq!(client.implementation("u", 0, 0, 0), Err(RequestError::DocumentNotOpen));
    assert_eq!(client.parent_module("u", 0, 0, 0), Err(RequestError::DocumentNotOpen));
    assert_eq!(client.prepare_call_hierarchy("u", 0, 0, 0), Err(RequestError::DocumentNotOpen));
    assert_eq!(client.inlay_hint("u", span, 0), Err(RequestError::DocumentNotOpen));
    assert_eq!(
        client.code_actions("u", span, &Json::Array(vec![]), 0),
        Err(RequestError::DocumentNotOpen)
    );
    assert!(client.document_symbols("u", 0).is_ok());
    assert!(client.formatting("u", 0).is_ok());
    assert!(client.request(&Query::Diagnostics { uri: "u".to_string() }, 0).is_ok());
}

#[test]
fn announcement_time_is_that_of_the_first_opening() {
    let mut client = ready_client();
    assert_eq!(client.announced_at("a.rs"), None);
    client.open_document("a.rs", "one", 1_234).unwrap();
    assert_eq!(client.announced_at("a.rs"), Some(1_234));
    client.open_document("b.rs", "", 2_000).unwrap();
    client.open_document("a.rs", "two", 3_000).unwrap();
    assert_eq!(client.announced_at("a.rs"), Some(1_234));
    assert_eq!(client.announced_at("b.rs"), Some(2_000));
    assert_eq!(client.announced_at("c.rs"), None);
    client.teardown();
    assert_eq!(client.announced_at("a.rs"), None);
}

#[test]
fn pulled_diagnostics_fall_back_to_empty() {
    let items = Json::Array(vec![n(1), n(2)]);
    assert_eq!(diagnostics_from_pull(&Ok(obj(vec![("items", items.clone())]))), items);
    assert_eq!(diagnostics_from_pull(&Ok(obj(vec![("kind", s("full"))]))), Json::Array(vec![]));
    assert_eq!(diagnostics_from_pull(&Ok(Json::Null)), Json::Array(vec![]));
    assert_eq!(diagnostics_from_pull(&Err(RequestError::Timeout)), Json::Array(vec![]));
    assert_eq!(
        diagnostics_from_pull(&Err(RequestError::Backend {
            code: -32601,
            message: "unsupported".to_string()
        })),
        Json::Array(vec![])
    );
}

#[test]
fn teardown_fails_pending_and_clears_caches() {
    let mut client = ready_client();
    client.open_document("a.rs", "", 0).unwrap();
    client.receive(&publish("a.rs", 3));
    client.receive(&progress("idx", obj(vec![("kind", s("begin")), ("title", s("T"))])));
    let a = client.workspace_symbol("x", 1).unwrap();
    let b = client.hover("a.rs", 0, 0, 2).unwrap();
    let mut failed = client.teardown();
    failed.sort_by_key(|r| r.id);
    assert_eq!(
        failed,
        vec![
            PendingRequest { id: a.id, method: "workspace/symbol".to_string(), issued_at: 1 },
            PendingRequest { id: b.id, method: "textDocument/hover".to_string(), issued_at: 2 },
        ]
    );
    assert_eq!(client.state(), SessionState::Terminated);
    assert!(!client.is_pending(a.id));
    assert!(!client.is_pending(b.id));
    assert!(!client.is_indexing());
    assert!(client.active_progress().is_empty());
    assert_eq!(client.published_diagnostics("a.rs"), None);
    assert!(client.open_documents().is_empty());
    assert_eq!(client.receive(&response(a.id, n(1))), Reaction::Dropped);
    assert!(client.teardown().is_empty());

    let fresh = RustAnalyzerClient::new("/other".to_string());
    assert!(!fresh.is_indexing());
    assert_eq!(fresh.published_diagnostics("a.rs"), None);
}

#[test]
fn transport_failure_ends_session_from_any_state() {
    let mut unattached = RustAnalyzerClient::new("/ws".to_string());
    assert!(unattached.transport_failed().is_empty());
    assert_eq!(unattached.state(), SessionState::Terminated);

    let mut initializing = RustAnalyzerClient::new("/ws".to_string());
    initializing.start(0);
    let failed = initializing.transport_failed();
    assert_eq!(
        failed,
        vec![PendingRequest { id: 1, method: "initialize".to_string(), issued_at: 0 }]
    );
    assert_eq!(initializing.state(), SessionState::Terminated);

    let mut ready = ready_client();
    let out = ready.workspace_symbol("x", 3).unwrap();
    let failed = ready.transport_failed();
    assert_eq!(failed.len(), 1);
    assert_eq!(failed[0].id, out.id);
    assert_eq!(ready.state(), SessionState::Terminated);
    assert_eq!(ready.start(0), None);
}

#[test]
fn graceful_shutdown_path() {
    let mut client = ready_client();
    let waiting = client.workspace_symbol("x", 1).unwrap();
    let farewell = client.shutdown(2).expect("shutdown request");
    assert_eq!(farewell.message, request(farewell.id, "shutdown", Json::Null));
    assert_eq!(client.state(), SessionState::ShuttingDown);
    assert_eq!(client.shutdown(3), None);
    assert_eq!(client.workspace_symbol("y", 3), Err(RequestError::NotReady));
    let reaction = client.receive(&response(farewell.id, Json::Null));
    assert_eq!(
        reaction,
        Reaction::ShutDown {
            notify: notification("exit", Json::Null),
            failed: vec![PendingRequest {
                id: waiting.id,
                method: "workspace/symbol".to_string(),
                issued_at: 1
            }],
        }
    );
    assert_eq!(client.state(), SessionState::Terminated);
}

#[test]
fn shutdown_is_refused_unless_ready() {
    let mut client = RustAnalyzerClient::new("/ws".to_string());
    assert_eq!(client.shutdown(0), None);
    assert_eq!(client.state(), SessionState::Unattached);
    client.start(0);
    assert_eq!(client.shutdown(0), None);
    assert_eq!(client.state(), SessionState::Initializing);
}

#[test]
fn code_actions_carry_diagnostics_in_range() {
    let mut client = ready_client();
    client.open_document("a.rs", "", 0).unwrap();
    let diag = |start: u64, end: u64| {
        obj(vec![(
            "range",
            obj(vec![("start", obj(vec![("line", n(start))])), ("end", obj(vec![("line", n(end))]))]),
        )])
    };
    let all = Json::Array(vec![diag(0, 1), diag(5, 6), diag(9, 12), diag(20, 21)]);
    let span = Span { start_line: 6, start_character: 1, end_line: 9, end_character: 4 };
    let out = client.code_actions("a.rs", span, &all, 1).unwrap();
    assert_eq!(
        out.message,
        request(
            out.id,
            "textDocument/codeAction",
            obj(vec![
                ("textDocument", obj(vec![("uri", s("a.rs"))])),
                (
                    "range",
                    obj(vec![
                        ("start", obj(vec![("line", n(6)), ("character", n(1))])),
                        ("end", obj(vec![("line", n(9)), ("character", n(4))])),
                    ])
                ),
                (
                    "context",
                    obj(vec![
                        ("diagnostics", Json::Array(vec![diag(5, 6), diag(9, 12)])),
                        (
                            "only",
                            Json::Array(vec![
                                s("quickfix"),
                                s("refactor"),
                                s("refactor.extract"),
                                s("refactor.inline"),
                                s("refactor.rewrite"),
                                s("source"),
                            ])
                        ),
                    ])
                ),
            ])
        )
    );
}

#[test]
fn each_query_calls_its_method() {
    let mut client = ready_client();
    client.open_document("u", "", 0).unwrap();
    let method_of = |out: Outgoing| match out.message.get("method") {
        Some(Json::String(m)) => m.clone(),
        other => panic!("no method: {:?}", other),
    };
    assert_eq!(method_of(client.hover("u", 0, 0, 0).unwrap()), "textDocument/hover");
    assert_eq!(method_of(client.definition("u", 0, 0, 0).unwrap()), "textDocument/definition");
    assert_eq!(method_of(client.references("u", 0, 0, 0).unwrap()), "textDocument/references");
    assert_eq!(method_of(client.completion("u", 0, 0, 0).unwrap()), "textDocument/completion");
    assert_eq!(
        method_of(client.document_symbols("u", 0).unwrap()),
        "textDocument/documentSymbol"
    );
    assert_eq!(method_of(client.formatting("u", 0).unwrap()), "textDocument/formatting");
    assert_eq!(
        method_of(client.implementation("u", 0, 0, 0).unwrap()),
        "textDocument/implementation"
    );
    assert_eq!(method_of(client.parent_module("u", 0, 0, 0).unwrap()), "experimental/parentModule");
    assert_eq!(
        method_of(client.prepare_call_hierarchy("u", 0, 0, 0).unwrap()),
        "textDocument/prepareCallHierarchy"
    );
    assert_eq!(
        method_of(client.incoming_calls(Json::Null, 0).unwrap()),
        "callHierarchy/incomingCalls"
    );
    assert_eq!(
        method_of(client.outgoing_calls(Json::Null, 0).unwrap()),
        "callHierarchy/outgoingCalls"
    );
    assert_eq!(method_of(client.workspace_symbol("q", 0).unwrap()), "workspace/symbol");
    assert_eq!(method_of(client.workspace_diagnostics(0).unwrap()), "workspace/diagnostic");
    let span = Span { start_line: 0, start_character: 0, end_line: 1, end_character: 0 };
    assert_eq!(method_of(client.inlay_hint("u", span, 0).unwrap()), "textDocument/inlayHint");
    assert_eq!(
        method_of(client.request(&Query::Diagnostics { uri: "u".to_string() }, 0).unwrap()),
        "textDocument/diagnostic"
    );
}

#[test]
fn hover_retry_scenario_with_session() {
    let mut client = ready_client();
    assert!(client.open_document("a.rs", "fn main(){}", 0).unwrap().is_some());
    let populated = obj(vec![("contents", s("fn main()"))]);
    let answers = vec![Json::Null, Json::Array(vec![]), populated.clone()];
    let mut retry = ReadinessRetry::new(RetryPolicy {
        interval_millis: RETRY_INTERVAL_MILLIS,
        budget_secs: 15,
    });
    let mut clock = 0u64;
    let mut result = None;
    for answer in answers {
        let out = client.hover("a.rs", 0, 3, clock).unwrap();
        let outcome = match client.receive(&response(out.id, answer)) {
            Reaction::Completed { request, outcome } => {
                assert_eq!(request.id, out.id);
                outcome
            }
            other => panic!("unexpected reaction {:?}", other),
        };
        match retry.on_outcome(outcome, clock) {
            RetryStep::Return(value) => {
                result = Some(value);
                break;
            }
            RetryStep::Sleep { millis } => clock += millis,
            RetryStep::Fail(e) => panic!("unexpected failure {:?}", e),
        }
    }
    assert_eq!(result, Some(populated));
    assert!(clock >= 1000 && clock <= 1500);
}

#[test]
fn handshake_timeout_ends_session() {
    let mut client = RustAnalyzerClient::new("/ws".to_string());
    client.start(0);
    assert_eq!(
        client.timeout(1),
        vec![PendingRequest { id: 1, method: "initialize".to_string(), issued_at: 0 }]
    );
    assert_eq!(client.state(), SessionState::Terminated);
}

#[test]
fn expire_times_out_overdue_requests_only() {
    let mut client = ready_client();
    let a = client.workspace_symbol("a", 1_000).unwrap();
    let b = client.workspace_symbol("b", 20_000).unwrap();
    let c = client.workspace_symbol("c", 1_001).unwrap();
    assert!(client.expire(30_999, 30_000).is_empty());
    let mut failed = client.expire(31_000, 30_000);
    failed.sort_by_key(|r| r.id);
    assert_eq!(
        failed,
        vec![PendingRequest { id: a.id, method: "workspace/symbol".to_string(), issued_at: 1_000 }]
    );
    assert!(!client.is_pending(a.id));
    assert!(client.is_pending(b.id));
    assert!(client.is_pending(c.id));
    assert_eq!(client.receive(&response(a.id, n(1))), Reaction::Dropped);
    assert_eq!(client.state(), SessionState::Ready);
    let failed = client.expire(60_000, 30_000);
    assert_eq!(failed.len(), 2);
    assert!(client.expire(u64::MAX, 0).is_empty());
}

#[test]
fn overdue_shutdown_ends_session() {
    let mut client = ready_client();
    let waiting = client.workspace_symbol("a", 9_999).unwrap();
    let farewell = client.shutdown(10_000).unwrap();
    assert_eq!(client.expire(14_999, 5_000).len(), 1);
    assert!(!client.is_pending(waiting.id));
    assert_eq!(client.state(), SessionState::ShuttingDown);
    let mut client = ready_client();
    let waiting = client.workspace_symbol("a", 12_000).unwrap();
    let farewell = client.shutdown(10_000).unwrap();
    assert!(client.expire(14_999, 5_000).is_empty());
    let mut failed = client.expire(15_000, 5_000);
    failed.sort_by_key(|r| r.id);
    assert_eq!(failed.len(), 2);
    assert_eq!(failed[0].id, waiting.id);
    assert_eq!(failed[1].id, farewell.id);
    assert_eq!(client.state(), SessionState::Terminated);
}
