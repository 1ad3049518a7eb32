use rust_analyzer_server::client::SessionState;
use rust_analyzer_server::json::{Json, Number};
use rust_analyzer_server::progress::ProgressEntry;
use rust_analyzer_server::protocol::{ApiResponse, ContentItem, SetWorkspaceRequest, ToolResult};
use rust_analyzer_server::router::PendingRequest;
use rust_analyzer_server::server::{
    document_uri, health_report, progress_entry_json, server_state, skipped_message,
    status_report, switched_message, workspace_report, InitTrigger, RustAnalyzerMCPServer,
    ServerError, WorkspaceSwitch,
};

fn s(t: &str) -> Json {
    Json::String(t.to_string())
}

fn n(v: u64) -> Json {
    Json::Number(Number::PosInt(v))
}

fn obj(members: Vec<(&str, Json)>) -> Json {
    Json::Object(members.into_iter().map(|(k, v)| (k.to_string(), v)).collect())
}

#[test]
fn new_server_has_no_session() {
    let server = RustAnalyzerMCPServer::new();
    assert!(server.client.is_none());
    assert_eq!(server.workspace_root, ".");
    assert_eq!(server.init_trigger, InitTrigger::Unset);
    assert!(!server.is_indexing());
    assert!(server.active_progress().is_empty());
    let default = RustAnalyzerMCPServer::default();
    assert!(default.client.is_none());
    assert_eq!(default.workspace_root, ".");
    let with = RustAnalyzerMCPServer::with_workspace("/ws".to_string());
    assert!(with.client.is_none());
    assert_eq!(with.workspace_root, "/ws");
    assert_eq!(with.init_trigger, InitTrigger::Unset);
}

#[test]
fn trigger_info_names_the_trigger() {
    let mut server = RustAnalyzerMCPServer::with_workspace("/ws".to_string());
    assert_eq!(server.trigger_info(), ("none", None));
    server.init_trigger = InitTrigger::InitialStart;
    assert_eq!(server.trigger_info(), ("initial_start", None));
    server.init_trigger = InitTrigger::WorkspaceChange { previous: "/old".to_string() };
    assert_eq!(server.trigger_info(), ("workspace_change", Some("/old".to_string())));
}

#[test]
fn workspace_exists_asks_the_file_system() {
    let here = RustAnalyzerMCPServer::with_workspace("/".to_string());
    assert!(here.workspace_exists());
    let nowhere =
        RustAnalyzerMCPServer::with_workspace("/this/path/does/not/exist/for/sure".to_string());
    assert!(!nowhere.workspace_exists());
}

#[test]
fn ensure_client_started_needs_the_workspace() {
    let mut server = RustAnalyzerMCPServer::with_workspace("/missing".to_string());
    let err = server.ensure_client_started(false, 0).unwrap_err();
    assert_eq!(err, ServerError::WorkspaceMissing("/missing".to_string()));
    assert_eq!(err.message(), "Workspace path does not exist: /missing");
    assert!(server.client.is_none());
    assert_eq!(server.init_trigger, InitTrigger::Unset);
    assert_eq!(server.require_client(), Err(ServerError::NotInitialized));
    assert_eq!(ServerError::NotInitialized.message(), "Client not initialized");
    server.ensure_client_started(true, 0).unwrap();
    assert_eq!(server.require_client(), Ok(()));
}

#[test]
fn ensure_client_started_is_idempotent() {
    let mut server = RustAnalyzerMCPServer::with_workspace("/ws".to_string());
    let handshake = server.ensure_client_started(true, 7).unwrap().expect("handshake");
    assert_eq!(handshake.get("method"), Some(&s("initialize")));
    assert_eq!(handshake.get("id"), Some(&n(1)));
    assert_eq!(handshake.field("params").field("rootUri"), s("file:///ws"));
    assert_eq!(server.init_trigger, InitTrigger::InitialStart);
    assert_eq!(server.client.as_ref().unwrap().state(), SessionState::Initializing);
    assert_eq!(server.ensure_client_started(true, 8), Ok(None));
    assert_eq!(server.ensure_client_started(false, 9), Ok(None));
    assert_eq!(server.client.as_ref().unwrap().state(), SessionState::Initializing);
}

#[test]
fn set_workspace_skips_the_running_workspace() {
    let mut server = RustAnalyzerMCPServer::with_workspace("/ws".to_string());
    assert!(!server.is_attached_to("/ws"));
    match server.set_workspace("/ws".to_string()) {
        WorkspaceSwitch::Switched { previous, failed } => {
            assert!(previous.is_none());
            assert!(failed.is_empty());
        }
        other => panic!("unexpected {:?}", other),
    }
    server.ensure_client_started(true, 0).unwrap();
    assert!(server.is_attached_to("/ws"));
    assert!(!server.is_attached_to("/other"));
    assert!(matches!(server.set_workspace("/ws".to_string()), WorkspaceSwitch::Skipped));
    assert!(server.client.is_some());
    match server.set_workspace("/other".to_string()) {
        WorkspaceSwitch::Switched { previous, failed } => {
            let previous = previous.unwrap();
            assert_eq!(previous.workspace_root(), "/ws");
            assert_eq!(previous.state(), SessionState::Terminated);
            assert!(!previous.is_pending(1));
            assert_eq!(
                failed,
                vec![PendingRequest { id: 1, method: "initialize".to_string(), issued_at: 0 }]
            );
        }
        other => panic!("unexpected {:?}", other),
    }
    assert!(server.client.is_none());
    assert_eq!(server.workspace_root, "/other");
    assert!(!server.is_indexing());
    assert_eq!(skipped_message("/ws"), "Already initialized: /ws (skipped)");
    assert_eq!(switched_message("/other"), "Workspace set to: /other");
}

#[test]
fn switched_workspace_starts_with_empty_caches() {
    let mut server = RustAnalyzerMCPServer::with_workspace("/ws".to_string());
    server.ensure_client_started(true, 0).unwrap();
    {
        let client = server.client.as_mut().unwrap();
        client.receive(&obj(vec![("id", n(1)), ("result", obj(vec![]))]));
        client.receive(&obj(vec![
            ("method", s("$/progress")),
            (
                "params",
                obj(vec![
                    ("token", s("idx")),
                    ("value", obj(vec![("kind", s("begin")), ("title", s("T"))])),
                ]),
            ),
        ]));
    }
    assert!(server.is_indexing());
    assert_eq!(server.active_progress().len(), 1);
    let previous = match server.set_workspace("/next".to_string()) {
        WorkspaceSwitch::Switched { previous, failed } => {
            assert!(failed.is_empty());
            previous
        }
        other => panic!("unexpected {:?}", other),
    };
    let previous = previous.unwrap();
    assert_eq!(previous.state(), SessionState::Terminated);
    assert!(!previous.is_indexing());
    assert!(previous.active_progress().is_empty());
    server.ensure_client_started(true, 1).unwrap();
    assert!(!server.is_indexing());
    assert!(server.active_progress().is_empty());
    assert_eq!(server.client.as_ref().unwrap().workspace_root(), "/next");
}

#[test]
fn server_shutdown_forwards_to_session() {
    let mut server = RustAnalyzerMCPServer::with_workspace("/ws".to_string());
    assert_eq!(server.shutdown(0), None);
    server.ensure_client_started(true, 0).unwrap();
    assert_eq!(server.shutdown(1), None);
    server.client.as_mut().unwrap().receive(&obj(vec![("id", n(1)), ("result", obj(vec![]))]));
    let farewell = server.shutdown(2).expect("shutdown request");
    assert_eq!(farewell.id, 2);
    assert_eq!(farewell.message.get("method"), Some(&s("shutdown")));
    assert_eq!(server.client.as_ref().unwrap().state(), SessionState::ShuttingDown);
}

#[test]
fn state_names() {
    assert_eq!(server_state(false, true, true), "error");
    assert_eq!(server_state(false, false, false), "error");
    assert_eq!(server_state(true, false, true), "stopped");
    assert_eq!(server_state(true, true, true), "indexing");
    assert_eq!(server_state(true, true, false), "ready");
}

#[test]
fn status_report_lists_every_member() {
    let tasks = vec![
        ProgressEntry {
            token: "t1".to_string(),
            title: "Indexing".to_string(),
            message: Some("1/2".to_string()),
            percentage: Some(50),
        },
        ProgressEntry {
            token: "t2".to_string(),
            title: "Building".to_string(),
            message: None,
            percentage: None,
        },
    ];
    assert_eq!(
        status_report("/ws", true, true, true, "workspace_change", Some("/old".to_string()), &tasks),
        obj(vec![
            ("workspace", s("/ws")),
            ("workspace_valid", Json::Bool(true)),
            ("state", s("indexing")),
            ("initialized", Json::Bool(true)),
            ("indexing", Json::Bool(true)),
            ("trigger", s("workspace_change")),
            (
                "progress",
                Json::Array(vec![
                    obj(vec![
                        ("token", s("t1")),
                        ("title", s("Indexing")),
                        ("message", s("1/2")),
                        ("percentage", n(50)),
                    ]),
                    obj(vec![("token", s("t2")), ("title", s("Building"))]),
                ])
            ),
            ("previous_workspace", s("/old")),
        ])
    );
    assert_eq!(
        status_report("/ws", false, false, false, "none", None, &vec![]),
        obj(vec![
            ("workspace", s("/ws")),
            ("workspace_valid", Json::Bool(false)),
            ("state", s("error")),
            ("initialized", Json::Bool(false)),
            ("indexing", Json::Bool(false)),
            ("trigger", s("none")),
            ("progress", Json::Array(vec![])),
        ])
    );
}

#[test]
fn progress_entry_json_skips_missing_members() {
    let entry = ProgressEntry {
        token: "t".to_string(),
        title: "T".to_string(),
        message: None,
        percentage: Some(3),
    };
    assert_eq!(
        progress_entry_json(&entry),
        obj(vec![("token", s("t")), ("title", s("T")), ("percentage", n(3))])
    );
}

#[test]
fn health_and_workspace_reports() {
    assert_eq!(
        health_report("/ws", true),
        obj(vec![("status", s("ok")), ("workspace", s("/ws")), ("initialized", Json::Bool(true))])
    );
    assert_eq!(
        workspace_report("/ws", false),
        obj(vec![("workspace", s("/ws")), ("initialized", Json::Bool(false))])
    );
    assert_eq!(document_uri("/ws/src/a.rs"), "file:///ws/src/a.rs");
}

#[test]
fn tool_result_holds_one_text_item() {
    let result = ToolResult::text("hello".to_string());
    assert_eq!(
        result,
        ToolResult {
            content: vec![ContentItem { content_type: "text".to_string(), text: "hello".to_string() }]
        }
    );
    assert_eq!(result.first_text(), "hello");
    assert_eq!(ToolResult { content: vec![] }.first_text(), "");
    let request = SetWorkspaceRequest { workspace_path: "/ws".to_string() };
    assert_eq!(request.workspace_path, "/ws");
}

#[test]
fn api_response_envelopes() {
    assert_eq!(
        ApiResponse::success(n(1)),
        ApiResponse { ok: true, result: Some(n(1)), error: None }
    );
    assert_eq!(
        ApiResponse::error("bad".to_string()),
        ApiResponse { ok: false, result: None, error: Some("bad".to_string()) }
    );
}
