use rust_analyzer_server::error::RequestError;
use rust_analyzer_server::json::{Json, Number};
use rust_analyzer_server::message::{
    classify_message, notification, read_outcome, request, response, Incoming,
};
use rust_analyzer_server::notice::{parse_notification, Notice};

fn s(t: &str) -> Json {
    Json::String(t.to_string())
}

fn n(v: u64) -> Json {
    Json::Number(Number::PosInt(v))
}

fn obj(members: Vec<(&str, Json)>) -> Json {
    Json::Object(members.into_iter().map(|(k, v)| (k.to_string(), v)).collect())
}

#[test]
fn request_carries_id_method_params() {
    assert_eq!(
        request(7, "textDocument/hover", obj(vec![("a", n(1))])),
        obj(vec![
            ("jsonrpc", s("2.0")),
            ("id", n(7)),
            ("method", s("textDocument/hover")),
            ("params", obj(vec![("a", n(1))])),
        ])
    );
}

#[test]
fn notification_carries_no_id() {
    let msg = notification("initialized", obj(vec![]));
    assert_eq!(
        msg,
        obj(vec![("jsonrpc", s("2.0")), ("method", s("initialized")), ("params", obj(vec![]))])
    );
    assert_eq!(msg.get("id"), None);
}

#[test]
fn response_carries_id_and_result() {
    assert_eq!(
        response(s("abc"), Json::Null),
        obj(vec![("jsonrpc", s("2.0")), ("id", s("abc")), ("result", Json::Null)])
    );
}

#[test]
fn id_without_method_is_a_response() {
    let msg = obj(vec![("jsonrpc", s("2.0")), ("id", n(3)), ("result", s("r"))]);
    assert_eq!(classify_message(&msg), Incoming::Response { id: 3, outcome: Ok(s("r")) });
    let bare = obj(vec![("id", n(4))]);
    assert_eq!(classify_message(&bare), Incoming::Response { id: 4, outcome: Ok(Json::Null) });
}

#[test]
fn method_with_id_is_a_server_request() {
    let msg = obj(vec![("id", n(3)), ("method", s("workspace/configuration")), ("params", n(1))]);
    assert_eq!(
        classify_message(&msg),
        Incoming::ServerRequest {
            id: n(3),
            method: "workspace/configuration".to_string(),
            params: n(1)
        }
    );
    let null_id = obj(vec![("id", Json::Null), ("method", s("m"))]);
    assert_eq!(
        classify_message(&null_id),
        Incoming::ServerRequest { id: Json::Null, method: "m".to_string(), params: Json::Null }
    );
}

#[test]
fn method_without_id_is_a_notification() {
    let msg = obj(vec![("method", s("$/progress")), ("params", obj(vec![("token", s("t"))]))]);
    assert_eq!(
        classify_message(&msg),
        Incoming::Notification {
            method: "$/progress".to_string(),
            params: obj(vec![("token", s("t"))])
        }
    );
    assert_eq!(
        classify_message(&obj(vec![("method", s("exit"))])),
        Incoming::Notification { method: "exit".to_string(), params: Json::Null }
    );
}

#[test]
fn other_values_are_invalid() {
    assert_eq!(classify_message(&Json::Null), Incoming::Invalid);
    assert_eq!(classify_message(&Json::Array(vec![])), Incoming::Invalid);
    assert_eq!(classify_message(&obj(vec![])), Incoming::Invalid);
    assert_eq!(classify_message(&obj(vec![("method", n(1)), ("id", n(1))])), Incoming::Invalid);
    assert_eq!(classify_message(&obj(vec![("id", s("1")), ("result", n(1))])), Incoming::Invalid);
    assert_eq!(
        classify_message(&obj(vec![("id", Json::Number(Number::NegInt(-1)))])),
        Incoming::Invalid
    );
}

#[test]
fn error_object_becomes_backend_error() {
    let msg = obj(vec![
        ("id", n(1)),
        ("error", obj(vec![("code", Json::Number(Number::NegInt(-32700))), ("message", s("bad"))])),
    ]);
    assert_eq!(
        read_outcome(&msg),
        Err(RequestError::Backend { code: -32700, message: "bad".to_string() })
    );
    let odd = obj(vec![("id", n(1)), ("error", obj(vec![("code", s("x"))]))]);
    assert_eq!(read_outcome(&odd), Err(RequestError::Backend { code: 0, message: String::new() }));
    let positive = obj(vec![("error", obj(vec![("code", n(12)), ("message", s("m"))]))]);
    assert_eq!(
        read_outcome(&positive),
        Err(RequestError::Backend { code: 12, message: "m".to_string() })
    );
    let null_error = obj(vec![("id", n(1)), ("error", Json::Null), ("result", n(5))]);
    assert_eq!(read_outcome(&null_error), Ok(n(5)));
}

#[test]
fn progress_notifications_are_read() {
    let begin = obj(vec![
        ("token", s("rustAnalyzer/Indexing")),
        (
            "value",
            obj(vec![
                ("kind", s("begin")),
                ("title", s("Indexing")),
                ("message", s("0/3")),
                ("percentage", n(0)),
            ]),
        ),
    ]);
    assert_eq!(
        parse_notification("$/progress", &begin),
        Notice::ProgressBegin {
            token: "rustAnalyzer/Indexing".to_string(),
            title: "Indexing".to_string(),
            message: Some("0/3".to_string()),
            percentage: Some(0),
        }
    );
    let report = obj(vec![
        ("token", n(12)),
        ("value", obj(vec![("kind", s("report")), ("percentage", n(50))])),
    ]);
    assert_eq!(
        parse_notification("$/progress", &report),
        Notice::ProgressReport { token: "12".to_string(), message: None, percentage: Some(50) }
    );
    let end = obj(vec![("token", s("t")), ("value", obj(vec![("kind", s("end"))]))]);
    assert_eq!(
        parse_notification("$/progress", &end),
        Notice::ProgressEnd { token: "t".to_string() }
    );
}

#[test]
fn odd_progress_notifications_are_ignored() {
    let no_token = obj(vec![("value", obj(vec![("kind", s("begin"))]))]);
    assert_eq!(parse_notification("$/progress", &no_token), Notice::Other);
    let bad_token = obj(vec![("token", Json::Bool(true)), ("value", obj(vec![("kind", s("end"))]))]);
    assert_eq!(parse_notification("$/progress", &bad_token), Notice::Other);
    let bad_kind = obj(vec![("token", s("t")), ("value", obj(vec![("kind", s("pause"))]))]);
    assert_eq!(parse_notification("$/progress", &bad_kind), Notice::Other);
    let no_kind = obj(vec![("token", s("t")), ("value", obj(vec![]))]);
    assert_eq!(parse_notification("$/progress", &no_kind), Notice::Other);
    let untitled = obj(vec![
        ("token", s("t")),
        ("value", obj(vec![("kind", s("begin")), ("percentage", n(u32::MAX as u64 + 1))])),
    ]);
    assert_eq!(
        parse_notification("$/progress", &untitled),
        Notice::ProgressBegin {
            token: "t".to_string(),
            title: String::new(),
            message: None,
            percentage: None
        }
    );
}

#[test]
fn diagnostics_publications_are_read() {
    let params = obj(vec![("uri", s("file:///a.rs")), ("diagnostics", Json::Array(vec![n(1), n(2)]))]);
    assert_eq!(
        parse_notification("textDocument/publishDiagnostics", &params),
        Notice::Diagnostics { uri: "file:///a.rs".to_string(), diagnostics: vec![n(1), n(2)] }
    );
    let no_list = obj(vec![("uri", s("file:///a.rs"))]);
    assert_eq!(
        parse_notification("textDocument/publishDiagnostics", &no_list),
        Notice::Diagnostics { uri: "file:///a.rs".to_string(), diagnostics: vec![] }
    );
    let no_uri = obj(vec![("diagnostics", Json::Array(vec![]))]);
    assert_eq!(parse_notification("textDocument/publishDiagnostics", &no_uri), Notice::Other);
    assert_eq!(parse_notification("window/logMessage", &params), Notice::Other);
}
