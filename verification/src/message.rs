//! The messages of the wire protocol as JSON values: what the client sends,
//! and what a received message is.

use vstd::prelude::*;
use crate::error::{RequestError, RequestErrorView};
use crate::json::{Json, JsonView, NumberView};

verus! {

/// The protocol version every message carries.
pub open spec fn version_member() -> (Seq<char>, JsonView) {
    ("jsonrpc"@, JsonView::String("2.0"@))
}

/// A request: it carries an id, a method and parameters.
pub open spec fn request_message(id: u64, method: Seq<char>, params: JsonView) -> JsonView {
    JsonView::Object(
        seq![
            version_member(),
            ("id"@, JsonView::Number(NumberView::PosInt(id))),
            ("method"@, JsonView::String(method)),
            ("params"@, params),
        ],
    )
}

/// A notification: it carries a method and parameters, and no id.
pub open spec fn notification_message(method: Seq<char>, params: JsonView) -> JsonView {
    JsonView::Object(
        seq![version_member(), ("method"@, JsonView::String(method)), ("params"@, params)],
    )
}

/// A response to the request `id`: it carries the id and a result.
pub open spec fn response_message(id: JsonView, result: JsonView) -> JsonView {
    JsonView::Object(seq![version_member(), ("id"@, id), ("result"@, result)])
}

/// Builds the request `method(params)` with the id `id`.
pub fn request(id: u64, method: &str, params: Json) -> (msg: Json)
    ensures
        msg@ == request_message(id, method@, params@),
{
    Json::object4(
        "jsonrpc",
        Json::string("2.0"),
        "id",
        Json::number(id),
        "method",
        Json::string(method),
        "params",
        params,
    )
}

/// Builds the notification `method(params)`.
pub fn notification(method: &str, params: Json) -> (msg: Json)
    ensures
        msg@ == notification_message(method@, params@),
{
    Json::object3("jsonrpc", Json::string("2.0"), "method", Json::string(method), "params", params)
}

/// Builds the response to the request `id` with `result`.
pub fn response(id: Json, result: Json) -> (msg: Json)
    ensures
        msg@ == response_message(id@, result@),
{
    Json::object3("jsonrpc", Json::string("2.0"), "id", id, "result", result)
}

/// A received message, by what it is.
#[derive(Debug, PartialEq, Eq)]
#[allow(inconsistent_fields)]
pub enum Incoming {
    /// The outcome of the request `id`: its result, or the error object the
    /// backend answered with.
    Response { id: u64, outcome: Result<Json, RequestError> },
    /// A request that the backend makes of the client.
    ServerRequest { id: Json, method: String, params: Json },
    /// A notification.
    Notification { method: String, params: Json },
    /// Not a message of the protocol.
    Invalid,
}

/// The mathematical value of an [`Incoming`].
#[allow(inconsistent_fields)]
pub enum IncomingView {
    Response { id: u64, outcome: Result<JsonView, RequestErrorView> },
    ServerRequest { id: JsonView, method: Seq<char>, params: JsonView },
    Notification { method: Seq<char>, params: JsonView },
    Invalid,
}

impl View for Incoming {
    type V = IncomingView;

    open spec fn view(&self) -> IncomingView {
        match self {
            Incoming::Response { id, outcome } => IncomingView::Response {
                id: *id,
                outcome: match outcome {
                    Ok(v) => Ok(v@),
                    Err(e) => Err(e@),
                },
            },
            Incoming::ServerRequest { id, method, params } => IncomingView::ServerRequest {
                id: id@,
                method: method@,
                params: params@,
            },
            Incoming::Notification { method, params } => IncomingView::Notification {
                method: method@,
                params: params@,
            },
            Incoming::Invalid => IncomingView::Invalid,
        }
    }
}

/// The code of an error object: its `code` where that is an integer, else 0.
pub open spec fn error_code(error: JsonView) -> i64 {
    match error.field("code"@).as_i64() {
        Some(code) => code,
        None => 0,
    }
}

/// The message of an error object: its `message` where that is a string,
/// else the empty text.
pub open spec fn error_message(error: JsonView) -> Seq<char> {
    match error.field("message"@).as_str() {
        Some(text) => text,
        None => Seq::empty(),
    }
}

/// The outcome that a response carries: the backend's error where the
/// message has an `error` member that is not null, else its `result`, which
/// is null where the member is missing.
pub open spec fn response_outcome(msg: JsonView) -> Result<JsonView, RequestErrorView> {
    let error = msg.field("error"@);
    if error is Null {
        Ok(msg.field("result"@))
    } else {
        Err(RequestErrorView::Backend { code: error_code(error), message: error_message(error) })
    }
}

/// What a received message is. A message whose `method` is a string is a
/// request of the backend where it has an `id`, and a notification where it
/// has none. A message without `method` is a response where its `id` is a
/// non-negative integer. Everything else is invalid.
pub open spec fn classify(msg: JsonView) -> IncomingView {
    match msg.get("method"@) {
        Some(method) => match method.as_str() {
            Some(name) => match msg.get("id"@) {
                Some(id) => IncomingView::ServerRequest {
                    id,
                    method: name,
                    params: msg.field("params"@),
                },
                None => IncomingView::Notification { method: name, params: msg.field("params"@) },
            },
            None => IncomingView::Invalid,
        },
        None => match msg.field("id"@).as_u64() {
            Some(id) => IncomingView::Response { id, outcome: response_outcome(msg) },
            None => IncomingView::Invalid,
        },
    }
}

/// Reads the outcome that the response `msg` carries.
pub fn read_outcome(msg: &Json) -> (outcome: Result<Json, RequestError>)
    ensures
        crate::retry::poll_view(outcome) == response_outcome(msg@),
{
    let error = msg.field("error");
    if error.is_null() {
        Ok(msg.field("result"))
    } else {
        let code = match error.field("code").as_i64() {
            Some(code) => code,
            None => 0,
        };
        let message = match error.text_field("message") {
            Some(text) => text,
            None => String::new(),
        };
        Err(RequestError::Backend { code, message })
    }
}

/// Says what the received message `msg` is.
pub fn classify_message(msg: &Json) -> (incoming: Incoming)
    ensures
        incoming@ == classify(msg@),
{
    match msg.get("method") {
        Some(method) => match method.as_str() {
            Some(name) => match msg.get("id") {
                Some(id) => Incoming::ServerRequest {
                    id: id.clone(),
                    method: name.to_owned(),
                    params: msg.field("params"),
                },
                None => Incoming::Notification {
                    method: name.to_owned(),
                    params: msg.field("params"),
                },
            },
            None => Incoming::Invalid,
        },
        None => match msg.field("id").as_u64() {
            Some(id) => Incoming::Response { id, outcome: read_outcome(msg) },
            None => Incoming::Invalid,
        },
    }
}

/// The names of the members of a message are distinct.
proof fn lemma_member_names_differ()
    ensures
        "jsonrpc"@ != "id"@,
        "jsonrpc"@ != "method"@,
        "jsonrpc"@ != "params"@,
        "jsonrpc"@ != "result"@,
        "jsonrpc"@ != "error"@,
        "id"@ != "method"@,
        "id"@ != "params"@,
        "id"@ != "result"@,
        "id"@ != "error"@,
        "method"@ != "params"@,
        "method"@ != "result"@,
        "method"@ != "error"@,
        "params"@ != "result"@,
        "params"@ != "error"@,
        "result"@ != "error"@,
{
    reveal_strlit("jsonrpc");
    reveal_strlit("id");
    reveal_strlit("method");
    reveal_strlit("params");
    reveal_strlit("result");
    reveal_strlit("error");
    assert("jsonrpc"@.len() == 7);
    assert("id"@.len() == 2);
    assert("method"@.len() == 6);
    assert("params"@.len() == 6);
    assert("result"@.len() == 6);
    assert("error"@.len() == 5);
    assert("method"@[0] == 'm');
    assert("params"@[0] == 'p');
    assert("result"@[0] == 'r');
}

/// What the client sends is read back as what it is: a request as a
/// request with its id, method and parameters, and a notification as a
/// notification with its method and parameters.
pub proof fn lemma_sent_messages_are_read(id: u64, method: Seq<char>, params: JsonView)
    ensures
        classify(request_message(id, method, params)) == (IncomingView::ServerRequest {
            id: JsonView::Number(NumberView::PosInt(id)),
            method,
            params,
        }),
        classify(notification_message(method, params)) == (IncomingView::Notification {
            method,
            params,
        }),
{
    lemma_member_names_differ();
    reveal_with_fuel(crate::json::find_member, 5);
}

/// A response with a result is read as the success of the request that its
/// id names, with that result.
pub proof fn lemma_result_response_is_read(id: u64, result: JsonView)
    ensures
        classify(response_message(JsonView::Number(NumberView::PosInt(id)), result)) == (
        IncomingView::Response { id, outcome: Ok(result) }),
{
    lemma_member_names_differ();
    reveal_with_fuel(crate::json::find_member, 5);
}

} // verus!
