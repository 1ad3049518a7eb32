//! The shapes of the tool interface: what a tool call returns, and the
//! envelope of an answer over HTTP.

use vstd::prelude::*;
use crate::json::Json;

verus! {

/// A tool as it is listed: its name, what it does, and the schema of its
/// arguments.
#[derive(Debug, PartialEq, Eq)]
pub struct ToolDefinition {
    pub name: String,
    pub description: String,
    pub input_schema: Json,
}

/// One piece of the content of a tool result.
#[derive(Debug, PartialEq, Eq)]
pub struct ContentItem {
    pub content_type: String,
    pub text: String,
}

/// What a tool call returns.
#[derive(Debug, PartialEq, Eq)]
pub struct ToolResult {
    pub content: Vec<ContentItem>,
}

/// The body of a request to set the workspace.
#[derive(Debug, PartialEq, Eq)]
pub struct SetWorkspaceRequest {
    pub workspace_path: String,
}

/// Whether `result` is the one text item `text`.
pub open spec fn is_text_result(result: ToolResult, text: Seq<char>) -> bool {
    &&& result.content@.len() == 1
    &&& result.content@[0].content_type@ == "text"@
    &&& result.content@[0].text@ == text
}

impl ToolResult {
    /// The result that holds the one text item `text`.
    pub fn text(text: String) -> (result: Self)
        ensures
            is_text_result(result, text@),
    {
        let mut content: Vec<ContentItem> = Vec::new();
        content.push(ContentItem { content_type: "text".to_owned(), text });
        ToolResult { content }
    }

    /// The text of the first item, or the empty text where there is none.
    pub fn first_text(&self) -> (text: String)
        ensures
            text@ == if self.content@.len() > 0 {
                self.content@[0].text@
            } else {
                Seq::<char>::empty()
            },
    {
        if self.content.len() > 0 {
            self.content[0].text.clone()
        } else {
            String::new()
        }
    }
}

/// The envelope of an answer: whether the call succeeded, and its result or
/// the message of its failure.
#[derive(Debug, PartialEq, Eq)]
pub struct ApiResponse {
    pub ok: bool,
    pub result: Option<Json>,
    pub error: Option<String>,
}

impl ApiResponse {
    /// The envelope of a success with `result`.
    pub fn success(result: Json) -> (response: Self)
        ensures
            response.ok,
            response.result == Some(result),
            response.error is None,
    {
        ApiResponse { ok: true, result: Some(result), error: None }
    }

    /// The envelope of a failure with the message `msg`.
    pub fn error(msg: String) -> (response: Self)
        ensures
            !response.ok,
            response.result is None,
            response.error == Some(msg),
    {
        ApiResponse { ok: false, result: None, error: Some(msg) }
    }
}

} // verus!
