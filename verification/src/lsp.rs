//! The queries the client puts to the backend: the method each one calls and
//! the parameters it carries.

use vstd::prelude::*;
use crate::json::{view_items, Json, JsonView, NumberView};

verus! {

/// A range of a document, from a start position to an end position.
#[derive(Debug, PartialEq, Eq, Clone, Copy)]
pub struct Span {
    pub start_line: u32,
    pub start_character: u32,
    pub end_line: u32,
    pub end_character: u32,
}

/// A query to the backend.
#[derive(Debug, PartialEq, Eq)]
pub enum Query {
    Hover { uri: String, line: u32, character: u32 },
    Definition { uri: String, line: u32, character: u32 },
    References { uri: String, line: u32, character: u32 },
    Completion { uri: String, line: u32, character: u32 },
    Implementation { uri: String, line: u32, character: u32 },
    ParentModule { uri: String, line: u32, character: u32 },
    PrepareCallHierarchy { uri: String, line: u32, character: u32 },
    DocumentSymbols { uri: String },
    Formatting { uri: String },
    /// The pull of the diagnostics of one document.
    Diagnostics { uri: String },
    /// The pull of the diagnostics of the whole workspace.
    WorkspaceDiagnostics,
    IncomingCalls { item: Json },
    OutgoingCalls { item: Json },
    WorkspaceSymbol { query: String },
    /// The code actions for a range, given the diagnostics that lie in it.
    CodeActions { uri: String, span: Span, diagnostics: Json },
    InlayHints { uri: String, span: Span },
}

/// A number as a JSON value.
pub open spec fn number(n: u64) -> JsonView {
    JsonView::Number(NumberView::PosInt(n))
}

/// The reference to the document `uri`.
pub open spec fn text_document(uri: Seq<char>) -> JsonView {
    JsonView::Object(seq![("uri"@, JsonView::String(uri))])
}

/// A position in a document.
pub open spec fn position(line: u32, character: u32) -> JsonView {
    JsonView::Object(seq![("line"@, number(line as u64)), ("character"@, number(character as u64))])
}

/// A range in a document.
pub open spec fn range(span: Span) -> JsonView {
    JsonView::Object(
        seq![
            ("start"@, position(span.start_line, span.start_character)),
            ("end"@, position(span.end_line, span.end_character)),
        ],
    )
}

/// The parameters of a query about one document.
pub open spec fn document_params(uri: Seq<char>) -> JsonView {
    JsonView::Object(seq![("textDocument"@, text_document(uri))])
}

/// The parameters of a query about one position of a document.
pub open spec fn position_params(uri: Seq<char>, line: u32, character: u32) -> JsonView {
    JsonView::Object(
        seq![("textDocument"@, text_document(uri)), ("position"@, position(line, character))],
    )
}

/// The parameters of a search for references: the position, and the request
/// to include the declaration.
pub open spec fn references_params(uri: Seq<char>, line: u32, character: u32) -> JsonView {
    JsonView::Object(
        seq![
            ("textDocument"@, text_document(uri)),
            ("position"@, position(line, character)),
            ("context"@, JsonView::Object(seq![("includeDeclaration"@, JsonView::Bool(true))])),
        ],
    )
}

/// The parameters of a formatting query: four spaces to a tab stop.
pub open spec fn formatting_params(uri: Seq<char>) -> JsonView {
    JsonView::Object(
        seq![
            ("textDocument"@, text_document(uri)),
            (
                "options"@,
                JsonView::Object(
                    seq![("tabSize"@, number(4)), ("insertSpaces"@, JsonView::Bool(true))],
                ),
            ),
        ],
    )
}

/// The parameters of the workspace-wide pull of diagnostics: the identifier
/// of the client, and no previous result to continue from.
pub open spec fn workspace_diagnostics_params() -> JsonView {
    JsonView::Object(
        seq![
            ("identifier"@, JsonView::String("rust-analyzer"@)),
            ("previousResultId"@, JsonView::Null),
        ],
    )
}

/// The parameters of an expansion of a call hierarchy item.
pub open spec fn item_params(item: JsonView) -> JsonView {
    JsonView::Object(seq![("item"@, item)])
}

/// The parameters of a workspace symbol search.
pub open spec fn symbol_params(query: Seq<char>) -> JsonView {
    JsonView::Object(seq![("query"@, JsonView::String(query))])
}

/// The kinds of code action the client asks for.
pub open spec fn action_kinds() -> Seq<JsonView> {
    seq![
        JsonView::String("quickfix"@),
        JsonView::String("refactor"@),
        JsonView::String("refactor.extract"@),
        JsonView::String("refactor.inline"@),
        JsonView::String("refactor.rewrite"@),
        JsonView::String("source"@),
    ]
}

/// The parameters of a query for code actions: the range, the diagnostics
/// that lie in it, and the kinds asked for.
pub open spec fn code_action_params(uri: Seq<char>, span: Span, diagnostics: JsonView) -> JsonView {
    JsonView::Object(
        seq![
            ("textDocument"@, text_document(uri)),
            ("range"@, range(span)),
            (
                "context"@,
                JsonView::Object(
                    seq![("diagnostics"@, diagnostics), ("only"@, JsonView::Array(action_kinds()))],
                ),
            ),
        ],
    )
}

/// The parameters of a query for the inlay hints of a range.
pub open spec fn inlay_hint_params(uri: Seq<char>, span: Span) -> JsonView {
    JsonView::Object(seq![("textDocument"@, text_document(uri)), ("range"@, range(span))])
}

/// The method that a query calls.
pub open spec fn method_of(query: Query) -> Seq<char> {
    match query {
        Query::Hover { .. } => "textDocument/hover"@,
        Query::Definition { .. } => "textDocument/definition"@,
        Query::References { .. } => "textDocument/references"@,
        Query::Completion { .. } => "textDocument/completion"@,
        Query::Implementation { .. } => "textDocument/implementation"@,
        Query::ParentModule { .. } => "experimental/parentModule"@,
        Query::PrepareCallHierarchy { .. } => "textDocument/prepareCallHierarchy"@,
        Query::DocumentSymbols { .. } => "textDocument/documentSymbol"@,
        Query::Formatting { .. } => "textDocument/formatting"@,
        Query::Diagnostics { .. } => "textDocument/diagnostic"@,
        Query::WorkspaceDiagnostics => "workspace/diagnostic"@,
        Query::IncomingCalls { .. } => "callHierarchy/incomingCalls"@,
        Query::OutgoingCalls { .. } => "callHierarchy/outgoingCalls"@,
        Query::WorkspaceSymbol { .. } => "workspace/symbol"@,
        Query::CodeActions { .. } => "textDocument/codeAction"@,
        Query::InlayHints { .. } => "textDocument/inlayHint"@,
    }
}

/// The parameters that a query carries.
pub open spec fn params_of(query: Query) -> JsonView {
    match query {
        Query::Hover { uri, line, character } => position_params(uri@, line, character),
        Query::Definition { uri, line, character } => position_params(uri@, line, character),
        Query::References { uri, line, character } => references_params(uri@, line, character),
        Query::Completion { uri, line, character } => position_params(uri@, line, character),
        Query::Implementation { uri, line, character } => position_params(uri@, line, character),
        Query::ParentModule { uri, line, character } => position_params(uri@, line, character),
        Query::PrepareCallHierarchy { uri, line, character } => position_params(
            uri@,
            line,
            character,
        ),
        Query::DocumentSymbols { uri } => document_params(uri@),
        Query::Formatting { uri } => formatting_params(uri@),
        Query::Diagnostics { uri } => document_params(uri@),
        Query::WorkspaceDiagnostics => workspace_diagnostics_params(),
        Query::IncomingCalls { item } => item_params(item@),
        Query::OutgoingCalls { item } => item_params(item@),
        Query::WorkspaceSymbol { query } => symbol_params(query@),
        Query::CodeActions { uri, span, diagnostics } => code_action_params(
            uri@,
            span,
            diagnostics@,
        ),
        Query::InlayHints { uri, span } => inlay_hint_params(uri@, span),
    }
}

/// The document in which a query names a position or a range, which must
/// be open before the query is issued; `None` for a query that names
/// neither.
pub open spec fn document_of(query: Query) -> Option<Seq<char>> {
    match query {
        Query::Hover { uri, .. } => Some(uri@),
        Query::Definition { uri, .. } => Some(uri@),
        Query::References { uri, .. } => Some(uri@),
        Query::Completion { uri, .. } => Some(uri@),
        Query::Implementation { uri, .. } => Some(uri@),
        Query::ParentModule { uri, .. } => Some(uri@),
        Query::PrepareCallHierarchy { uri, .. } => Some(uri@),
        Query::CodeActions { uri, .. } => Some(uri@),
        Query::InlayHints { uri, .. } => Some(uri@),
        Query::DocumentSymbols { .. } => None,
        Query::Formatting { .. } => None,
        Query::Diagnostics { .. } => None,
        Query::WorkspaceDiagnostics => None,
        Query::IncomingCalls { .. } => None,
        Query::OutgoingCalls { .. } => None,
        Query::WorkspaceSymbol { .. } => None,
    }
}

fn text_document_of(uri: &str) -> (r: Json)
    ensures
        r@ == text_document(uri@),
{
    Json::object1("uri", Json::string(uri))
}

fn position_of(line: u32, character: u32) -> (r: Json)
    ensures
        r@ == position(line, character),
{
    Json::object2("line", Json::number(line as u64), "character", Json::number(character as u64))
}

fn range_of(span: &Span) -> (r: Json)
    ensures
        r@ == range(*span),
{
    Json::object2(
        "start",
        position_of(span.start_line, span.start_character),
        "end",
        position_of(span.end_line, span.end_character),
    )
}

fn position_params_of(uri: &str, line: u32, character: u32) -> (r: Json)
    ensures
        r@ == position_params(uri@, line, character),
{
    Json::object2("textDocument", text_document_of(uri), "position", position_of(line, character))
}

fn action_kinds_of() -> (r: Json)
    ensures
        r@ == JsonView::Array(action_kinds()),
{
    let mut kinds: Vec<Json> = Vec::new();
    kinds.push(Json::string("quickfix"));
    kinds.push(Json::string("refactor"));
    kinds.push(Json::string("refactor.extract"));
    kinds.push(Json::string("refactor.inline"));
    kinds.push(Json::string("refactor.rewrite"));
    kinds.push(Json::string("source"));
    assert(view_items(kinds@) =~= action_kinds());
    Json::array(kinds)
}

impl Query {
    /// The method that the query calls.
    pub fn method(&self) -> (name: &'static str)
        ensures
            name@ == method_of(*self),
    {
        match self {
            Query::Hover { .. } => "textDocument/hover",
            Query::Definition { .. } => "textDocument/definition",
            Query::References { .. } => "textDocument/references",
            Query::Completion { .. } => "textDocument/completion",
            Query::Implementation { .. } => "textDocument/implementation",
            Query::ParentModule { .. } => "experimental/parentModule",
            Query::PrepareCallHierarchy { .. } => "textDocument/prepareCallHierarchy",
            Query::DocumentSymbols { .. } => "textDocument/documentSymbol",
            Query::Formatting { .. } => "textDocument/formatting",
            Query::Diagnostics { .. } => "textDocument/diagnostic",
            Query::WorkspaceDiagnostics => "workspace/diagnostic",
            Query::IncomingCalls { .. } => "callHierarchy/incomingCalls",
            Query::OutgoingCalls { .. } => "callHierarchy/outgoingCalls",
            Query::WorkspaceSymbol { .. } => "workspace/symbol",
            Query::CodeActions { .. } => "textDocument/codeAction",
            Query::InlayHints { .. } => "textDocument/inlayHint",
        }
    }

    /// The parameters that the query carries.
    pub fn params(&self) -> (params: Json)
        ensures
            params@ == params_of(*self),
    {
        match self {
            Query::Hover { uri, line, character } => position_params_of(
                uri.as_str(),
                *line,
                *character,
            ),
            Query::Definition { uri, line, character } => position_params_of(
                uri.as_str(),
                *line,
                *character,
            ),
            Query::References { uri, line, character } => Json::object3(
                "textDocument",
                text_document_of(uri.as_str()),
                "position",
                position_of(*line, *character),
                "context",
                Json::object1("includeDeclaration", Json::Bool(true)),
            ),
            Query::Completion { uri, line, character } => position_params_of(
                uri.as_str(),
                *line,
                *character,
            ),
            Query::Implementation { uri, line, character } => position_params_of(
                uri.as_str(),
                *line,
                *character,
            ),
            Query::ParentModule { uri, line, character } => position_params_of(
                uri.as_str(),
                *line,
                *character,
            ),
            Query::PrepareCallHierarchy { uri, line, character } => position_params_of(
                uri.as_str(),
                *line,
                *character,
            ),
            Query::DocumentSymbols { uri } => Json::object1(
                "textDocument",
                text_document_of(uri.as_str()),
            ),
            Query::Formatting { uri } => Json::object2(
                "textDocument",
                text_document_of(uri.as_str()),
                "options",
                Json::object2("tabSize", Json::number(4), "insertSpaces", Json::Bool(true)),
            ),
            Query::Diagnostics { uri } => Json::object1(
                "textDocument",
                text_document_of(uri.as_str()),
            ),
            Query::WorkspaceDiagnostics => Json::object2(
                "identifier",
                Json::string("rust-analyzer"),
                "previousResultId",
                Json::Null,
            ),
            Query::IncomingCalls { item } => Json::object1("item", item.clone()),
            Query::OutgoingCalls { item } => Json::object1("item", item.clone()),
            Query::WorkspaceSymbol { query } => Json::object1("query", Json::string(query.as_str())),
            Query::CodeActions { uri, span, diagnostics } => Json::object3(
                "textDocument",
                text_document_of(uri.as_str()),
                "range",
                range_of(span),
                "context",
                Json::object2("diagnostics", diagnostics.clone(), "only", action_kinds_of()),
            ),
            Query::InlayHints { uri, span } => Json::object2(
                "textDocument",
                text_document_of(uri.as_str()),
                "range",
                range_of(span),
            ),
        }
    }

    /// The document in which the query names a position or a range, if it
    /// names one.
    pub fn document(&self) -> (uri: Option<&str>)
        ensures
            match uri {
                Some(u) => document_of(*self) == Some(u@),
                None => document_of(*self) is None,
            },
    {
        match self {
            Query::Hover { uri, .. } => Some(uri.as_str()),
            Query::Definition { uri, .. } => Some(uri.as_str()),
            Query::References { uri, .. } => Some(uri.as_str()),
            Query::Completion { uri, .. } => Some(uri.as_str()),
            Query::Implementation { uri, .. } => Some(uri.as_str()),
            Query::ParentModule { uri, .. } => Some(uri.as_str()),
            Query::PrepareCallHierarchy { uri, .. } => Some(uri.as_str()),
            Query::CodeActions { uri, .. } => Some(uri.as_str()),
            Query::InlayHints { uri, .. } => Some(uri.as_str()),
            Query::DocumentSymbols { .. } => None,
            Query::Formatting { .. } => None,
            Query::Diagnostics { .. } => None,
            Query::WorkspaceDiagnostics => None,
            Query::IncomingCalls { .. } => None,
            Query::OutgoingCalls { .. } => None,
            Query::WorkspaceSymbol { .. } => None,
        }
    }
}

/// What a query puts on the wire, and the document it is about.
pub struct QueryView {
    pub method: Seq<char>,
    pub params: JsonView,
    pub document: Option<Seq<char>>,
}

impl View for Query {
    type V = QueryView;

    open spec fn view(&self) -> QueryView {
        QueryView {
            method: method_of(*self),
            params: params_of(*self),
            document: document_of(*self),
        }
    }
}

impl Clone for Query {
    fn clone(&self) -> (copy: Self)
        ensures
            copy@ == self@,
    {
        match self {
            Query::Hover { uri, line, character } => Query::Hover {
                uri: uri.clone(),
                line: *line,
                character: *character,
            },
            Query::Definition { uri, line, character } => Query::Definition {
                uri: uri.clone(),
                line: *line,
                character: *character,
            },
            Query::References { uri, line, character } => Query::References {
                uri: uri.clone(),
                line: *line,
                character: *character,
            },
            Query::Completion { uri, line, character } => Query::Completion {
                uri: uri.clone(),
                line: *line,
                character: *character,
            },
            Query::Implementation { uri, line, character } => Query::Implementation {
                uri: uri.clone(),
                line: *line,
                character: *character,
            },
            Query::ParentModule { uri, line, character } => Query::ParentModule {
                uri: uri.clone(),
                line: *line,
                character: *character,
            },
            Query::PrepareCallHierarchy { uri, line, character } => Query::PrepareCallHierarchy {
                uri: uri.clone(),
                line: *line,
                character: *character,
            },
            Query::DocumentSymbols { uri } => Query::DocumentSymbols { uri: uri.clone() },
            Query::Formatting { uri } => Query::Formatting { uri: uri.clone() },
            Query::Diagnostics { uri } => Query::Diagnostics { uri: uri.clone() },
            Query::WorkspaceDiagnostics => Query::WorkspaceDiagnostics,
            Query::IncomingCalls { item } => Query::IncomingCalls { item: item.clone() },
            Query::OutgoingCalls { item } => Query::OutgoingCalls { item: item.clone() },
            Query::WorkspaceSymbol { query } => Query::WorkspaceSymbol { query: query.clone() },
            Query::CodeActions { uri, span, diagnostics } => Query::CodeActions {
                uri: uri.clone(),
                span: *span,
                diagnostics: diagnostics.clone(),
            },
            Query::InlayHints { uri, span } => Query::InlayHints { uri: uri.clone(), span: *span },
        }
    }
}

} // verus!
