//! The tools of the outward interface: reading the arguments of a call, and
//! what each tool asks of the session.

use vstd::prelude::*;
use vstd::string::StringExecFns;
use crate::error::{LastObserved, LastObservedView, RequestError};
use crate::json::{Json, JsonView};
use crate::lsp::Span;
use crate::retry::{judge_failure, judged_failure, poll_view, JudgedView, Poll, PollView};
use crate::simplify::Shape;
use crate::bytes::{contains_bytes, text_contains};
use crate::text::str_eq;
use vstd::string::StringSliceAdditionalSpecFns;

verus! {

/// An argument of a tool call.
#[derive(Debug, Clone, Copy, PartialEq, Eq, Structural)]
pub enum Param {
    FilePath,
    Line,
    Character,
    EndLine,
    EndCharacter,
    Query,
    WorkspacePath,
}

/// Why a tool call cannot be read.
#[derive(Debug, PartialEq, Eq)]
pub enum ToolError {
    /// An argument is missing or is not of its type.
    Missing(Param),
    /// No tool has this name.
    UnknownTool(String),
}

/// The mathematical value of a [`ToolError`].
pub enum ToolErrorView {
    Missing(Param),
    UnknownTool(Seq<char>),
}

impl View for ToolError {
    type V = ToolErrorView;

    open spec fn view(&self) -> ToolErrorView {
        match self {
            ToolError::Missing(p) => ToolErrorView::Missing(*p),
            ToolError::UnknownTool(name) => ToolErrorView::UnknownTool(name@),
        }
    }
}

/// The text that reports a missing argument.
pub open spec fn missing_text(param: Param) -> Seq<char> {
    match param {
        Param::FilePath => "Missing file_path"@,
        Param::Line => "Missing line"@,
        Param::Character => "Missing character"@,
        Param::EndLine => "Missing end_line"@,
        Param::EndCharacter => "Missing end_character"@,
        Param::Query => "Missing query parameter"@,
        Param::WorkspacePath => "Missing workspace_path"@,
    }
}

/// The text of a tool error.
pub open spec fn tool_error_text(error: ToolErrorView) -> Seq<char> {
    match error {
        ToolErrorView::Missing(param) => missing_text(param),
        ToolErrorView::UnknownTool(name) => "Unknown tool: "@ + name,
    }
}

impl ToolError {
    /// The message for the caller.
    pub fn message(&self) -> (text: String)
        ensures
            text@ == tool_error_text(self@),
    {
        match self {
            ToolError::Missing(param) => match param {
                Param::FilePath => "Missing file_path".to_owned(),
                Param::Line => "Missing line".to_owned(),
                Param::Character => "Missing character".to_owned(),
                Param::EndLine => "Missing end_line".to_owned(),
                Param::EndCharacter => "Missing end_character".to_owned(),
                Param::Query => "Missing query parameter".to_owned(),
                Param::WorkspacePath => "Missing workspace_path".to_owned(),
            },
            ToolError::UnknownTool(name) => {
                let mut text = "Unknown tool: ".to_owned();
                text.append(name.as_str());
                text
            },
        }
    }
}

/// A 64-bit number cut to its low 32 bits.
pub open spec fn low32(n: u64) -> u32 {
    (n % 0x1_0000_0000) as u32
}

/// The text argument `key` of `args`.
pub open spec fn text_arg(args: JsonView, key: Seq<char>, param: Param) -> Result<
    Seq<char>,
    ToolErrorView,
> {
    match args.field(key).as_str() {
        Some(text) => Ok(text),
        None => Err(ToolErrorView::Missing(param)),
    }
}

/// The number argument `key` of `args`, cut to 32 bits.
pub open spec fn number_arg(args: JsonView, key: Seq<char>, param: Param) -> Result<
    u32,
    ToolErrorView,
> {
    match args.field(key).as_u64() {
        Some(n) => Ok(low32(n)),
        None => Err(ToolErrorView::Missing(param)),
    }
}

/// The position that `args` names: `line` and `character`, the first that
/// is missing reported.
pub open spec fn position_arg(args: JsonView) -> Result<(u32, u32), ToolErrorView> {
    match number_arg(args, "line"@, Param::Line) {
        Ok(line) => match number_arg(args, "character"@, Param::Character) {
            Ok(character) => Ok((line, character)),
            Err(e) => Err(e),
        },
        Err(e) => Err(e),
    }
}

/// The range that `args` names: a position, then `end_line` and
/// `end_character`, the first that is missing reported.
pub open spec fn range_arg(args: JsonView) -> Result<(u32, u32, u32, u32), ToolErrorView> {
    match position_arg(args) {
        Ok((line, character)) => match number_arg(args, "end_line"@, Param::EndLine) {
            Ok(end_line) => match number_arg(args, "end_character"@, Param::EndCharacter) {
                Ok(end_character) => Ok((line, character, end_line, end_character)),
                Err(e) => Err(e),
            },
            Err(e) => Err(e),
        },
        Err(e) => Err(e),
    }
}

/// The view of a text that was read, or of the error.
pub open spec fn text_result_view(r: Result<String, ToolError>) -> Result<Seq<char>, ToolErrorView> {
    match r {
        Ok(text) => Ok(text@),
        Err(e) => Err(e@),
    }
}

/// The view of numbers that were read, or of the error.
pub open spec fn value_result_view<T>(r: Result<T, ToolError>) -> Result<T, ToolErrorView> {
    match r {
        Ok(v) => Ok(v),
        Err(e) => Err(e@),
    }
}

fn read_text(args: &Json, key: &str, param: Param) -> (r: Result<String, ToolError>)
    ensures
        text_result_view(r) == text_arg(args@, key@, param),
{
    match args.text_field(key) {
        Some(text) => Ok(text),
        None => Err(ToolError::Missing(param)),
    }
}

fn read_number(args: &Json, key: &str, param: Param) -> (r: Result<u32, ToolError>)
    ensures
        value_result_view(r) == number_arg(args@, key@, param),
{
    match args.field(key).as_u64() {
        Some(n) => Ok((n % 0x1_0000_0000) as u32),
        None => Err(ToolError::Missing(param)),
    }
}

/// The readers of the arguments that tools share.
pub struct ToolParams;

impl ToolParams {
    /// The `file_path` of a call.
    pub fn extract_file_path(args: &Json) -> (r: Result<String, ToolError>)
        ensures
            text_result_view(r) == text_arg(args@, "file_path"@, Param::FilePath),
    {
        read_text(args, "file_path", Param::FilePath)
    }

    /// The `line` and `character` of a call.
    pub fn extract_position(args: &Json) -> (r: Result<(u32, u32), ToolError>)
        ensures
            value_result_view(r) == position_arg(args@),
    {
        let line = match read_number(args, "line", Param::Line) {
            Ok(line) => line,
            Err(e) => {
                return Err(e);
            },
        };
        let character = match read_number(args, "character", Param::Character) {
            Ok(character) => character,
            Err(e) => {
                return Err(e);
            },
        };
        Ok((line, character))
    }

    /// The `line`, `character`, `end_line` and `end_character` of a call.
    pub fn extract_range(args: &Json) -> (r: Result<(u32, u32, u32, u32), ToolError>)
        ensures
            value_result_view(r) == range_arg(args@),
    {
        let (line, character) = match ToolParams::extract_position(args) {
            Ok(position) => position,
            Err(e) => {
                return Err(e);
            },
        };
        let end_line = match read_number(args, "end_line", Param::EndLine) {
            Ok(end_line) => end_line,
            Err(e) => {
                return Err(e);
            },
        };
        let end_character = match read_number(args, "end_character", Param::EndCharacter) {
            Ok(end_character) => end_character,
            Err(e) => {
                return Err(e);
            },
        };
        Ok((line, character, end_line, end_character))
    }
}

/// A tool of the interface.
#[derive(Debug, Clone, Copy, PartialEq, Eq, Structural)]
pub enum Tool {
    Hover,
    Definition,
    References,
    Implementation,
    ParentModule,
    IncomingCalls,
    OutgoingCalls,
    InlayHint,
    Completion,
    Symbols,
    WorkspaceSymbol,
    Format,
    CodeActions,
    GetWorkspace,
    SetWorkspace,
    Diagnostics,
    WorkspaceDiagnostics,
}

/// The tool that goes by `name`.
pub open spec fn tool_named(name: Seq<char>) -> Option<Tool> {
    if name == "rust_analyzer_hover"@ {
        Some(Tool::Hover)
    } else if name == "rust_analyzer_definition"@ {
        Some(Tool::Definition)
    } else if name == "rust_analyzer_references"@ {
        Some(Tool::References)
    } else if name == "rust_analyzer_implementation"@ {
        Some(Tool::Implementation)
    } else if name == "rust_analyzer_parent_module"@ {
        Some(Tool::ParentModule)
    } else if name == "rust_analyzer_incoming_calls"@ {
        Some(Tool::IncomingCalls)
    } else if name == "rust_analyzer_outgoing_calls"@ {
        Some(Tool::OutgoingCalls)
    } else if name == "rust_analyzer_inlay_hint"@ {
        Some(Tool::InlayHint)
    } else if name == "rust_analyzer_completion"@ {
        Some(Tool::Completion)
    } else if name == "rust_analyzer_symbols"@ {
        Some(Tool::Symbols)
    } else if name == "rust_analyzer_workspace_symbol"@ {
        Some(Tool::WorkspaceSymbol)
    } else if name == "rust_analyzer_format"@ {
        Some(Tool::Format)
    } else if name == "rust_analyzer_code_actions"@ {
        Some(Tool::CodeActions)
    } else if name == "rust_analyzer_get_workspace"@ {
        Some(Tool::GetWorkspace)
    } else if name == "rust_analyzer_set_workspace"@ {
        Some(Tool::SetWorkspace)
    } else if name == "rust_analyzer_diagnostics"@ {
        Some(Tool::Diagnostics)
    } else if name == "rust_analyzer_workspace_diagnostics"@ {
        Some(Tool::WorkspaceDiagnostics)
    } else {
        None
    }
}

/// Finds the tool that goes by `name`.
pub fn find_tool(name: &str) -> (tool: Option<Tool>)
    ensures
        tool == tool_named(name@),
{
    if str_eq(name, "rust_analyzer_hover") {
        Some(Tool::Hover)
    } else if str_eq(name, "rust_analyzer_definition") {
        Some(Tool::Definition)
    } else if str_eq(name, "rust_analyzer_references") {
        Some(Tool::References)
    } else if str_eq(name, "rust_analyzer_implementation") {
        Some(Tool::Implementation)
    } else if str_eq(name, "rust_analyzer_parent_module") {
        Some(Tool::ParentModule)
    } else if str_eq(name, "rust_analyzer_incoming_calls") {
        Some(Tool::IncomingCalls)
    } else if str_eq(name, "rust_analyzer_outgoing_calls") {
        Some(Tool::OutgoingCalls)
    } else if str_eq(name, "rust_analyzer_inlay_hint") {
        Some(Tool::InlayHint)
    } else if str_eq(name, "rust_analyzer_completion") {
        Some(Tool::Completion)
    } else if str_eq(name, "rust_analyzer_symbols") {
        Some(Tool::Symbols)
    } else if str_eq(name, "rust_analyzer_workspace_symbol") {
        Some(Tool::WorkspaceSymbol)
    } else if str_eq(name, "rust_analyzer_format") {
        Some(Tool::Format)
    } else if str_eq(name, "rust_analyzer_code_actions") {
        Some(Tool::CodeActions)
    } else if str_eq(name, "rust_analyzer_get_workspace") {
        Some(Tool::GetWorkspace)
    } else if str_eq(name, "rust_analyzer_set_workspace") {
        Some(Tool::SetWorkspace)
    } else if str_eq(name, "rust_analyzer_diagnostics") {
        Some(Tool::Diagnostics)
    } else if str_eq(name, "rust_analyzer_workspace_diagnostics") {
        Some(Tool::WorkspaceDiagnostics)
    } else {
        None
    }
}

/// A tool call with its arguments read.
#[derive(Debug, PartialEq, Eq)]
pub struct ToolCall {
    pub tool: Tool,
    /// The file the call is about; empty for a tool that is about none.
    pub file_path: String,
    /// The position or range the call is about; zero where the tool takes
    /// none, and the end at zero where it takes a position only.
    pub span: Span,
    /// The query of a symbol search, or the path of the workspace to set;
    /// empty for the other tools.
    pub text: String,
}

/// The mathematical value of a [`ToolCall`].
pub struct ToolCallView {
    pub tool: Tool,
    pub file_path: Seq<char>,
    pub span: Span,
    pub text: Seq<char>,
}

impl View for ToolCall {
    type V = ToolCallView;

    open spec fn view(&self) -> ToolCallView {
        ToolCallView {
            tool: self.tool,
            file_path: self.file_path@,
            span: self.span,
            text: self.text@,
        }
    }
}

/// Which arguments a tool takes.
#[derive(Debug, Clone, Copy, PartialEq, Eq, Structural)]
pub enum Arity {
    /// No arguments.
    Nothing,
    /// A file.
    File,
    /// A file and a position in it.
    FilePosition,
    /// A file and a range in it.
    FileRange,
    /// The query of a symbol search.
    Query,
    /// The path of a workspace.
    WorkspacePath,
}

/// The arguments that `tool` takes.
pub open spec fn arity_of(tool: Tool) -> Arity {
    match tool {
        Tool::Hover => Arity::FilePosition,
        Tool::Definition => Arity::FilePosition,
        Tool::References => Arity::FilePosition,
        Tool::Implementation => Arity::FilePosition,
        Tool::ParentModule => Arity::FilePosition,
        Tool::IncomingCalls => Arity::FilePosition,
        Tool::OutgoingCalls => Arity::FilePosition,
        Tool::Completion => Arity::FilePosition,
        Tool::InlayHint => Arity::FileRange,
        Tool::CodeActions => Arity::FileRange,
        Tool::Symbols => Arity::File,
        Tool::Format => Arity::File,
        Tool::Diagnostics => Arity::File,
        Tool::WorkspaceSymbol => Arity::Query,
        Tool::SetWorkspace => Arity::WorkspacePath,
        Tool::GetWorkspace => Arity::Nothing,
        Tool::WorkspaceDiagnostics => Arity::Nothing,
    }
}

/// A span with every coordinate at zero.
pub open spec fn no_span() -> Span {
    Span { start_line: 0, start_character: 0, end_line: 0, end_character: 0 }
}

/// The call of `tool` with the arguments `args`: the file first, then the
/// position, then the end of the range; the first argument that is missing
/// is reported.
pub open spec fn call_of(tool: Tool, args: JsonView) -> Result<ToolCallView, ToolErrorView> {
    match arity_of(tool) {
        Arity::Nothing => Ok(
            ToolCallView { tool, file_path: Seq::empty(), span: no_span(), text: Seq::empty() },
        ),
        Arity::Query => match text_arg(args, "query"@, Param::Query) {
            Ok(text) => Ok(
                ToolCallView { tool, file_path: Seq::empty(), span: no_span(), text },
            ),
            Err(e) => Err(e),
        },
        Arity::WorkspacePath => match text_arg(args, "workspace_path"@, Param::WorkspacePath) {
            Ok(text) => Ok(
                ToolCallView { tool, file_path: Seq::empty(), span: no_span(), text },
            ),
            Err(e) => Err(e),
        },
        Arity::File => match text_arg(args, "file_path"@, Param::FilePath) {
            Ok(file_path) => Ok(
                ToolCallView { tool, file_path, span: no_span(), text: Seq::empty() },
            ),
            Err(e) => Err(e),
        },
        Arity::FilePosition => match text_arg(args, "file_path"@, Param::FilePath) {
            Ok(file_path) => match position_arg(args) {
                Ok((line, character)) => Ok(
                    ToolCallView {
                        tool,
                        file_path,
                        span: Span {
                            start_line: line,
                            start_character: character,
                            end_line: 0,
                            end_character: 0,
                        },
                        text: Seq::empty(),
                    },
                ),
                Err(e) => Err(e),
            },
            Err(e) => Err(e),
        },
        Arity::FileRange => match text_arg(args, "file_path"@, Param::FilePath) {
            Ok(file_path) => match range_arg(args) {
                Ok((line, character, end_line, end_character)) => Ok(
                    ToolCallView {
                        tool,
                        file_path,
                        span: Span {
                            start_line: line,
                            start_character: character,
                            end_line,
                            end_character,
                        },
                        text: Seq::empty(),
                    },
                ),
                Err(e) => Err(e),
            },
            Err(e) => Err(e),
        },
    }
}

/// The call that the tool name `name` and the arguments `args` make: an
/// unknown name is reported before any argument is read.
pub open spec fn parsed(name: Seq<char>, args: JsonView) -> Result<ToolCallView, ToolErrorView> {
    match tool_named(name) {
        Some(tool) => call_of(tool, args),
        None => Err(ToolErrorView::UnknownTool(name)),
    }
}

/// The view of a call that was read, or of the error.
pub open spec fn call_result_view(r: Result<ToolCall, ToolError>) -> Result<
    ToolCallView,
    ToolErrorView,
> {
    match r {
        Ok(call) => Ok(call@),
        Err(e) => Err(e@),
    }
}

/// Whether the tool polls until its result is ready: the tools whose
/// results depend on the index of the backend.
pub open spec fn retries(tool: Tool) -> bool {
    tool == Tool::Hover || tool == Tool::Definition || tool == Tool::References || tool
        == Tool::Implementation || tool == Tool::IncomingCalls || tool == Tool::OutgoingCalls
        || tool == Tool::WorkspaceSymbol
}

/// The short form that the results of the tool are given.
pub open spec fn shape_of(tool: Tool) -> Option<Shape> {
    match tool {
        Tool::Definition => Some(Shape::Definition),
        Tool::References => Some(Shape::Reference),
        Tool::Implementation => Some(Shape::Implementation),
        Tool::ParentModule => Some(Shape::ParentModule),
        Tool::IncomingCalls => Some(Shape::IncomingCall),
        Tool::OutgoingCalls => Some(Shape::OutgoingCall),
        Tool::InlayHint => Some(Shape::InlayHint),
        Tool::WorkspaceSymbol => Some(Shape::WorkspaceSymbol),
        _ => None,
    }
}

impl Tool {
    /// The arguments that the tool takes.
    pub fn arity(&self) -> (arity: Arity)
        ensures
            arity == arity_of(*self),
    {
        match self {
            Tool::Hover => Arity::FilePosition,
            Tool::Definition => Arity::FilePosition,
            Tool::References => Arity::FilePosition,
            Tool::Implementation => Arity::FilePosition,
            Tool::ParentModule => Arity::FilePosition,
            Tool::IncomingCalls => Arity::FilePosition,
            Tool::OutgoingCalls => Arity::FilePosition,
            Tool::Completion => Arity::FilePosition,
            Tool::InlayHint => Arity::FileRange,
            Tool::CodeActions => Arity::FileRange,
            Tool::Symbols => Arity::File,
            Tool::Format => Arity::File,
            Tool::Diagnostics => Arity::File,
            Tool::WorkspaceSymbol => Arity::Query,
            Tool::SetWorkspace => Arity::WorkspacePath,
            Tool::GetWorkspace => Arity::Nothing,
            Tool::WorkspaceDiagnostics => Arity::Nothing,
        }
    }

    /// Whether the tool polls until its result is ready.
    pub fn retries(&self) -> (yes: bool)
        ensures
            yes == retries(*self),
    {
        match self {
            Tool::Hover => true,
            Tool::Definition => true,
            Tool::References => true,
            Tool::Implementation => true,
            Tool::IncomingCalls => true,
            Tool::OutgoingCalls => true,
            Tool::WorkspaceSymbol => true,
            _ => false,
        }
    }

    /// The short form that the result of the tool is given, if it is given
    /// one.
    pub fn shape(&self) -> (shape: Option<Shape>)
        ensures
            shape == shape_of(*self),
    {
        match self {
            Tool::Definition => Some(Shape::Definition),
            Tool::References => Some(Shape::Reference),
            Tool::Implementation => Some(Shape::Implementation),
            Tool::ParentModule => Some(Shape::ParentModule),
            Tool::IncomingCalls => Some(Shape::IncomingCall),
            Tool::OutgoingCalls => Some(Shape::OutgoingCall),
            Tool::InlayHint => Some(Shape::InlayHint),
            Tool::WorkspaceSymbol => Some(Shape::WorkspaceSymbol),
            _ => None,
        }
    }
}

/// Reads the call of `tool` from `args`.
pub fn read_call(tool: Tool, args: &Json) -> (r: Result<ToolCall, ToolError>)
    ensures
        call_result_view(r) == call_of(tool, args@),
{
    let none = Span { start_line: 0, start_character: 0, end_line: 0, end_character: 0 };
    match tool.arity() {
        Arity::Nothing => Ok(
            ToolCall { tool, file_path: String::new(), span: none, text: String::new() },
        ),
        Arity::Query => match read_text(args, "query", Param::Query) {
            Ok(text) => Ok(ToolCall { tool, file_path: String::new(), span: none, text }),
            Err(e) => Err(e),
        },
        Arity::WorkspacePath => match read_text(args, "workspace_path", Param::WorkspacePath) {
            Ok(text) => Ok(ToolCall { tool, file_path: String::new(), span: none, text }),
            Err(e) => Err(e),
        },
        Arity::File => match ToolParams::extract_file_path(args) {
            Ok(file_path) => Ok(ToolCall { tool, file_path, span: none, text: String::new() }),
            Err(e) => Err(e),
        },
        Arity::FilePosition => {
            let file_path = match ToolParams::extract_file_path(args) {
                Ok(file_path) => file_path,
                Err(e) => {
                    return Err(e);
                },
            };
            match ToolParams::extract_position(args) {
                Ok((line, character)) => Ok(
                    ToolCall {
                        tool,
                        file_path,
                        span: Span {
                            start_line: line,
                            start_character: character,
                            end_line: 0,
                            end_character: 0,
                        },
                        text: String::new(),
                    },
                ),
                Err(e) => Err(e),
            }
        },
        Arity::FileRange => {
            let file_path = match ToolParams::extract_file_path(args) {
                Ok(file_path) => file_path,
                Err(e) => {
                    return Err(e);
                },
            };
            match ToolParams::extract_range(args) {
                Ok((line, character, end_line, end_character)) => Ok(
                    ToolCall {
                        tool,
                        file_path,
                        span: Span {
                            start_line: line,
                            start_character: character,
                            end_line,
                            end_character,
                        },
                        text: String::new(),
                    },
                ),
                Err(e) => Err(e),
            }
        },
    }
}

/// Reads a tool call from its name and its arguments.
pub fn parse_tool_call(tool_name: &str, args: &Json) -> (r: Result<ToolCall, ToolError>)
    ensures
        call_result_view(r) == parsed(tool_name@, args@),
{
    match find_tool(tool_name) {
        Some(tool) => read_call(tool, args),
        None => Err(ToolError::UnknownTool(tool_name.to_owned())),
    }
}

/// The call hierarchy item to expand, from the outcome of the preparation:
/// the first element of a list that is not empty. Anything else is a poll
/// without an item: a result that is no such list counts as empty, and a
/// failed request as the retry judges it.
pub open spec fn prepared_item(outcome: PollView) -> Result<JsonView, JudgedView> {
    match outcome {
        Ok(JsonView::Array(items)) => if items.len() > 0 {
            Ok(items[0])
        } else {
            Err(JudgedView::NotReady(LastObservedView::Empty))
        },
        Ok(_) => Err(JudgedView::NotReady(LastObservedView::Empty)),
        Err(e) => Err(judged_failure(e)),
    }
}

/// Picks the call hierarchy item to expand from the outcome of the
/// preparation.
pub fn first_item(prepared: Result<Json, RequestError>) -> (r: Result<Json, Poll>)
    ensures
        match r {
            Ok(item) => prepared_item(poll_view(prepared)) == Ok::<JsonView, JudgedView>(item@),
            Err(poll) => prepared_item(poll_view(prepared)) == Err::<JsonView, JudgedView>(
                poll@,
            ),
        },
{
    match prepared {
        Ok(Json::Array(items)) => {
            if items.len() > 0 {
                Ok(items[0].clone())
            } else {
                Err(Poll::NotReady(LastObserved::Empty))
            }
        },
        Ok(_) => Err(Poll::NotReady(LastObserved::Empty)),
        Err(e) => Err(judge_failure(e)),
    }
}

/// How long the diagnostics of a file that is expected to have some are
/// polled for, in milliseconds.
pub const DIAGNOSTICS_POLL_TIMEOUT_MILLIS: u64 = 8000;

/// The pause between two polls for diagnostics, in milliseconds.
pub const DIAGNOSTICS_POLL_INTERVAL_MILLIS: u64 = 500;

/// The wait before the one lookup of the diagnostics of any other file, in
/// milliseconds.
pub const DIAGNOSTICS_SETTLE_MILLIS: u64 = 2000;

/// Whether `path` names a file that is expected to have diagnostics.
pub open spec fn expects_diagnostics(path: Seq<u8>) -> bool {
    contains_bytes(path, "diagnostics_test"@.map_values(|c: char| c as u8)) || contains_bytes(
        path,
        "simple_error"@.map_values(|c: char| c as u8),
    )
}

/// Whether the diagnostics of `file_path` are polled for: they are for the
/// files that are expected to have some.
pub fn should_poll_diagnostics(file_path: &str) -> (yes: bool)
    ensures
        yes == expects_diagnostics(file_path.spec_bytes()),
{
    proof {
        reveal_strlit("diagnostics_test");
        reveal_strlit("simple_error");
        vstd::string::is_ascii_spec_bytes("diagnostics_test");
        vstd::string::is_ascii_spec_bytes("simple_error");
        assert("diagnostics_test".spec_bytes() =~= "diagnostics_test"@.map_values(
            |c: char| c as u8,
        ));
        assert("simple_error".spec_bytes() =~= "simple_error"@.map_values(|c: char| c as u8));
    }
    text_contains(file_path, "diagnostics_test") || text_contains(file_path, "simple_error")
}

/// Whether a lookup found diagnostics: a list that is not empty.
pub open spec fn has_diagnostics(result: JsonView) -> bool {
    match result {
        JsonView::Array(items) => items.len() > 0,
        _ => false,
    }
}

/// Whether the poll for diagnostics goes on after a lookup gave `result`
/// and the pause that followed ended `elapsed_millis` after the first
/// lookup began: it does until diagnostics are found or the time is up.
pub fn keep_polling_diagnostics(result: &Json, elapsed_millis: u64) -> (go_on: bool)
    ensures
        go_on == (!has_diagnostics(result@) && elapsed_millis < DIAGNOSTICS_POLL_TIMEOUT_MILLIS),
{
    let found = match result {
        Json::Array(items) => items.len() > 0,
        _ => false,
    };
    !found && elapsed_millis < DIAGNOSTICS_POLL_TIMEOUT_MILLIS
}

} // verus!
