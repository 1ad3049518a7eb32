//! The run of one tool call against the backend: which query to put next,
//! when to sleep, and what the call ends with. The caller sends the queries
//! and sleeps; the run decides.

use vstd::prelude::*;
use crate::error::{
    request_error_text, retry_error_text, RequestError, RequestErrorView, RetryError,
    RetryErrorView,
};
use crate::json::{Json, JsonView};
use crate::diagnostics::{filter_diagnostics_in_range, filtered};
use crate::lsp::{
    code_action_params, document_params, formatting_params, inlay_hint_params, item_params,
    position_params, references_params, symbol_params, Query, QueryView,
};
use crate::retry::{
    ended_error, judge, judged, poll_view, settle, settled, state_after, step_for, JudgedView,
    Poll, PollView, ReadinessRetry, RetryPolicy, RetryState, RetryStep, RetryStepView,
};
use crate::simplify::{simplified, simplify, Shape};
use crate::tools::{
    first_item, prepared_item, retries, shape_of, Tool, ToolCall, ToolCallView,
};

verus! {

/// Where a run stands.
#[derive(Debug, Clone, Copy, PartialEq, Eq, Structural)]
pub enum Stage {
    /// The first query of a poll is out.
    Asking,
    /// The expansion of a call hierarchy item is out.
    Expanding,
    /// The run sleeps between two polls.
    Sleeping,
    /// The run is over.
    Ended,
}

/// Why a run ended without a result.
#[derive(Debug, PartialEq, Eq)]
pub enum RunError {
    /// The query of a tool that does not retry failed.
    Request(RequestError),
    /// The retry ended without a ready result.
    Retry(RetryError),
    /// The run was told of something it did not wait for.
    OutOfTurn,
}

/// The mathematical value of a [`RunError`].
pub enum RunErrorView {
    Request(RequestErrorView),
    Retry(RetryErrorView),
    OutOfTurn,
}

impl View for RunError {
    type V = RunErrorView;

    open spec fn view(&self) -> RunErrorView {
        match self {
            RunError::Request(e) => RunErrorView::Request(e@),
            RunError::Retry(e) => RunErrorView::Retry(e@),
            RunError::OutOfTurn => RunErrorView::OutOfTurn,
        }
    }
}

/// The text of a run error.
pub open spec fn run_error_text(error: RunErrorView) -> Seq<char> {
    match error {
        RunErrorView::Request(e) => request_error_text(e),
        RunErrorView::Retry(e) => retry_error_text(e),
        RunErrorView::OutOfTurn => "The run was told of something it did not wait for"@,
    }
}

impl RunError {
    /// The message for the caller.
    pub fn message(&self) -> (text: String)
        ensures
            text@ == run_error_text(self@),
    {
        match self {
            RunError::Request(e) => e.message(),
            RunError::Retry(e) => e.message(),
            RunError::OutOfTurn => "The run was told of something it did not wait for".to_owned(),
        }
    }
}

/// What the caller of a run does next.
#[derive(Debug, PartialEq, Eq)]
pub enum RunAction {
    /// Put this query to the backend and report its outcome.
    Ask(Query),
    /// Sleep this long, then wake the run.
    Sleep { millis: u64 },
    /// The call ends with this result.
    Finish(Json),
    /// The call ends with this failure.
    Fail(RunError),
}

/// The mathematical value of a [`RunAction`].
pub enum RunActionView {
    Ask(QueryView),
    Sleep { millis: u64 },
    Finish(JsonView),
    Fail(RunErrorView),
}

impl View for RunAction {
    type V = RunActionView;

    open spec fn view(&self) -> RunActionView {
        match self {
            RunAction::Ask(q) => RunActionView::Ask(q@),
            RunAction::Sleep { millis } => RunActionView::Sleep { millis: *millis },
            RunAction::Finish(v) => RunActionView::Finish(v@),
            RunAction::Fail(e) => RunActionView::Fail(e@),
        }
    }
}

/// The state of a run.
pub struct RunView {
    pub tool: Tool,
    pub first: QueryView,
    pub stage: Stage,
    pub policy: RetryPolicy,
    pub retry: RetryState,
    pub waited: bool,
}

/// Whether the tool expands a call hierarchy: it first asks for the item at
/// a position and then for the calls of that item.
pub open spec fn expands(tool: Tool) -> bool {
    tool == Tool::IncomingCalls || tool == Tool::OutgoingCalls
}

/// A result in the short form of the tool; as it is for a tool without one.
pub open spec fn shortened(tool: Tool, result: JsonView) -> JsonView {
    match shape_of(tool) {
        Some(shape) => simplified(shape, result),
        None => result,
    }
}

/// The query that expands the call hierarchy item `item` for the tool.
pub open spec fn expansion(tool: Tool, item: JsonView) -> QueryView {
    QueryView {
        method: if tool == Tool::IncomingCalls {
            "callHierarchy/incomingCalls"@
        } else {
            "callHierarchy/outgoingCalls"@
        },
        params: item_params(item),
        document: None,
    }
}

/// How the outcome of the first query of a poll is judged. The symbols of a
/// workspace search are shortened first and judged in their short form;
/// every other result is judged as it came.
pub open spec fn first_judged(tool: Tool, outcome: PollView) -> JudgedView {
    if tool == Tool::WorkspaceSymbol {
        match outcome {
            Ok(result) => judged(Ok(simplified(Shape::WorkspaceSymbol, result))),
            Err(e) => judged(Err::<JsonView, RequestErrorView>(e)),
        }
    } else {
        judged(outcome)
    }
}

/// What a ready result ends the call with: its short form, unless it was
/// shortened before it was judged.
pub open spec fn finished(tool: Tool, result: JsonView) -> JsonView {
    if tool == Tool::WorkspaceSymbol {
        result
    } else {
        shortened(tool, result)
    }
}

/// The run and the action after a judged poll.
pub open spec fn polled(run: RunView, poll: JudgedView, elapsed_millis: u64) -> (
    RunView,
    RunActionView,
) {
    let step = if run.retry == RetryState::Pending {
        step_for(run.policy, poll, elapsed_millis)
    } else {
        RetryStepView::Fail(ended_error(run.retry))
    };
    let retry = if run.retry == RetryState::Pending {
        state_after(step)
    } else {
        run.retry
    };
    match step {
        RetryStepView::Return(value) => (
            RunView { stage: Stage::Ended, retry, ..run },
            RunActionView::Finish(finished(run.tool, value)),
        ),
        RetryStepView::Sleep { millis } => (
            RunView { stage: Stage::Sleeping, retry, waited: true, ..run },
            RunActionView::Sleep { millis },
        ),
        RetryStepView::Fail(error) => (
            RunView { stage: Stage::Ended, retry, ..run },
            RunActionView::Fail(RunErrorView::Retry(error)),
        ),
    }
}

/// The run and the action after the outcome of the query that was out
/// arrived, `elapsed_millis` after the run began.
///
/// While the first query of a poll is out: a tool that expands a call
/// hierarchy goes on to the expansion of the first item, or counts the poll
/// as not ready where there is none; a tool that retries has the outcome
/// judged by readiness; any other tool ends with the short form of the
/// result or with the failure of the request. While an expansion is out,
/// every result of it counts as ready. A run that waits for no outcome
/// answers that it was told out of turn, and stays as it is.
pub open spec fn after_outcome(run: RunView, outcome: PollView, elapsed_millis: u64) -> (
    RunView,
    RunActionView,
) {
    match run.stage {
        Stage::Asking => if expands(run.tool) {
            match prepared_item(outcome) {
                Ok(item) => (
                    RunView { stage: Stage::Expanding, ..run },
                    RunActionView::Ask(expansion(run.tool, item)),
                ),
                Err(poll) => polled(run, poll, elapsed_millis),
            }
        } else if retries(run.tool) {
            polled(run, first_judged(run.tool, outcome), elapsed_millis)
        } else {
            match outcome {
                Ok(result) => (
                    RunView { stage: Stage::Ended, ..run },
                    RunActionView::Finish(shortened(run.tool, result)),
                ),
                Err(e) => (
                    RunView { stage: Stage::Ended, ..run },
                    RunActionView::Fail(RunErrorView::Request(e)),
                ),
            }
        },
        Stage::Expanding => polled(run, settled(outcome), elapsed_millis),
        _ => (run, RunActionView::Fail(RunErrorView::OutOfTurn)),
    }
}

/// The run and the action after the sleep between two polls ended: the
/// first query is put again. A run that does not sleep answers that it was
/// told out of turn, and stays as it is.
pub open spec fn after_wake(run: RunView) -> (RunView, RunActionView) {
    if run.stage == Stage::Sleeping {
        (RunView { stage: Stage::Asking, ..run }, RunActionView::Ask(run.first))
    } else {
        (run, RunActionView::Fail(RunErrorView::OutOfTurn))
    }
}

/// The run after it was cancelled: it is over, and a retry that was pending
/// is cancelled.
pub open spec fn after_cancel(run: RunView) -> RunView {
    RunView {
        stage: Stage::Ended,
        retry: if run.retry == RetryState::Pending {
            RetryState::Cancelled
        } else {
            run.retry
        },
        ..run
    }
}

/// The run of one tool call.
#[derive(Debug)]
pub struct ToolRun {
    tool: Tool,
    first: Query,
    stage: Stage,
    retry: ReadinessRetry,
}

impl View for ToolRun {
    type V = RunView;

    closed spec fn view(&self) -> RunView {
        RunView {
            tool: self.tool,
            first: self.first@,
            stage: self.stage,
            policy: self.retry.policy(),
            retry: self.retry.state(),
            waited: self.retry.waiting(),
        }
    }
}

impl ToolRun {
    /// Begins the run of `tool` with the query `first`, which is the first
    /// thing to ask.
    pub fn begin(tool: Tool, first: Query, policy: RetryPolicy) -> (started: (Self, RunAction))
        ensures
            started.0@ == (RunView {
                tool,
                first: first@,
                stage: Stage::Asking,
                policy,
                retry: RetryState::Pending,
                waited: false,
            }),
            started.1@ == RunActionView::Ask(first@),
    {
        let ask = first.clone();
        (
            ToolRun { tool, first, stage: Stage::Asking, retry: ReadinessRetry::new(policy) },
            RunAction::Ask(ask),
        )
    }

    /// Where the run stands.
    pub fn stage(&self) -> (stage: Stage)
        ensures
            stage == self@.stage,
    {
        self.stage
    }

    /// Whether the run has had to sleep.
    pub fn has_waited(&self) -> (waited: bool)
        ensures
            waited == self@.waited,
    {
        self.retry.has_waited()
    }

    fn shorten(&self, result: Json) -> (short: Json)
        ensures
            short@ == shortened(self.tool, result@),
    {
        match self.tool.shape() {
            Some(shape) => simplify(shape, result),
            None => result,
        }
    }

    fn on_poll(&mut self, poll: Poll, elapsed_millis: u64) -> (action: RunAction)
        requires
            old(self).stage == Stage::Asking || old(self).stage == Stage::Expanding,
        ensures
            (final(self)@, action@) == polled(old(self)@, poll@, elapsed_millis),
    {
        match self.retry.on_poll(poll, elapsed_millis) {
            RetryStep::Return(value) => {
                self.stage = Stage::Ended;
                match self.tool {
                    Tool::WorkspaceSymbol => RunAction::Finish(value),
                    _ => RunAction::Finish(self.shorten(value)),
                }
            },
            RetryStep::Sleep { millis } => {
                self.stage = Stage::Sleeping;
                RunAction::Sleep { millis }
            },
            RetryStep::Fail(error) => {
                self.stage = Stage::Ended;
                RunAction::Fail(RunError::Retry(error))
            },
        }
    }

    /// Takes the outcome of the query that was out, which arrived
    /// `elapsed_millis` after the run began, and says what to do next.
    pub fn on_outcome(&mut self, outcome: Result<Json, RequestError>, elapsed_millis: u64) -> (action:
        RunAction)
        ensures
            (final(self)@, action@) == after_outcome(
                old(self)@,
                poll_view(outcome),
                elapsed_millis,
            ),
    {
        match self.stage {
            Stage::Asking => {
                match self.tool {
                    Tool::IncomingCalls => match first_item(outcome) {
                        Ok(item) => {
                            self.stage = Stage::Expanding;
                            RunAction::Ask(Query::IncomingCalls { item })
                        },
                        Err(poll) => self.on_poll(poll, elapsed_millis),
                    },
                    Tool::OutgoingCalls => match first_item(outcome) {
                        Ok(item) => {
                            self.stage = Stage::Expanding;
                            RunAction::Ask(Query::OutgoingCalls { item })
                        },
                        Err(poll) => self.on_poll(poll, elapsed_millis),
                    },
                    Tool::WorkspaceSymbol => {
                        let short = match outcome {
                            Ok(result) => Ok(simplify(Shape::WorkspaceSymbol, result)),
                            Err(e) => Err(e),
                        };
                        self.on_poll(judge(short), elapsed_millis)
                    },
                    _ => {
                        if self.tool.retries() {
                            self.on_poll(judge(outcome), elapsed_millis)
                        } else {
                            self.stage = Stage::Ended;
                            match outcome {
                                Ok(result) => RunAction::Finish(self.shorten(result)),
                                Err(e) => RunAction::Fail(RunError::Request(e)),
                            }
                        }
                    },
                }
            },
            Stage::Expanding => self.on_poll(settle(outcome), elapsed_millis),
            _ => RunAction::Fail(RunError::OutOfTurn),
        }
    }

    /// Wakes the run after the sleep between two polls: the first query is
    /// to be put again.
    pub fn on_wake(&mut self) -> (action: RunAction)
        ensures
            (final(self)@, action@) == after_wake(old(self)@),
    {
        match self.stage {
            Stage::Sleeping => {
                self.stage = Stage::Asking;
                RunAction::Ask(self.first.clone())
            },
            _ => RunAction::Fail(RunError::OutOfTurn),
        }
    }

    /// Cancels the run, as the teardown of its session does.
    pub fn cancel(&mut self)
        ensures
            final(self)@ == after_cancel(old(self)@),
    {
        self.retry.cancel();
        self.stage = Stage::Ended;
    }
}

/// The first query of the run of a tool call about the document `uri`,
/// where `diagnostics` is what is known of the document. `None` for the
/// calls that are not answered by a run: those about the workspace, and
/// the lookup of diagnostics.
pub open spec fn first_query_of(call: ToolCallView, uri: Seq<char>, diagnostics: JsonView) -> Option<
    QueryView,
> {
    let at_position = position_params(uri, call.span.start_line, call.span.start_character);
    let about = |method: Seq<char>, params: JsonView|
        Some(QueryView { method, params, document: Some(uri) });
    match call.tool {
        Tool::Hover => about("textDocument/hover"@, at_position),
        Tool::Definition => about("textDocument/definition"@, at_position),
        Tool::References => about(
            "textDocument/references"@,
            references_params(uri, call.span.start_line, call.span.start_character),
        ),
        Tool::Implementation => about("textDocument/implementation"@, at_position),
        Tool::ParentModule => about("experimental/parentModule"@, at_position),
        Tool::IncomingCalls => about("textDocument/prepareCallHierarchy"@, at_position),
        Tool::OutgoingCalls => about("textDocument/prepareCallHierarchy"@, at_position),
        Tool::Completion => about("textDocument/completion"@, at_position),
        Tool::InlayHint => about("textDocument/inlayHint"@, inlay_hint_params(uri, call.span)),
        Tool::Symbols => Some(
            QueryView {
                method: "textDocument/documentSymbol"@,
                params: document_params(uri),
                document: None,
            },
        ),
        Tool::Format => Some(
            QueryView {
                method: "textDocument/formatting"@,
                params: formatting_params(uri),
                document: None,
            },
        ),
        Tool::CodeActions => about(
            "textDocument/codeAction"@,
            code_action_params(
                uri,
                call.span,
                filtered(diagnostics, call.span.start_line, call.span.end_line),
            ),
        ),
        Tool::WorkspaceSymbol => Some(
            QueryView {
                method: "workspace/symbol"@,
                params: symbol_params(call.text),
                document: None,
            },
        ),
        Tool::GetWorkspace => None,
        Tool::SetWorkspace => None,
        Tool::Diagnostics => None,
        Tool::WorkspaceDiagnostics => None,
    }
}

/// Builds the first query of the run of `call` about the document `uri`.
pub fn first_query(call: &ToolCall, uri: &str, diagnostics: &Json) -> (query: Option<Query>)
    ensures
        match query {
            Some(q) => first_query_of(call@, uri@, diagnostics@) == Some(q@),
            None => first_query_of(call@, uri@, diagnostics@) is None,
        },
{
    let line = call.span.start_line;
    let character = call.span.start_character;
    match call.tool {
        Tool::Hover => Some(Query::Hover { uri: uri.to_owned(), line, character }),
        Tool::Definition => Some(Query::Definition { uri: uri.to_owned(), line, character }),
        Tool::References => Some(Query::References { uri: uri.to_owned(), line, character }),
        Tool::Implementation => Some(Query::Implementation { uri: uri.to_owned(), line, character }),
        Tool::ParentModule => Some(Query::ParentModule { uri: uri.to_owned(), line, character }),
        Tool::IncomingCalls => Some(
            Query::PrepareCallHierarchy { uri: uri.to_owned(), line, character },
        ),
        Tool::OutgoingCalls => Some(
            Query::PrepareCallHierarchy { uri: uri.to_owned(), line, character },
        ),
        Tool::Completion => Some(Query::Completion { uri: uri.to_owned(), line, character }),
        Tool::InlayHint => Some(Query::InlayHints { uri: uri.to_owned(), span: call.span }),
        Tool::Symbols => Some(Query::DocumentSymbols { uri: uri.to_owned() }),
        Tool::Format => Some(Query::Formatting { uri: uri.to_owned() }),
        Tool::CodeActions => Some(
            Query::CodeActions {
                uri: uri.to_owned(),
                span: call.span,
                diagnostics: filter_diagnostics_in_range(
                    diagnostics,
                    call.span.start_line,
                    call.span.end_line,
                ),
            },
        ),
        Tool::WorkspaceSymbol => Some(Query::WorkspaceSymbol { query: call.text.clone() }),
        Tool::GetWorkspace => None,
        Tool::SetWorkspace => None,
        Tool::Diagnostics => None,
        Tool::WorkspaceDiagnostics => None,
    }
}

} // verus!
