//! The session with one backend process: its state, its pending requests
//! and its caches. The session performs no I/O: it is told what arrived and
//! answers with what to send and which requests to complete.

use vstd::prelude::*;
use crate::diagnostics::{
    filter_diagnostics_in_range, filtered, pull_items, published, pulled_items, DiagnosticsCache,
};
use crate::documents::{
    announced, did_open_message, has_open, opened, DocumentRegistry, OpenDocumentView,
};
use crate::error::{RequestError, RequestErrorView};
use crate::json::{view_items, Json, JsonView};
use crate::lsp::{
    code_action_params, document_of, document_params, formatting_params, inlay_hint_params,
    item_params, method_of, params_of, position_params, references_params, symbol_params,
    workspace_diagnostics_params, Query, Span,
};
use crate::message::{
    classify, classify_message, notification, notification_message, request, request_message,
    response, response_message, Incoming, IncomingView,
};
use crate::notice::{notice_of, parse_notification, Notice, NoticeView};
use crate::progress::{
    begun, ended, indexing, reported, ProgressEntry, ProgressEntryView, ProgressState,
};
use crate::router::{
    can_issue, drained, expired, fresh, issued, lemma_events_keep_numbering,
    lemma_exact_list_is_table, listed, lists_exactly, overdue_among, resolved, well_numbered,
    PendingRequest, PendingView, RequestRouter, RouterEvent, RouterView,
};
use vstd::string::StringExecFns;

verus! {

/// Where a session stands.
#[derive(Debug, Clone, Copy, PartialEq, Eq, Structural)]
pub enum SessionState {
    /// No backend has been started.
    Unattached,
    /// The handshake is under way.
    Initializing,
    /// The backend takes requests.
    Ready,
    /// A shutdown has been requested and not yet acknowledged.
    ShuttingDown,
    /// The session is over.
    Terminated,
}

/// The state of a session.
pub struct ClientView {
    pub state: SessionState,
    pub root: Seq<char>,
    pub router: RouterView,
    pub documents: Seq<OpenDocumentView>,
    pub diagnostics: Map<Seq<char>, Seq<JsonView>>,
    pub progress: Map<Seq<char>, ProgressEntryView>,
    /// The id of the handshake request, while its response is awaited.
    pub handshake: Option<u64>,
    /// The id of the shutdown request, while its response is awaited.
    pub farewell: Option<u64>,
    /// What the backend said it can do, once the handshake is done.
    pub capabilities: JsonView,
}

/// A message to send, and the id of the request it carries.
#[derive(Debug, PartialEq, Eq)]
pub struct Outgoing {
    pub id: u64,
    pub message: Json,
}

/// The mathematical value of an [`Outgoing`].
pub struct OutgoingView {
    pub id: u64,
    pub message: JsonView,
}

impl View for Outgoing {
    type V = OutgoingView;

    open spec fn view(&self) -> OutgoingView {
        OutgoingView { id: self.id, message: self.message@ }
    }
}

/// The session for the workspace `root`, before anything has happened.
pub open spec fn created(root: Seq<char>) -> ClientView {
    ClientView {
        state: SessionState::Unattached,
        root,
        router: fresh(),
        documents: Seq::empty(),
        diagnostics: Map::empty(),
        progress: Map::empty(),
        handshake: None,
        farewell: None,
        capabilities: JsonView::Null,
    }
}

/// The session after it ended: no request waits, no document is open, and
/// the caches are empty.
pub open spec fn terminated(client: ClientView) -> ClientView {
    ClientView {
        state: SessionState::Terminated,
        root: client.root,
        router: drained(client.router),
        documents: Seq::empty(),
        diagnostics: Map::empty(),
        progress: Map::empty(),
        handshake: None,
        farewell: None,
        capabilities: client.capabilities,
    }
}

/// The uri of the workspace root.
pub open spec fn root_uri(root: Seq<char>) -> Seq<char> {
    "file://"@ + root
}

/// The parameters of the handshake request: the workspace root, and what
/// the client can do.
pub open spec fn initialize_params(root: Seq<char>) -> JsonView {
    JsonView::Object(
        seq![
            ("processId"@, JsonView::Null),
            ("rootUri"@, JsonView::String(root_uri(root))),
            (
                "capabilities"@,
                JsonView::Object(
                    seq![
                        (
                            "window"@,
                            JsonView::Object(seq![("workDoneProgress"@, JsonView::Bool(true))]),
                        ),
                    ],
                ),
            ),
        ],
    )
}

/// Whether the session can begin its handshake.
pub open spec fn can_start(client: ClientView) -> bool {
    client.state == SessionState::Unattached && can_issue(client.router)
}

/// The session after `start`: the handshake request waits for its response.
pub open spec fn started(client: ClientView, now: u64) -> ClientView {
    if can_start(client) {
        ClientView {
            state: SessionState::Initializing,
            router: issued(client.router, "initialize"@, now),
            handshake: Some(client.router.next_id),
            ..client
        }
    } else {
        client
    }
}

/// Why the session refuses a request about `document`, if it does: the
/// session must be ready, the document open, and an id left.
pub open spec fn refusal(client: ClientView, document: Option<Seq<char>>) -> Option<
    RequestErrorView,
> {
    if client.state == SessionState::Terminated {
        Some(RequestErrorView::SessionClosed)
    } else if client.state != SessionState::Ready {
        Some(RequestErrorView::NotReady)
    } else if document is Some && !has_open(client.documents, document->Some_0) {
        Some(RequestErrorView::DocumentNotOpen)
    } else if !can_issue(client.router) {
        Some(RequestErrorView::OutOfIds)
    } else {
        None
    }
}

/// The session after it was asked to issue the request `method` about
/// `document`: the request waits, unless it was refused.
pub open spec fn asked(
    client: ClientView,
    method: Seq<char>,
    document: Option<Seq<char>>,
    now: u64,
) -> ClientView {
    if refusal(client, document) is None {
        ClientView { router: issued(client.router, method, now), ..client }
    } else {
        client
    }
}

/// What the caller gets when the session is asked to issue a request: the
/// message to send, with the id that was next, or the refusal.
pub open spec fn answer(
    client: ClientView,
    method: Seq<char>,
    params: JsonView,
    document: Option<Seq<char>>,
) -> Result<OutgoingView, RequestErrorView> {
    match refusal(client, document) {
        Some(error) => Err(error),
        None => Ok(
            OutgoingView {
                id: client.router.next_id,
                message: request_message(client.router.next_id, method, params),
            },
        ),
    }
}

/// The view of what the caller gets when it asks for a request.
pub open spec fn answer_view(r: Result<Outgoing, RequestError>) -> Result<
    OutgoingView,
    RequestErrorView,
> {
    match r {
        Ok(out) => Ok(out@),
        Err(e) => Err(e@),
    }
}

/// The text of an optional string slice.
pub open spec fn text_of_str(s: Option<&str>) -> Option<Seq<char>> {
    match s {
        Some(t) => Some(t@),
        None => None,
    }
}

/// Whether the session takes messages from the backend.
pub open spec fn listening(client: ClientView) -> bool {
    client.state == SessionState::Initializing || client.state == SessionState::Ready
        || client.state == SessionState::ShuttingDown
}

/// The session after it acted on what a notification says.
pub open spec fn noted(client: ClientView, notice: NoticeView) -> ClientView {
    match notice {
        NoticeView::ProgressBegin { token, title, message, percentage } => ClientView {
            progress: begun(client.progress, token, title, message, percentage),
            ..client
        },
        NoticeView::ProgressReport { token, message, percentage } => ClientView {
            progress: reported(client.progress, token, message, percentage),
            ..client
        },
        NoticeView::ProgressEnd { token } => ClientView {
            progress: ended(client.progress, token),
            ..client
        },
        NoticeView::Diagnostics { uri, diagnostics } => ClientView {
            diagnostics: published(client.diagnostics, uri, diagnostics),
            ..client
        },
        NoticeView::Other => client,
    }
}

/// The session after the response to the request `id` arrived. A response
/// for an id that does not wait changes nothing. The response to the
/// handshake makes the session ready, or ends it where it is an error. The
/// response to the shutdown ends the session. Any other response takes its
/// request out of the pending table.
pub open spec fn responded(
    client: ClientView,
    id: u64,
    outcome: Result<JsonView, RequestErrorView>,
) -> ClientView {
    if !client.router.pending.dom().contains(id) {
        client
    } else if client.handshake == Some(id) {
        match outcome {
            Ok(capabilities) => ClientView {
                state: SessionState::Ready,
                router: resolved(client.router, id),
                handshake: None,
                capabilities,
                ..client
            },
            Err(_) => terminated(client),
        }
    } else if client.farewell == Some(id) {
        terminated(client)
    } else {
        ClientView { router: resolved(client.router, id), ..client }
    }
}

/// The session after the message `msg` arrived.
pub open spec fn received(client: ClientView, msg: JsonView) -> ClientView {
    if !listening(client) {
        client
    } else {
        match classify(msg) {
            IncomingView::Response { id, outcome } => responded(client, id, outcome),
            IncomingView::ServerRequest { .. } => client,
            IncomingView::Notification { method, params } => noted(
                client,
                notice_of(method, params),
            ),
            IncomingView::Invalid => client,
        }
    }
}

/// What the caller is to do about a message that arrived.
#[derive(Debug, PartialEq, Eq)]
pub enum Reaction {
    /// The handshake is done: send `notify`.
    Initialized { notify: Json },
    /// The handshake failed with `error` and the session is over: fail the
    /// requests in `failed`.
    InitializeFailed { error: RequestError, failed: Vec<PendingRequest> },
    /// The shutdown was acknowledged and the session is over: send `notify`
    /// and fail the requests in `failed`.
    ShutDown { notify: Json, failed: Vec<PendingRequest> },
    /// The response to `request` arrived: complete it with `outcome`.
    Completed { request: PendingRequest, outcome: Result<Json, RequestError> },
    /// The backend asked something of the client: send `message` in reply.
    Reply { message: Json },
    /// A notification arrived and was acted on.
    Applied,
    /// A response arrived for a request that does not wait, or the session
    /// does not listen: the message was dropped.
    Dropped,
    /// The message is no message of the protocol: it was skipped.
    Skipped,
}

/// The mathematical value of a [`Reaction`]. The requests to fail are
/// given as the table that their list stands for: the list has no order
/// that matters.
pub enum ReactionView {
    Initialized { notify: JsonView },
    InitializeFailed { error: RequestErrorView, failed: Map<u64, PendingView> },
    ShutDown { notify: JsonView, failed: Map<u64, PendingView> },
    Completed { request: PendingView, outcome: Result<JsonView, RequestErrorView> },
    Reply { message: JsonView },
    Applied,
    Dropped,
    Skipped,
}

impl View for Reaction {
    type V = ReactionView;

    open spec fn view(&self) -> ReactionView {
        match self {
            Reaction::Initialized { notify } => ReactionView::Initialized { notify: notify@ },
            Reaction::InitializeFailed { error, failed } => ReactionView::InitializeFailed {
                error: error@,
                failed: listed(failed@),
            },
            Reaction::ShutDown { notify, failed } => ReactionView::ShutDown {
                notify: notify@,
                failed: listed(failed@),
            },
            Reaction::Completed { request, outcome } => ReactionView::Completed {
                request: request@,
                outcome: crate::retry::poll_view(*outcome),
            },
            Reaction::Reply { message } => ReactionView::Reply { message: message@ },
            Reaction::Applied => ReactionView::Applied,
            Reaction::Dropped => ReactionView::Dropped,
            Reaction::Skipped => ReactionView::Skipped,
        }
    }
}

/// The requests that a reaction tells the caller to fail.
pub open spec fn failed_by(reaction: Reaction) -> Seq<PendingRequest> {
    match reaction {
        Reaction::InitializeFailed { failed, .. } => failed@,
        Reaction::ShutDown { failed, .. } => failed@,
        _ => Seq::empty(),
    }
}

/// The notification that ends the handshake.
pub open spec fn initialized_message() -> JsonView {
    notification_message("initialized"@, JsonView::Object(Seq::empty()))
}

/// The notification that tells the backend to exit.
pub open spec fn exit_message() -> JsonView {
    notification_message("exit"@, JsonView::Null)
}

/// What the caller is to do about the response to the request `id`. Where
/// the response ends the session, every other request that waits is to be
/// failed.
pub open spec fn response_reaction(
    client: ClientView,
    id: u64,
    outcome: Result<JsonView, RequestErrorView>,
) -> ReactionView {
    if !client.router.pending.dom().contains(id) {
        ReactionView::Dropped
    } else if client.handshake == Some(id) {
        match outcome {
            Ok(_) => ReactionView::Initialized { notify: initialized_message() },
            Err(error) => ReactionView::InitializeFailed {
                error,
                failed: resolved(client.router, id).pending,
            },
        }
    } else if client.farewell == Some(id) {
        ReactionView::ShutDown {
            notify: exit_message(),
            failed: resolved(client.router, id).pending,
        }
    } else {
        ReactionView::Completed { request: client.router.pending[id], outcome }
    }
}

/// What the caller is to do about the message `msg`. A request of the
/// backend is answered with a null result.
pub open spec fn reaction_to(client: ClientView, msg: JsonView) -> ReactionView {
    if !listening(client) {
        ReactionView::Dropped
    } else {
        match classify(msg) {
            IncomingView::Response { id, outcome } => response_reaction(client, id, outcome),
            IncomingView::ServerRequest { id, .. } => ReactionView::Reply {
                message: response_message(id, JsonView::Null),
            },
            IncomingView::Notification { .. } => ReactionView::Applied,
            IncomingView::Invalid => ReactionView::Skipped,
        }
    }
}

/// Whether the session can request a shutdown.
pub open spec fn can_shut_down(client: ClientView) -> bool {
    client.state == SessionState::Ready && can_issue(client.router)
}

/// The session after `shutdown`: the shutdown request waits for its
/// response.
pub open spec fn shutting_down(client: ClientView, now: u64) -> ClientView {
    if can_shut_down(client) {
        ClientView {
            state: SessionState::ShuttingDown,
            router: issued(client.router, "shutdown"@, now),
            farewell: Some(client.router.next_id),
            ..client
        }
    } else {
        client
    }
}

/// Whether `id` is the id of the handshake or of the shutdown.
pub open spec fn is_lifecycle(client: ClientView, id: u64) -> bool {
    client.handshake == Some(id) || client.farewell == Some(id)
}

/// The session after the request `id` timed out. An id that does not wait
/// changes nothing. The timeout of the handshake or of the shutdown ends
/// the session. Any other request waits no longer.
pub open spec fn timed_out_one(client: ClientView, id: u64) -> ClientView {
    if !client.router.pending.dom().contains(id) {
        client
    } else if is_lifecycle(client, id) {
        terminated(client)
    } else {
        ClientView { router: resolved(client.router, id), ..client }
    }
}

/// The requests that are failed when the request `id` times out.
pub open spec fn failed_with(client: ClientView, id: u64) -> Map<u64, PendingView> {
    if !client.router.pending.dom().contains(id) {
        Map::empty()
    } else if is_lifecycle(client, id) {
        client.router.pending
    } else {
        Map::empty().insert(id, client.router.pending[id])
    }
}

/// Whether the handshake or the shutdown of the session is overdue at the
/// time `now`.
pub open spec fn lifecycle_overdue(client: ClientView, now: u64, timeout_millis: u64) -> bool {
    let late = overdue_among(client.router.pending, now, timeout_millis);
    ||| client.handshake matches Some(id) && late.dom().contains(id)
    ||| client.farewell matches Some(id) && late.dom().contains(id)
}

/// The session after the requests that are overdue at the time `now` were
/// timed out. Where the handshake or the shutdown is among them the session
/// ends; else the overdue requests wait no longer and nothing else changes.
pub open spec fn timed_out(client: ClientView, now: u64, timeout_millis: u64) -> ClientView {
    if lifecycle_overdue(client, now, timeout_millis) {
        terminated(client)
    } else {
        ClientView { router: expired(client.router, now, timeout_millis), ..client }
    }
}

/// The requests that are failed when the overdue ones are timed out: all
/// that wait where the session ends, else the overdue ones.
pub open spec fn failed_at(client: ClientView, now: u64, timeout_millis: u64) -> Map<
    u64,
    PendingView,
> {
    if lifecycle_overdue(client, now, timeout_millis) {
        client.router.pending
    } else {
        overdue_among(client.router.pending, now, timeout_millis)
    }
}

/// The session after it was told to make sure that `uri` is open.
pub open spec fn document_ensured(client: ClientView, uri: Seq<char>, now: u64) -> ClientView {
    if client.state == SessionState::Ready {
        ClientView { documents: opened(client.documents, uri, now), ..client }
    } else {
        client
    }
}

/// What a lookup of the diagnostics of a document gives.
#[derive(Debug, PartialEq, Eq)]
pub enum DiagnosticsLookup {
    /// The list is known: it was published, or it cannot be asked for and is
    /// taken to be empty.
    Known(Json),
    /// Nothing was published: send this pull request and read the list from
    /// its response.
    Pull(Outgoing),
}

/// The mathematical value of a [`DiagnosticsLookup`].
pub enum DiagnosticsLookupView {
    Known(JsonView),
    Pull(OutgoingView),
}

impl View for DiagnosticsLookup {
    type V = DiagnosticsLookupView;

    open spec fn view(&self) -> DiagnosticsLookupView {
        match self {
            DiagnosticsLookup::Known(list) => DiagnosticsLookupView::Known(list@),
            DiagnosticsLookup::Pull(out) => DiagnosticsLookupView::Pull(out@),
        }
    }
}

/// What a lookup of the diagnostics of `uri` gives: the published list where
/// there is one; else a pull request, whether or not the document is open;
/// else, where the session can make no request, the empty list.
pub open spec fn looked_up(client: ClientView, uri: Seq<char>) -> DiagnosticsLookupView {
    if client.diagnostics.dom().contains(uri) {
        DiagnosticsLookupView::Known(JsonView::Array(client.diagnostics[uri]))
    } else {
        match answer(client, "textDocument/diagnostic"@, document_params(uri), None) {
            Ok(out) => DiagnosticsLookupView::Pull(out),
            Err(_) => DiagnosticsLookupView::Known(JsonView::Array(Seq::empty())),
        }
    }
}

/// The session after a lookup of the diagnostics of `uri`.
pub open spec fn after_lookup(client: ClientView, uri: Seq<char>, now: u64) -> ClientView {
    if client.diagnostics.dom().contains(uri) {
        client
    } else {
        asked(client, "textDocument/diagnostic"@, None, now)
    }
}

/// The diagnostics that the outcome of a pull request gives: the items of
/// the response, and the empty list where the request failed.
pub open spec fn pulled(outcome: Result<JsonView, RequestErrorView>) -> JsonView {
    match outcome {
        Ok(response) => pulled_items(response),
        Err(_) => JsonView::Array(Seq::empty()),
    }
}

/// Reads the diagnostics from the outcome of a pull request. A failed pull
/// gives the empty list.
pub fn diagnostics_from_pull(outcome: &Result<Json, RequestError>) -> (list: Json)
    ensures
        list@ == pulled(crate::retry::poll_view(*outcome)),
{
    match outcome {
        Ok(response) => pull_items(response),
        Err(_) => Json::empty_array(),
    }
}

/// The client side of the session with one backend process.
#[derive(Debug)]
pub struct RustAnalyzerClient {
    root: String,
    state: SessionState,
    router: RequestRouter,
    documents: DocumentRegistry,
    diagnostics: DiagnosticsCache,
    progress: ProgressState,
    handshake: Option<u64>,
    farewell: Option<u64>,
    capabilities: Json,
}

impl View for RustAnalyzerClient {
    type V = ClientView;

    closed spec fn view(&self) -> ClientView {
        ClientView {
            state: self.state,
            root: self.root@,
            router: self.router@,
            documents: self.documents@,
            diagnostics: self.diagnostics@,
            progress: self.progress@,
            handshake: self.handshake,
            farewell: self.farewell,
            capabilities: self.capabilities@,
        }
    }
}

impl RustAnalyzerClient {
    /// A session for the workspace `workspace_root`, not yet attached to a
    /// backend: nothing is pending, nothing is open, the caches are empty.
    pub fn new(workspace_root: String) -> (client: Self)
        ensures
            client@ == created(workspace_root@),
    {
        RustAnalyzerClient {
            root: workspace_root,
            state: SessionState::Unattached,
            router: RequestRouter::new(),
            documents: DocumentRegistry::new(),
            diagnostics: DiagnosticsCache::new(),
            progress: ProgressState::new(),
            handshake: None,
            farewell: None,
            capabilities: Json::Null,
        }
    }

    /// Where the session stands.
    pub fn state(&self) -> (state: SessionState)
        ensures
            state == self@.state,
    {
        self.state
    }

    /// The workspace root of the session.
    pub fn workspace_root(&self) -> (root: &str)
        ensures
            root@ == self@.root,
    {
        self.root.as_str()
    }

    /// What the backend said it can do in its answer to the handshake;
    /// null before that.
    pub fn capabilities(&self) -> (capabilities: &Json)
        ensures
            capabilities@ == self@.capabilities,
    {
        &self.capabilities
    }

    /// Ends the session and hands out what was pending.
    fn terminate(&mut self) -> (failed: Vec<PendingRequest>)
        ensures
            final(self)@ == terminated(old(self)@),
            lists_exactly(failed@, old(self)@.router.pending),
    {
        let failed = self.router.fail_all();
        self.state = SessionState::Terminated;
        self.documents = DocumentRegistry::new();
        self.diagnostics = DiagnosticsCache::new();
        self.progress = ProgressState::new();
        self.handshake = None;
        self.farewell = None;
        failed
    }

    /// Begins the handshake once the backend process runs: returns the
    /// `initialize` request to send, which carries the workspace root. `None`,
    /// and no change, for a session that is not unattached.
    pub fn start(&mut self, now: u64) -> (handshake: Option<Json>)
        ensures
            final(self)@ == started(old(self)@, now),
            match handshake {
                Some(msg) => can_start(old(self)@) && msg@ == request_message(
                    old(self)@.router.next_id,
                    "initialize"@,
                    initialize_params(old(self)@.root),
                ),
                None => !can_start(old(self)@),
            },
    {
        match self.state {
            SessionState::Unattached => {},
            _ => {
                return None;
            },
        }
        let id = match self.router.issue("initialize", now) {
            Some(id) => id,
            None => {
                return None;
            },
        };
        self.state = SessionState::Initializing;
        self.handshake = Some(id);
        let mut uri = "file://".to_owned();
        uri.append(self.root.as_str());
        let capabilities = Json::object1(
            "window",
            Json::object1("workDoneProgress", Json::Bool(true)),
        );
        let params = Json::object3(
            "processId",
            Json::Null,
            "rootUri",
            Json::String(uri),
            "capabilities",
            capabilities,
        );
        Some(request(id, "initialize", params))
    }

    /// Issues the request `method` with `params`, about `document` if it is
    /// about one.
    fn ask(&mut self, method: &str, params: Json, document: Option<&str>, now: u64) -> (r: Result<
        Outgoing,
        RequestError,
    >)
        ensures
            final(self)@ == asked(old(self)@, method@, text_of_str(document), now),
            answer_view(r) == answer(old(self)@, method@, params@, text_of_str(document)),
    {
        match self.state {
            SessionState::Ready => {},
            SessionState::Terminated => {
                return Err(RequestError::SessionClosed);
            },
            _ => {
                return Err(RequestError::NotReady);
            },
        }
        match document {
            Some(uri) => {
                if !self.documents.is_open(uri) {
                    return Err(RequestError::DocumentNotOpen);
                }
            },
            None => {},
        }
        match self.router.issue(method, now) {
            Some(id) => Ok(Outgoing { id, message: request(id, method, params) }),
            None => Err(RequestError::OutOfIds),
        }
    }

    /// Issues a request by method name, with no document that must be open.
    /// `Ok` with the message to send exactly when the session is ready and
    /// has an id left; the request then waits for its response.
    pub fn send_request(&mut self, method: &str, params: Json, now: u64) -> (r: Result<
        Outgoing,
        RequestError,
    >)
        ensures
            final(self)@ == asked(old(self)@, method@, None, now),
            answer_view(r) == answer(old(self)@, method@, params@, None),
    {
        self.ask(method, params, None, now)
    }

    /// Issues `query`. `Ok` with the message to send exactly when the
    /// session is ready, the document in which the query names a position
    /// or a range is open, and an id is left; the request then waits for
    /// its response.
    pub fn request(&mut self, query: &Query, now: u64) -> (r: Result<Outgoing, RequestError>)
        ensures
            final(self)@ == asked(old(self)@, method_of(*query), document_of(*query), now),
            answer_view(r) == answer(
                old(self)@,
                method_of(*query),
                params_of(*query),
                document_of(*query),
            ),
    {
        self.ask(query.method(), query.params(), query.document(), now)
    }

    /// Asks what is at a position.
    pub fn hover(&mut self, uri: &str, line: u32, character: u32, now: u64) -> (r: Result<
        Outgoing,
        RequestError,
    >)
        ensures
            final(self)@ == asked(old(self)@, "textDocument/hover"@, Some(uri@), now),
            answer_view(r) == answer(
                old(self)@,
                "textDocument/hover"@,
                position_params(uri@, line, character),
                Some(uri@),
            ),
    {
        self.request(&Query::Hover { uri: uri.to_owned(), line, character }, now)
    }

    /// Asks where the symbol at a position is defined.
    pub fn definition(&mut self, uri: &str, line: u32, character: u32, now: u64) -> (r: Result<
        Outgoing,
        RequestError,
    >)
        ensures
            final(self)@ == asked(old(self)@, "textDocument/definition"@, Some(uri@), now),
            answer_view(r) == answer(
                old(self)@,
                "textDocument/definition"@,
                position_params(uri@, line, character),
                Some(uri@),
            ),
    {
        self.request(&Query::Definition { uri: uri.to_owned(), line, character }, now)
    }

    /// Asks for the references to the symbol at a position, its declaration
    /// included.
    pub fn references(&mut self, uri: &str, line: u32, character: u32, now: u64) -> (r: Result<
        Outgoing,
        RequestError,
    >)
        ensures
            final(self)@ == asked(old(self)@, "textDocument/references"@, Some(uri@), now),
            answer_view(r) == answer(
                old(self)@,
                "textDocument/references"@,
                references_params(uri@, line, character),
                Some(uri@),
            ),
    {
        self.request(&Query::References { uri: uri.to_owned(), line, character }, now)
    }

    /// Asks for the completions at a position.
    pub fn completion(&mut self, uri: &str, line: u32, character: u32, now: u64) -> (r: Result<
        Outgoing,
        RequestError,
    >)
        ensures
            final(self)@ == asked(old(self)@, "textDocument/completion"@, Some(uri@), now),
            answer_view(r) == answer(
                old(self)@,
                "textDocument/completion"@,
                position_params(uri@, line, character),
                Some(uri@),
            ),
    {
        self.request(&Query::Completion { uri: uri.to_owned(), line, character }, now)
    }

    /// Asks for the symbols of a document.
    pub fn document_symbols(&mut self, uri: &str, now: u64) -> (r: Result<Outgoing, RequestError>)
        ensures
            final(self)@ == asked(old(self)@, "textDocument/documentSymbol"@, None, now),
            answer_view(r) == answer(
                old(self)@,
                "textDocument/documentSymbol"@,
                document_params(uri@),
                None,
            ),
    {
        self.request(&Query::DocumentSymbols { uri: uri.to_owned() }, now)
    }

    /// Asks for the edits that format a document.
    pub fn formatting(&mut self, uri: &str, now: u64) -> (r: Result<Outgoing, RequestError>)
        ensures
            final(self)@ == asked(old(self)@, "textDocument/formatting"@, None, now),
            answer_view(r) == answer(
                old(self)@,
                "textDocument/formatting"@,
                formatting_params(uri@),
                None,
            ),
    {
        self.request(&Query::Formatting { uri: uri.to_owned() }, now)
    }

    /// Asks for the implementations of the symbol at a position.
    pub fn implementation(&mut self, uri: &str, line: u32, character: u32, now: u64) -> (r: Result<
        Outgoing,
        RequestError,
    >)
        ensures
            final(self)@ == asked(old(self)@, "textDocument/implementation"@, Some(uri@), now),
            answer_view(r) == answer(
                old(self)@,
                "textDocument/implementation"@,
                position_params(uri@, line, character),
                Some(uri@),
            ),
    {
        self.request(&Query::Implementation { uri: uri.to_owned(), line, character }, now)
    }

    /// Asks for the module that declares the module at a position.
    pub fn parent_module(&mut self, uri: &str, line: u32, character: u32, now: u64) -> (r: Result<
        Outgoing,
        RequestError,
    >)
        ensures
            final(self)@ == asked(old(self)@, "experimental/parentModule"@, Some(uri@), now),
            answer_view(r) == answer(
                old(self)@,
                "experimental/parentModule"@,
                position_params(uri@, line, character),
                Some(uri@),
            ),
    {
        self.request(&Query::ParentModule { uri: uri.to_owned(), line, character }, now)
    }

    /// Asks for the call hierarchy item at a position.
    pub fn prepare_call_hierarchy(&mut self, uri: &str, line: u32, character: u32, now: u64) -> (r:
        Result<Outgoing, RequestError>)
        ensures
            final(self)@ == asked(
                old(self)@,
                "textDocument/prepareCallHierarchy"@,
                Some(uri@),
                now,
            ),
            answer_view(r) == answer(
                old(self)@,
                "textDocument/prepareCallHierarchy"@,
                position_params(uri@, line, character),
                Some(uri@),
            ),
    {
        self.request(&Query::PrepareCallHierarchy { uri: uri.to_owned(), line, character }, now)
    }

    /// Asks for the callers of a call hierarchy item.
    pub fn incoming_calls(&mut self, item: Json, now: u64) -> (r: Result<Outgoing, RequestError>)
        ensures
            final(self)@ == asked(old(self)@, "callHierarchy/incomingCalls"@, None, now),
            answer_view(r) == answer(
                old(self)@,
                "callHierarchy/incomingCalls"@,
                item_params(item@),
                None,
            ),
    {
        self.request(&Query::IncomingCalls { item }, now)
    }

    /// Asks for the callees of a call hierarchy item.
    pub fn outgoing_calls(&mut self, item: Json, now: u64) -> (r: Result<Outgoing, RequestError>)
        ensures
            final(self)@ == asked(old(self)@, "callHierarchy/outgoingCalls"@, None, now),
            answer_view(r) == answer(
                old(self)@,
                "callHierarchy/outgoingCalls"@,
                item_params(item@),
                None,
            ),
    {
        self.request(&Query::OutgoingCalls { item }, now)
    }

    /// Asks for the symbols of the workspace that match `query`.
    pub fn workspace_symbol(&mut self, query: &str, now: u64) -> (r: Result<Outgoing, RequestError>)
        ensures
            final(self)@ == asked(old(self)@, "workspace/symbol"@, None, now),
            answer_view(r) == answer(old(self)@, "workspace/symbol"@, symbol_params(query@), None),
    {
        self.request(&Query::WorkspaceSymbol { query: query.to_owned() }, now)
    }

    /// Asks for the inlay hints of a range.
    pub fn inlay_hint(&mut self, uri: &str, span: Span, now: u64) -> (r: Result<
        Outgoing,
        RequestError,
    >)
        ensures
            final(self)@ == asked(old(self)@, "textDocument/inlayHint"@, Some(uri@), now),
            answer_view(r) == answer(
                old(self)@,
                "textDocument/inlayHint"@,
                inlay_hint_params(uri@, span),
                Some(uri@),
            ),
    {
        self.request(&Query::InlayHints { uri: uri.to_owned(), span }, now)
    }

    /// Asks for the code actions of a range. `diagnostics` is what is known
    /// of the document; the request carries those of them that lie in the
    /// lines of the range.
    pub fn code_actions(&mut self, uri: &str, span: Span, diagnostics: &Json, now: u64) -> (r:
        Result<Outgoing, RequestError>)
        ensures
            final(self)@ == asked(old(self)@, "textDocument/codeAction"@, Some(uri@), now),
            answer_view(r) == answer(
                old(self)@,
                "textDocument/codeAction"@,
                code_action_params(
                    uri@,
                    span,
                    filtered(diagnostics@, span.start_line, span.end_line),
                ),
                Some(uri@),
            ),
    {
        let in_range = filter_diagnostics_in_range(diagnostics, span.start_line, span.end_line);
        self.request(&Query::CodeActions { uri: uri.to_owned(), span, diagnostics: in_range }, now)
    }

    /// Looks up the diagnostics of `uri`. A published list is returned as it
    /// is stored. Where nothing was published the pull request to send is
    /// returned; where none can be made, the empty list.
    pub fn diagnostics(&mut self, uri: &str, now: u64) -> (lookup: DiagnosticsLookup)
        ensures
            final(self)@ == after_lookup(old(self)@, uri@, now),
            lookup@ == looked_up(old(self)@, uri@),
    {
        match self.diagnostics.get(uri) {
            Some(list) => DiagnosticsLookup::Known(Json::array(list)),
            None => match self.request(&Query::Diagnostics { uri: uri.to_owned() }, now) {
                Ok(out) => DiagnosticsLookup::Pull(out),
                Err(_) => DiagnosticsLookup::Known(Json::empty_array()),
            },
        }
    }

    /// Asks for the diagnostics of the whole workspace.
    pub fn workspace_diagnostics(&mut self, now: u64) -> (r: Result<Outgoing, RequestError>)
        ensures
            final(self)@ == asked(old(self)@, "workspace/diagnostic"@, None, now),
            answer_view(r) == answer(
                old(self)@,
                "workspace/diagnostic"@,
                workspace_diagnostics_params(),
                None,
            ),
    {
        self.request(&Query::WorkspaceDiagnostics, now)
    }

    /// Makes sure the document `uri` is open. `Ok(Some(msg))` the first
    /// time, with the notification to send that announces the document with
    /// its full `content`; `Ok(None)` every later time. `Err`, and no
    /// change, when the session is not ready.
    pub fn open_document(&mut self, uri: &str, content: &str, now: u64) -> (r: Result<
        Option<Json>,
        RequestError,
    >)
        ensures
            final(self)@ == document_ensured(old(self)@, uri@, now),
            match r {
                Ok(Some(msg)) => old(self)@.state == SessionState::Ready && !has_open(
                    old(self)@.documents,
                    uri@,
                ) && msg@ == did_open_message(uri@, content@),
                Ok(None) => old(self)@.state == SessionState::Ready && has_open(
                    old(self)@.documents,
                    uri@,
                ),
                Err(e) => old(self)@.state != SessionState::Ready && e@ == (if old(self)@.state
                    == SessionState::Terminated {
                    RequestErrorView::SessionClosed
                } else {
                    RequestErrorView::NotReady
                }),
            },
    {
        match self.state {
            SessionState::Ready => {},
            SessionState::Terminated => {
                return Err(RequestError::SessionClosed);
            },
            _ => {
                return Err(RequestError::NotReady);
            },
        }
        Ok(self.documents.ensure_open(uri, content, now))
    }

    /// Takes in one message from the backend and says what to do about it.
    /// The requests that the reaction tells to fail are exactly those that
    /// were left waiting, each listed once.
    pub fn receive(&mut self, msg: &Json) -> (reaction: Reaction)
        ensures
            final(self)@ == received(old(self)@, msg@),
            reaction@ == reaction_to(old(self)@, msg@),
            reaction is InitializeFailed || reaction is ShutDown ==> lists_exactly(
                failed_by(reaction),
                resolved(old(self)@.router, classify(msg@)->Response_id).pending,
            ),
    {
        match self.state {
            SessionState::Initializing => {},
            SessionState::Ready => {},
            SessionState::ShuttingDown => {},
            _ => {
                return Reaction::Dropped;
            },
        }
        match classify_message(msg) {
            Incoming::Response { id, outcome } => {
                let request = match self.router.resolve(id) {
                    Some(request) => request,
                    None => {
                        assert(self@.router.pending =~= old(self)@.router.pending);
                        return Reaction::Dropped;
                    },
                };
                let is_handshake = match self.handshake {
                    Some(h) => h == id,
                    None => false,
                };
                let is_farewell = match self.farewell {
                    Some(f) => f == id,
                    None => false,
                };
                if is_handshake {
                    match outcome {
                        Ok(capabilities) => {
                            self.state = SessionState::Ready;
                            self.handshake = None;
                            self.capabilities = capabilities;
                            let nothing = Json::Object(Vec::new());
                            assert(nothing@ == JsonView::Object(Seq::empty())) by {
                                assert(crate::json::view_members(Seq::empty()) =~= Seq::<
                                    (Seq<char>, JsonView),
                                >::empty());
                            }
                            Reaction::Initialized { notify: notification("initialized", nothing) }
                        },
                        Err(error) => {
                            let ghost left = self@.router.pending;
                            let failed = self.terminate();
                            proof {
                                lemma_exact_list_is_table(failed@, left);
                            }
                            Reaction::InitializeFailed { error, failed }
                        },
                    }
                } else if is_farewell {
                    let ghost left = self@.router.pending;
                    let failed = self.terminate();
                    proof {
                        lemma_exact_list_is_table(failed@, left);
                    }
                    Reaction::ShutDown { notify: notification("exit", Json::Null), failed }
                } else {
                    Reaction::Completed { request, outcome }
                }
            },
            Incoming::ServerRequest { id, method, params } => Reaction::Reply {
                message: response(id, Json::Null),
            },
            Incoming::Notification { method, params } => {
                match parse_notification(method.as_str(), &params) {
                    Notice::ProgressBegin { token, title, message, percentage } => {
                        self.progress.begin(token, title, message, percentage);
                    },
                    Notice::ProgressReport { token, message, percentage } => {
                        self.progress.report(token.as_str(), message, percentage);
                    },
                    Notice::ProgressEnd { token } => {
                        self.progress.end(token.as_str());
                    },
                    Notice::Diagnostics { uri, diagnostics } => {
                        self.diagnostics.publish(uri, diagnostics);
                    },
                    Notice::Other => {},
                }
                Reaction::Applied
            },
            Incoming::Invalid => Reaction::Skipped,
        }
    }

    /// Times out the request `id`: discards its pending slot and returns it
    /// for the caller to fail; a response that arrives later is dropped.
    /// Where the request is the handshake or the shutdown, the session ends
    /// and every request that waited is returned. An id that does not wait
    /// changes nothing.
    pub fn timeout(&mut self, id: u64) -> (failed: Vec<PendingRequest>)
        ensures
            final(self)@ == timed_out_one(old(self)@, id),
            lists_exactly(failed@, failed_with(old(self)@, id)),
    {
        let is_handshake = match self.handshake {
            Some(h) => h == id,
            None => false,
        };
        let is_farewell = match self.farewell {
            Some(f) => f == id,
            None => false,
        };
        if !self.router.is_pending(id) {
            return Vec::new();
        }
        if is_handshake || is_farewell {
            return self.terminate();
        }
        let mut failed: Vec<PendingRequest> = Vec::new();
        match self.router.resolve(id) {
            Some(request) => {
                failed.push(request);
            },
            None => {},
        }
        proof {
            let only = failed_with(old(self)@, id);
            assert(failed@[0].id == id);
            assert(only.dom().contains(id));
        }
        failed
    }

    /// Times out the requests that have waited `timeout_millis` or longer at
    /// the time `now`, and returns them for the caller to fail. Where the
    /// handshake or the shutdown is among them the session ends, and every
    /// request that waited is returned.
    pub fn expire(&mut self, now: u64, timeout_millis: u64) -> (failed: Vec<PendingRequest>)
        ensures
            final(self)@ == timed_out(old(self)@, now, timeout_millis),
            lists_exactly(failed@, failed_at(old(self)@, now, timeout_millis)),
    {
        let handshake_late = match self.handshake {
            Some(id) => self.router.is_overdue(id, now, timeout_millis),
            None => false,
        };
        let farewell_late = match self.farewell {
            Some(id) => self.router.is_overdue(id, now, timeout_millis),
            None => false,
        };
        if handshake_late || farewell_late {
            self.terminate()
        } else {
            self.router.expire(now, timeout_millis)
        }
    }

    /// Requests a shutdown of a ready session: returns the `shutdown`
    /// request to send. `None`, and no change, for a session that is not
    /// ready.
    pub fn shutdown(&mut self, now: u64) -> (farewell: Option<Outgoing>)
        ensures
            final(self)@ == shutting_down(old(self)@, now),
            match farewell {
                Some(out) => can_shut_down(old(self)@) && out@ == (OutgoingView {
                    id: old(self)@.router.next_id,
                    message: request_message(old(self)@.router.next_id, "shutdown"@, JsonView::Null),
                }),
                None => !can_shut_down(old(self)@),
            },
    {
        match self.state {
            SessionState::Ready => {},
            _ => {
                return None;
            },
        }
        let id = match self.router.issue("shutdown", now) {
            Some(id) => id,
            None => {
                return None;
            },
        };
        self.state = SessionState::ShuttingDown;
        self.farewell = Some(id);
        Some(Outgoing { id, message: request(id, "shutdown", Json::Null) })
    }

    /// Ends the session after the pipe to the backend or the backend itself
    /// failed. Returns every request that was waiting, for the caller to
    /// fail with a transport error.
    pub fn transport_failed(&mut self) -> (failed: Vec<PendingRequest>)
        ensures
            final(self)@ == terminated(old(self)@),
            lists_exactly(failed@, old(self)@.router.pending),
    {
        self.terminate()
    }

    /// Tears the session down, whatever its state: it ends, its caches are
    /// emptied, and every request that was waiting is returned for the
    /// caller to fail.
    pub fn teardown(&mut self) -> (failed: Vec<PendingRequest>)
        ensures
            final(self)@ == terminated(old(self)@),
            lists_exactly(failed@, old(self)@.router.pending),
    {
        self.terminate()
    }

    /// Whether the backend has a background task in flight.
    pub fn is_indexing(&self) -> (busy: bool)
        ensures
            busy == indexing(self@.progress),
    {
        self.progress.is_indexing()
    }

    /// A copy of the entry of every background task in flight, each token
    /// once.
    pub fn active_progress(&self) -> (tasks: Vec<ProgressEntry>)
        ensures
            forall|i: int|
                0 <= i < tasks@.len() ==> self@.progress.dom().contains(
                    #[trigger] tasks@[i].token@,
                ) && self@.progress[tasks@[i].token@] == tasks@[i]@,
            forall|token: Seq<char>|
                self@.progress.dom().contains(token) ==> exists|i: int|
                    0 <= i < tasks@.len() && #[trigger] tasks@[i].token@ == token,
            forall|i: int, j: int|
                0 <= i < j < tasks@.len() ==> tasks@[i].token@ != tasks@[j].token@,
    {
        self.progress.active_tasks()
    }

    /// Whether the document `uri` has been announced to the backend.
    pub fn is_open(&self, uri: &str) -> (open: bool)
        ensures
            open == has_open(self@.documents, uri@),
    {
        self.documents.is_open(uri)
    }

    /// When the document `uri` was announced to the backend; `None` where
    /// it has not been.
    pub fn announced_at(&self, uri: &str) -> (at: Option<u64>)
        ensures
            at == announced(self@.documents, uri@),
    {
        self.documents.announced_at(uri)
    }

    /// The uris of the open documents, oldest first, none twice.
    pub fn open_documents(&self) -> (uris: Vec<String>)
        ensures
            uris@.len() == self@.documents.len(),
            forall|i: int| 0 <= i < uris@.len() ==> (#[trigger] uris@[i])@ == self@.documents[i].uri,
            forall|i: int, j: int| 0 <= i < j < uris@.len() ==> uris@[i]@ != uris@[j]@,
    {
        self.documents.open_documents()
    }

    /// Whether the request `id` waits for its response.
    pub fn is_pending(&self, id: u64) -> (waiting: bool)
        ensures
            waiting == self@.router.pending.dom().contains(id),
    {
        self.router.is_pending(id)
    }

    /// A copy of the published diagnostics of `uri`, if any were published.
    pub fn published_diagnostics(&self, uri: &str) -> (stored: Option<Vec<Json>>)
        ensures
            match stored {
                Some(list) => self@.diagnostics.dom().contains(uri@) && view_items(list@)
                    == self@.diagnostics[uri@] && list@.len() == self@.diagnostics[uri@].len(),
                None => !self@.diagnostics.dom().contains(uri@),
            },
    {
        self.diagnostics.get(uri)
    }
}

/// One thing that happens to a session.
pub enum ClientEvent {
    /// The handshake is begun.
    Start { now: u64 },
    /// A request is asked for.
    Ask { method: Seq<char>, document: Option<Seq<char>>, now: u64 },
    /// A document is ensured open.
    EnsureOpen { uri: Seq<char>, now: u64 },
    /// The diagnostics of a document are looked up.
    Lookup { uri: Seq<char>, now: u64 },
    /// A message arrives from the backend.
    Receive { msg: JsonView },
    /// A request times out.
    Timeout { id: u64 },
    /// The requests that are overdue are timed out.
    Expire { now: u64, timeout_millis: u64 },
    /// A shutdown is requested.
    Shutdown { now: u64 },
    /// The transport fails.
    TransportFailed,
    /// The session is torn down.
    Teardown,
}

/// The session after `event`.
pub open spec fn after(client: ClientView, event: ClientEvent) -> ClientView {
    match event {
        ClientEvent::Start { now } => started(client, now),
        ClientEvent::Ask { method, document, now } => asked(client, method, document, now),
        ClientEvent::EnsureOpen { uri, now } => document_ensured(client, uri, now),
        ClientEvent::Lookup { uri, now } => after_lookup(client, uri, now),
        ClientEvent::Receive { msg } => received(client, msg),
        ClientEvent::Timeout { id } => timed_out_one(client, id),
        ClientEvent::Expire { now, timeout_millis } => timed_out(client, now, timeout_millis),
        ClientEvent::Shutdown { now } => shutting_down(client, now),
        ClientEvent::TransportFailed => terminated(client),
        ClientEvent::Teardown => terminated(client),
    }
}

/// The moves of the session's state machine: a session goes from unattached
/// to initializing, from there to ready, from there to shutting down and
/// from there to terminated; from every state it may go straight to
/// terminated; and it may stay where it is.
pub open spec fn may_follow(from: SessionState, to: SessionState) -> bool {
    ||| to == from
    ||| to == SessionState::Terminated
    ||| from == SessionState::Unattached && to == SessionState::Initializing
    ||| from == SessionState::Initializing && to == SessionState::Ready
    ||| from == SessionState::Ready && to == SessionState::ShuttingDown
}

/// Whether nothing of a session is left: no request waits, no document is
/// open, the caches are empty.
pub open spec fn at_rest(client: ClientView) -> bool {
    &&& client.router.pending == Map::<u64, PendingView>::empty()
    &&& client.documents == Seq::<OpenDocumentView>::empty()
    &&& client.diagnostics == Map::<Seq<char>, Seq<JsonView>>::empty()
    &&& client.progress == Map::<Seq<char>, ProgressEntryView>::empty()
    &&& client.handshake is None
    &&& client.farewell is None
}

/// What holds of every session: every waiting request waits under its own
/// id, which is below the next one; the handshake is awaited only while
/// initializing and the shutdown only while shutting down; and a session
/// that is over is at rest.
pub open spec fn consistent(client: ClientView) -> bool {
    &&& well_numbered(client.router)
    &&& client.handshake is Some ==> client.state == SessionState::Initializing
    &&& client.farewell is Some ==> client.state == SessionState::ShuttingDown
    &&& client.state == SessionState::Terminated ==> at_rest(client)
}

/// Every event moves the session along its state machine.
pub proof fn lemma_events_follow_the_machine(client: ClientView, event: ClientEvent)
    requires
        consistent(client),
    ensures
        may_follow(client.state, after(client, event).state),
{
}

/// A new session is consistent, and every event keeps a session so. In
/// particular no event leaves a request waiting in a session that is over.
pub proof fn lemma_sessions_stay_consistent(client: ClientView, event: ClientEvent)
    requires
        consistent(client),
    ensures
        consistent(after(client, event)),
        forall|root: Seq<char>| consistent(#[trigger] created(root)),
{
    lemma_events_keep_numbering(client.router, RouterEvent::FailAll);
    match event {
        ClientEvent::Start { now } => {
            lemma_events_keep_numbering(
                client.router,
                RouterEvent::Issue { method: "initialize"@, now },
            );
        },
        ClientEvent::Ask { method, document, now } => {
            lemma_events_keep_numbering(client.router, RouterEvent::Issue { method, now });
        },
        ClientEvent::Lookup { uri, now } => {
            lemma_events_keep_numbering(
                client.router,
                RouterEvent::Issue { method: "textDocument/diagnostic"@, now },
            );
        },
        ClientEvent::Shutdown { now } => {
            lemma_events_keep_numbering(
                client.router,
                RouterEvent::Issue { method: "shutdown"@, now },
            );
        },
        ClientEvent::Timeout { id } => {
            lemma_events_keep_numbering(client.router, RouterEvent::Resolve { id });
        },
        ClientEvent::Expire { now, timeout_millis } => {
            lemma_events_keep_numbering(
                client.router,
                RouterEvent::Expire { now, timeout_millis },
            );
            if client.state == SessionState::Terminated {
                assert(after(client, event).router.pending =~= client.router.pending);
            }
        },
        ClientEvent::Receive { msg } => {
            if listening(client) {
                match classify(msg) {
                    IncomingView::Response { id, outcome } => {
                        lemma_events_keep_numbering(client.router, RouterEvent::Resolve { id });
                        assert(consistent(responded(client, id, outcome)));
                    },
                    IncomingView::Notification { method, params } => {
                        assert(consistent(noted(client, notice_of(method, params))));
                    },
                    _ => {},
                }
            }
        },
        _ => {},
    }
}

/// A session that is over stays over and at rest, whatever happens to it.
pub proof fn lemma_terminated_is_final(client: ClientView, event: ClientEvent)
    requires
        consistent(client),
        client.state == SessionState::Terminated,
    ensures
        after(client, event) == client,
{
    assert(drained(client.router) == client.router);
    match event {
        ClientEvent::Expire { now, timeout_millis } => {
            assert(expired(client.router, now, timeout_millis).pending
                =~= client.router.pending);
        },
        _ => {},
    }
}

/// Tearing a session down, or losing its transport, leaves no request
/// waiting and empties its caches; and a new session starts with nothing
/// waiting and with empty caches, whatever sessions came before it.
pub proof fn lemma_teardown_clears(client: ClientView, root: Seq<char>)
    ensures
        at_rest(after(client, ClientEvent::Teardown)),
        at_rest(after(client, ClientEvent::TransportFailed)),
        after(client, ClientEvent::Teardown).state == SessionState::Terminated,
        at_rest(created(root)),
        created(root).state == SessionState::Unattached,
{
}

/// A request is refused unless the document it is about has been opened:
/// no query about a document is issued before the document was announced.
pub proof fn lemma_unopened_document_is_refused(
    client: ClientView,
    method: Seq<char>,
    params: JsonView,
    uri: Seq<char>,
    now: u64,
)
    requires
        !has_open(client.documents, uri),
    ensures
        answer(client, method, params, Some(uri)) is Err,
        asked(client, method, Some(uri), now) == client,
{
}

/// The session after the responses to the requests `ids[..upto]` arrived
/// in that order, with the outcomes `outcomes[..upto]`.
pub open spec fn after_responses(
    client: ClientView,
    ids: Seq<u64>,
    outcomes: Seq<Result<JsonView, RequestErrorView>>,
    upto: int,
) -> ClientView
    decreases upto,
{
    if upto <= 0 || upto > ids.len() || upto > outcomes.len() {
        client
    } else {
        responded(
            after_responses(client, ids, outcomes, upto - 1),
            ids[upto - 1],
            outcomes[upto - 1],
        )
    }
}

proof fn lemma_responses_keep_slot(
    client: ClientView,
    ids: Seq<u64>,
    outcomes: Seq<Result<JsonView, RequestErrorView>>,
    id: u64,
    upto: int,
)
    requires
        consistent(client),
        client.state == SessionState::Ready,
        client.router.pending.dom().contains(id),
        ids.len() == outcomes.len(),
        0 <= upto <= ids.len(),
        forall|k: int| 0 <= k < ids.len() ==> ids[k] != id,
    ensures
        ({
            let later = after_responses(client, ids, outcomes, upto);
            &&& later.state == SessionState::Ready
            &&& later.handshake is None
            &&& later.farewell is None
            &&& later.router.pending.dom().contains(id)
            &&& later.router.pending[id] == client.router.pending[id]
        }),
    decreases upto,
{
    if upto > 0 {
        lemma_responses_keep_slot(client, ids, outcomes, id, upto - 1);
    }
}

/// Responses may arrive in any order: whatever responses to other requests
/// of a ready session have arrived before, in whatever order and with
/// whatever outcomes, the response to the request `id` completes the request
/// that was issued under `id`, with the outcome that the response carries.
pub proof fn lemma_responses_may_arrive_in_any_order(
    client: ClientView,
    ids: Seq<u64>,
    outcomes: Seq<Result<JsonView, RequestErrorView>>,
    id: u64,
    outcome: Result<JsonView, RequestErrorView>,
)
    requires
        consistent(client),
        client.state == SessionState::Ready,
        client.router.pending.dom().contains(id),
        ids.len() == outcomes.len(),
        forall|k: int| 0 <= k < ids.len() ==> ids[k] != id,
    ensures
        response_reaction(after_responses(client, ids, outcomes, ids.len() as int), id, outcome)
            == (ReactionView::Completed { request: client.router.pending[id], outcome }),
        !responded(
            after_responses(client, ids, outcomes, ids.len() as int),
            id,
            outcome,
        ).router.pending.dom().contains(id),
{
    lemma_responses_keep_slot(client, ids, outcomes, id, ids.len() as int);
}

/// The ids of a session never go back: no event lowers the id that the
/// next request gets, and a request that is issued gets that id and raises
/// it by one. So no two requests of a session get the same id.
pub proof fn lemma_session_ids_only_grow(
    client: ClientView,
    event: ClientEvent,
    method: Seq<char>,
    params: JsonView,
    document: Option<Seq<char>>,
    now: u64,
)
    ensures
        after(client, event).router.next_id >= client.router.next_id,
        answer(client, method, params, document) matches Ok(out) ==> out.id
            == client.router.next_id && asked(client, method, document, now).router.next_id
            == out.id + 1,
{
}

} // verus!
