//! The server that owns the session of the attached workspace, and what it
//! reports about itself.

use vstd::prelude::*;
use vstd::string::StringExecFns;
use crate::client::{
    can_shut_down, created, initialize_params, shutting_down, started, terminated, ClientView,
    Outgoing, OutgoingView, RustAnalyzerClient,
};
use crate::json::{lemma_view_items_push, lemma_view_members_push, view_items, view_members, Json, JsonView};
use crate::documents::OpenDocumentView;
use crate::lsp::number;
use crate::message::request_message;
use crate::progress::{indexing, text_of, ProgressEntry, ProgressEntryView};
use crate::router::{lists_exactly, PendingRequest, FIRST_ID};
use crate::text::str_eq;

verus! {

/// Why the server is in its current state.
#[derive(Debug, PartialEq, Eq)]
pub enum InitTrigger {
    /// Fresh server start, no session yet.
    Unset,
    /// First session start, by a tool call or from the command line.
    InitialStart,
    /// The workspace was changed from `previous`.
    WorkspaceChange { previous: String },
}

/// The mathematical value of an [`InitTrigger`].
pub enum InitTriggerView {
    Unset,
    InitialStart,
    WorkspaceChange { previous: Seq<char> },
}

impl View for InitTrigger {
    type V = InitTriggerView;

    open spec fn view(&self) -> InitTriggerView {
        match self {
            InitTrigger::Unset => InitTriggerView::Unset,
            InitTrigger::InitialStart => InitTriggerView::InitialStart,
            InitTrigger::WorkspaceChange { previous } => InitTriggerView::WorkspaceChange {
                previous: previous@,
            },
        }
    }
}

/// The name of a trigger.
pub open spec fn trigger_name(trigger: InitTriggerView) -> Seq<char> {
    match trigger {
        InitTriggerView::Unset => "none"@,
        InitTriggerView::InitialStart => "initial_start"@,
        InitTriggerView::WorkspaceChange { .. } => "workspace_change"@,
    }
}

/// The workspace that a trigger names as the one before.
pub open spec fn trigger_previous(trigger: InitTriggerView) -> Option<Seq<char>> {
    match trigger {
        InitTriggerView::WorkspaceChange { previous } => Some(previous),
        _ => None,
    }
}

/// Why the server cannot serve a call.
#[derive(Debug, PartialEq, Eq)]
pub enum ServerError {
    /// The workspace root is not on disk.
    WorkspaceMissing(String),
    /// No session has been started.
    NotInitialized,
}

/// The mathematical value of a [`ServerError`].
pub enum ServerErrorView {
    WorkspaceMissing(Seq<char>),
    NotInitialized,
}

impl View for ServerError {
    type V = ServerErrorView;

    open spec fn view(&self) -> ServerErrorView {
        match self {
            ServerError::WorkspaceMissing(path) => ServerErrorView::WorkspaceMissing(path@),
            ServerError::NotInitialized => ServerErrorView::NotInitialized,
        }
    }
}

/// The text of a server error.
pub open spec fn server_error_text(error: ServerErrorView) -> Seq<char> {
    match error {
        ServerErrorView::WorkspaceMissing(path) => "Workspace path does not exist: "@ + path,
        ServerErrorView::NotInitialized => "Client not initialized"@,
    }
}

impl ServerError {
    /// The message for the caller.
    pub fn message(&self) -> (text: String)
        ensures
            text@ == server_error_text(self@),
    {
        match self {
            ServerError::WorkspaceMissing(path) => {
                let mut text = "Workspace path does not exist: ".to_owned();
                text.append(path.as_str());
                text
            },
            ServerError::NotInitialized => "Client not initialized".to_owned(),
        }
    }
}

/// The server: the workspace it is attached to, and the session with the
/// backend once there is one.
#[derive(Debug)]
pub struct RustAnalyzerMCPServer {
    pub client: Option<RustAnalyzerClient>,
    pub workspace_root: String,
    pub init_trigger: InitTrigger,
}

/// The state of a server.
pub struct ServerView {
    pub client: Option<ClientView>,
    pub workspace_root: Seq<char>,
    pub init_trigger: InitTriggerView,
}

impl View for RustAnalyzerMCPServer {
    type V = ServerView;

    open spec fn view(&self) -> ServerView {
        ServerView {
            client: match self.client {
                Some(c) => Some(c@),
                None => None,
            },
            workspace_root: self.workspace_root@,
            init_trigger: self.init_trigger@,
        }
    }
}

/// The trigger once a session is started: a server that had none records
/// its first start.
pub open spec fn trigger_after_start(trigger: InitTriggerView) -> InitTriggerView {
    match trigger {
        InitTriggerView::Unset => InitTriggerView::InitialStart,
        _ => trigger,
    }
}

/// The server after it made sure that a session is started: a server
/// without a session gets one, with its handshake begun, if the workspace
/// exists.
pub open spec fn ensured(server: ServerView, workspace_exists: bool, now: u64) -> ServerView {
    if server.client is None && workspace_exists {
        ServerView {
            client: Some(started(created(server.workspace_root), now)),
            workspace_root: server.workspace_root,
            init_trigger: trigger_after_start(server.init_trigger),
        }
    } else {
        server
    }
}

/// Whether the server is attached to the workspace `root` with a session.
pub open spec fn attached_to(server: ServerView, root: Seq<char>) -> bool {
    server.workspace_root == root && server.client is Some
}

/// The server after its workspace was set to `root`: the same server where
/// `root` is its workspace and a session runs; else a server for `root`
/// without a session.
pub open spec fn switched(server: ServerView, root: Seq<char>) -> ServerView {
    if attached_to(server, root) {
        server
    } else {
        ServerView { client: None, workspace_root: root, init_trigger: server.init_trigger }
    }
}

/// What setting the workspace did.
#[derive(Debug)]
pub enum WorkspaceSwitch {
    /// The workspace is the current one and its session runs: nothing was
    /// done.
    Skipped,
    /// The server is attached to the new workspace and has no session. The
    /// session of the workspace before, if there was one, has been torn
    /// down; it is handed out with the requests that waited in it, for the
    /// caller to fail them.
    Switched { previous: Option<RustAnalyzerClient>, failed: Vec<PendingRequest> },
}

/// The text that reports a skipped switch.
pub open spec fn skipped_text(root: Seq<char>) -> Seq<char> {
    "Already initialized: "@ + root + " (skipped)"@
}

/// The text that reports a switch.
pub open spec fn switched_text(root: Seq<char>) -> Seq<char> {
    "Workspace set to: "@ + root
}

/// Calls `std::path::Path::exists` on `path`. The answer depends on the
/// file system at the time of the call, so nothing is claimed of it.
#[verifier::external_body]
fn path_exists(path: &str) -> bool {
    std::path::Path::new(path).exists()
}

/// The uri of the file at `absolute_path`.
pub fn document_uri(absolute_path: &str) -> (uri: String)
    ensures
        uri@ == "file://"@ + absolute_path@,
{
    let mut uri = "file://".to_owned();
    uri.append(absolute_path);
    uri
}

impl Default for RustAnalyzerMCPServer {
    /// A server for the workspace `.`, without a session.
    fn default() -> (server: Self)
        ensures
            server@ == (ServerView {
                client: None,
                workspace_root: "."@,
                init_trigger: InitTriggerView::Unset,
            }),
    {
        RustAnalyzerMCPServer::new()
    }
}

impl RustAnalyzerMCPServer {
    /// A server for the workspace `.`, without a session.
    pub fn new() -> (server: Self)
        ensures
            server@ == (ServerView {
                client: None,
                workspace_root: "."@,
                init_trigger: InitTriggerView::Unset,
            }),
    {
        RustAnalyzerMCPServer {
            client: None,
            workspace_root: ".".to_owned(),
            init_trigger: InitTrigger::Unset,
        }
    }

    /// A server for the workspace `workspace_root`, without a session.
    pub fn with_workspace(workspace_root: String) -> (server: Self)
        ensures
            server@ == (ServerView {
                client: None,
                workspace_root: workspace_root@,
                init_trigger: InitTriggerView::Unset,
            }),
    {
        RustAnalyzerMCPServer { client: None, workspace_root, init_trigger: InitTrigger::Unset }
    }

    /// Makes sure a session is started. With a session already there,
    /// nothing happens. Without one, the workspace must exist: then a
    /// session is created and its handshake request returned, to be sent
    /// once the backend process runs. `Err` exactly when there is no
    /// session and the workspace does not exist.
    pub fn ensure_client_started(&mut self, workspace_exists: bool, now: u64) -> (r: Result<
        Option<Json>,
        ServerError,
    >)
        ensures
            final(self)@ == ensured(old(self)@, workspace_exists, now),
            match r {
                Ok(None) => old(self)@.client is Some,
                Ok(Some(msg)) => old(self)@.client is None && workspace_exists && msg@
                    == request_message(
                    FIRST_ID,
                    "initialize"@,
                    initialize_params(old(self)@.workspace_root),
                ),
                Err(e) => old(self)@.client is None && !workspace_exists && e@
                    == ServerErrorView::WorkspaceMissing(old(self)@.workspace_root),
            },
    {
        if self.client.is_some() {
            return Ok(None);
        }
        if !workspace_exists {
            return Err(ServerError::WorkspaceMissing(self.workspace_root.clone()));
        }
        match self.init_trigger {
            InitTrigger::Unset => {
                self.init_trigger = InitTrigger::InitialStart;
            },
            _ => {},
        }
        let mut client = RustAnalyzerClient::new(self.workspace_root.clone());
        let handshake = client.start(now);
        self.client = Some(client);
        Ok(handshake)
    }

    /// Checks that there is a session to put a call to. `Err` exactly when
    /// there is none.
    pub fn require_client(&self) -> (r: Result<(), ServerError>)
        ensures
            match r {
                Ok(_) => self@.client is Some,
                Err(e) => self@.client is None && e@ == ServerErrorView::NotInitialized,
            },
    {
        if self.client.is_some() {
            Ok(())
        } else {
            Err(ServerError::NotInitialized)
        }
    }

    /// Whether the server is attached to the workspace `root` with a
    /// session, so that setting the workspace to `root` would do nothing.
    pub fn is_attached_to(&self, root: &str) -> (attached: bool)
        ensures
            attached == attached_to(self@, root@),
    {
        self.client.is_some() && str_eq(self.workspace_root.as_str(), root)
    }

    /// Sets the workspace to `root`. Where `root` is the current workspace
    /// and its session runs, nothing is done. Else the session that the
    /// server had is torn down, so that none of its requests is left
    /// waiting and its caches are empty, and the server is attached to
    /// `root` without a session.
    pub fn set_workspace(&mut self, root: String) -> (outcome: WorkspaceSwitch)
        ensures
            final(self)@ == switched(old(self)@, root@),
            match outcome {
                WorkspaceSwitch::Skipped => attached_to(old(self)@, root@),
                WorkspaceSwitch::Switched { previous, failed } => !attached_to(old(self)@, root@)
                    && match old(self)@.client {
                    Some(before) => previous is Some && previous->Some_0@ == terminated(before)
                        && lists_exactly(failed@, before.router.pending),
                    None => previous is None && failed@.len() == 0,
                },
            },
    {
        if self.is_attached_to(root.as_str()) {
            return WorkspaceSwitch::Skipped;
        }
        let mut taken: Option<RustAnalyzerClient> = None;
        core::mem::swap(&mut self.client, &mut taken);
        self.workspace_root = root;
        match taken {
            Some(mut client) => {
                let failed = client.teardown();
                WorkspaceSwitch::Switched { previous: Some(client), failed }
            },
            None => WorkspaceSwitch::Switched { previous: None, failed: Vec::new() },
        }
    }

    /// Whether the backend has a background task in flight; false without
    /// a session.
    pub fn is_indexing(&self) -> (busy: bool)
        ensures
            busy == match self@.client {
                Some(c) => indexing(c.progress),
                None => false,
            },
    {
        match &self.client {
            Some(client) => client.is_indexing(),
            None => false,
        }
    }

    /// A copy of the entry of every background task in flight, each token
    /// once; none without a session.
    pub fn active_progress(&self) -> (tasks: Vec<ProgressEntry>)
        ensures
            self@.client is None ==> tasks@.len() == 0,
            self@.client matches Some(c) ==> {
                &&& forall|i: int|
                    0 <= i < tasks@.len() ==> c.progress.dom().contains(
                        #[trigger] tasks@[i].token@,
                    ) && c.progress[tasks@[i].token@] == tasks@[i]@
                &&& forall|token: Seq<char>|
                    c.progress.dom().contains(token) ==> exists|i: int|
                        0 <= i < tasks@.len() && #[trigger] tasks@[i].token@ == token
                &&& forall|i: int, j: int|
                    0 <= i < j < tasks@.len() ==> tasks@[i].token@ != tasks@[j].token@
            },
    {
        match &self.client {
            Some(client) => client.active_progress(),
            None => Vec::new(),
        }
    }

    /// The name of the trigger of the current state, and the workspace
    /// before where the trigger is a change of workspace.
    pub fn trigger_info(&self) -> (info: (&'static str, Option<String>))
        ensures
            info.0@ == trigger_name(self@.init_trigger),
            text_of(info.1) == trigger_previous(self@.init_trigger),
    {
        match &self.init_trigger {
            InitTrigger::Unset => ("none", None),
            InitTrigger::InitialStart => ("initial_start", None),
            InitTrigger::WorkspaceChange { previous } => ("workspace_change", Some(previous.clone())),
        }
    }

    /// Whether the workspace root is on disk, as the file system says at
    /// the time of the call.
    pub fn workspace_exists(&self) -> (exists: bool) {
        path_exists(self.workspace_root.as_str())
    }

    /// Requests a shutdown of the session: returns the `shutdown` request to
    /// send. `None`, and no change, without a session that is ready.
    pub fn shutdown(&mut self, now: u64) -> (farewell: Option<Outgoing>)
        ensures
            final(self)@.workspace_root == old(self)@.workspace_root,
            final(self)@.init_trigger == old(self)@.init_trigger,
            match old(self)@.client {
                Some(c) => final(self)@.client == Some(shutting_down(c, now)) && match farewell {
                    Some(out) => can_shut_down(c) && out@ == (OutgoingView {
                        id: c.router.next_id,
                        message: request_message(c.router.next_id, "shutdown"@, JsonView::Null),
                    }),
                    None => !can_shut_down(c),
                },
                None => final(self)@.client is None && farewell is None,
            },
    {
        let mut taken: Option<RustAnalyzerClient> = None;
        core::mem::swap(&mut self.client, &mut taken);
        match taken {
            Some(mut client) => {
                let farewell = client.shutdown(now);
                self.client = Some(client);
                farewell
            },
            None => None,
        }
    }
}

/// The name of the state that a server reports: `error` without its
/// workspace on disk, else `stopped` without a session, else `indexing`
/// while a background task is in flight, else `ready`.
pub open spec fn state_name(workspace_valid: bool, has_client: bool, is_indexing: bool) -> Seq<char> {
    if !workspace_valid {
        "error"@
    } else if !has_client {
        "stopped"@
    } else if is_indexing {
        "indexing"@
    } else {
        "ready"@
    }
}

/// Names the state that a server reports.
pub fn server_state(workspace_valid: bool, has_client: bool, is_indexing: bool) -> (name:
    &'static str)
    ensures
        name@ == state_name(workspace_valid, has_client, is_indexing),
{
    if !workspace_valid {
        "error"
    } else if !has_client {
        "stopped"
    } else if is_indexing {
        "indexing"
    } else {
        "ready"
    }
}

/// A progress entry as a JSON object: token and title, and message and
/// percentage where it has them.
pub open spec fn entry_json(entry: ProgressEntryView) -> JsonView {
    let head = seq![
        ("token"@, JsonView::String(entry.token)),
        ("title"@, JsonView::String(entry.title)),
    ];
    let with_message = match entry.message {
        Some(m) => head.push(("message"@, JsonView::String(m))),
        None => head,
    };
    JsonView::Object(
        match entry.percentage {
            Some(p) => with_message.push(("percentage"@, number(p as u64))),
            None => with_message,
        },
    )
}

/// Writes a progress entry as a JSON object.
pub fn progress_entry_json(entry: &ProgressEntry) -> (object: Json)
    ensures
        object@ == entry_json(entry@),
{
    let mut members: Vec<(String, Json)> = Vec::new();
    members.push(("token".to_owned(), Json::String(entry.token.clone())));
    members.push(("title".to_owned(), Json::String(entry.title.clone())));
    assert(view_members(members@) =~= seq![
        ("token"@, JsonView::String(entry.token@)),
        ("title"@, JsonView::String(entry.title@)),
    ]);
    match &entry.message {
        Some(m) => {
            let ghost prior = members@;
            let member = ("message".to_owned(), Json::String(m.clone()));
            proof {
                lemma_view_members_push(prior, member);
            }
            members.push(member);
        },
        None => {},
    }
    match entry.percentage {
        Some(p) => {
            let ghost prior = members@;
            let member = ("percentage".to_owned(), Json::number(p as u64));
            proof {
                lemma_view_members_push(prior, member);
            }
            members.push(member);
        },
        None => {},
    }
    Json::Object(members)
}

/// The views of the entries of `tasks`, as JSON objects.
pub open spec fn entries_json(tasks: Seq<ProgressEntry>) -> Seq<JsonView> {
    Seq::new(tasks.len(), |i: int| entry_json(tasks[i]@))
}

/// What a server answers to a health check.
pub open spec fn health_view(workspace: Seq<char>, initialized: bool) -> JsonView {
    JsonView::Object(
        seq![
            ("status"@, JsonView::String("ok"@)),
            ("workspace"@, JsonView::String(workspace)),
            ("initialized"@, JsonView::Bool(initialized)),
        ],
    )
}

/// What a server answers when asked for its workspace.
pub open spec fn workspace_view(workspace: Seq<char>, initialized: bool) -> JsonView {
    JsonView::Object(
        seq![
            ("workspace"@, JsonView::String(workspace)),
            ("initialized"@, JsonView::Bool(initialized)),
        ],
    )
}

/// What a server reports of its status. The workspace before is a member
/// only where there is one.
pub open spec fn status_view(
    workspace: Seq<char>,
    workspace_valid: bool,
    has_client: bool,
    is_indexing: bool,
    trigger: Seq<char>,
    previous_workspace: Option<Seq<char>>,
    tasks: Seq<JsonView>,
) -> JsonView {
    let members = seq![
        ("workspace"@, JsonView::String(workspace)),
        ("workspace_valid"@, JsonView::Bool(workspace_valid)),
        ("state"@, JsonView::String(state_name(workspace_valid, has_client, is_indexing))),
        ("initialized"@, JsonView::Bool(has_client)),
        ("indexing"@, JsonView::Bool(is_indexing)),
        ("trigger"@, JsonView::String(trigger)),
        ("progress"@, JsonView::Array(tasks)),
    ];
    JsonView::Object(
        match previous_workspace {
            Some(previous) => members.push(("previous_workspace"@, JsonView::String(previous))),
            None => members,
        },
    )
}

/// Writes the answer to a health check.
pub fn health_report(workspace: &str, initialized: bool) -> (report: Json)
    ensures
        report@ == health_view(workspace@, initialized),
{
    Json::object3(
        "status",
        Json::string("ok"),
        "workspace",
        Json::string(workspace),
        "initialized",
        Json::Bool(initialized),
    )
}

/// Writes the answer to a question for the workspace.
pub fn workspace_report(workspace: &str, initialized: bool) -> (report: Json)
    ensures
        report@ == workspace_view(workspace@, initialized),
{
    Json::object2("workspace", Json::string(workspace), "initialized", Json::Bool(initialized))
}

/// Writes the status report of a server.
pub fn status_report(
    workspace: &str,
    workspace_valid: bool,
    has_client: bool,
    is_indexing: bool,
    trigger: &str,
    previous_workspace: Option<String>,
    active_tasks: &Vec<ProgressEntry>,
) -> (report: Json)
    ensures
        report@ == status_view(
            workspace@,
            workspace_valid,
            has_client,
            is_indexing,
            trigger@,
            text_of(previous_workspace),
            entries_json(active_tasks@),
        ),
{
    let mut tasks: Vec<Json> = Vec::new();
    let mut i: usize = 0;
    proof {
        assert(view_items(tasks@) =~= entries_json(active_tasks@).take(0));
    }
    while i < active_tasks.len()
        invariant
            i <= active_tasks@.len(),
            view_items(tasks@) == entries_json(active_tasks@).take(i as int),
        decreases active_tasks@.len() - i,
    {
        let ghost prior = tasks@;
        let object = progress_entry_json(&active_tasks[i]);
        proof {
            lemma_view_items_push(prior, object);
            assert(entries_json(active_tasks@).take(i as int + 1) =~= entries_json(
                active_tasks@,
            ).take(i as int).push(object@));
        }
        tasks.push(object);
        i = i + 1;
    }
    proof {
        assert(entries_json(active_tasks@).take(i as int) =~= entries_json(active_tasks@));
    }
    let mut members: Vec<(String, Json)> = Vec::new();
    members.push(("workspace".to_owned(), Json::string(workspace)));
    members.push(("workspace_valid".to_owned(), Json::Bool(workspace_valid)));
    members.push(
        (
            "state".to_owned(),
            Json::string(server_state(workspace_valid, has_client, is_indexing)),
        ),
    );
    members.push(("initialized".to_owned(), Json::Bool(has_client)));
    members.push(("indexing".to_owned(), Json::Bool(is_indexing)));
    members.push(("trigger".to_owned(), Json::string(trigger)));
    members.push(("progress".to_owned(), Json::array(tasks)));
    assert(view_members(members@) =~= seq![
        ("workspace"@, JsonView::String(workspace@)),
        ("workspace_valid"@, JsonView::Bool(workspace_valid)),
        ("state"@, JsonView::String(state_name(workspace_valid, has_client, is_indexing))),
        ("initialized"@, JsonView::Bool(has_client)),
        ("indexing"@, JsonView::Bool(is_indexing)),
        ("trigger"@, JsonView::String(trigger@)),
        ("progress"@, JsonView::Array(entries_json(active_tasks@))),
    ]);
    match previous_workspace {
        Some(previous) => {
            let ghost prior = members@;
            let member = ("previous_workspace".to_owned(), Json::String(previous));
            proof {
                lemma_view_members_push(prior, member);
            }
            members.push(member);
        },
        None => {},
    }
    Json::Object(members)
}

/// Writes the text that reports a skipped switch of workspace.
pub fn skipped_message(root: &str) -> (text: String)
    ensures
        text@ == skipped_text(root@),
{
    let mut text = "Already initialized: ".to_owned();
    text.append(root);
    text.append(" (skipped)");
    text
}

/// Writes the text that reports a switch of workspace.
pub fn switched_message(root: &str) -> (text: String)
    ensures
        text@ == switched_text(root@),
{
    let mut text = "Workspace set to: ".to_owned();
    text.append(root);
    text
}

/// A switch to another workspace leaves nothing of the session before: the
/// server has no session until one is started, and the session that is
/// started then is a new one for the new workspace, with nothing open and
/// with empty caches.
pub proof fn lemma_switch_starts_afresh(server: ServerView, root: Seq<char>, now: u64)
    requires
        !attached_to(server, root),
    ensures
        switched(server, root).client is None,
        switched(server, root).workspace_root == root,
        ensured(switched(server, root), true, now).client == Some(started(created(root), now)),
        started(created(root), now).documents == Seq::<OpenDocumentView>::empty(),
        started(created(root), now).diagnostics == Map::<Seq<char>, Seq<JsonView>>::empty(),
        started(created(root), now).progress == Map::<Seq<char>, ProgressEntryView>::empty(),
{
}

} // verus!
