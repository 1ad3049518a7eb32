//! The notifications of the backend that the client acts on, read into
//! typed values.

use vstd::prelude::*;
use crate::diagnostics::clone_items;
use crate::json::{view_items, Json, JsonView, NumberView};
use crate::progress::text_of;
use crate::text::{decimal, str_eq, u64_to_string};

verus! {

/// What a notification tells the client.
#[derive(Debug, PartialEq, Eq)]
pub enum Notice {
    /// A background task began.
    ProgressBegin { token: String, title: String, message: Option<String>, percentage: Option<u32> },
    /// A background task reports where it stands.
    ProgressReport { token: String, message: Option<String>, percentage: Option<u32> },
    /// A background task ended.
    ProgressEnd { token: String },
    /// The full, current list of diagnostics of a document.
    Diagnostics { uri: String, diagnostics: Vec<Json> },
    /// Nothing the client acts on.
    Other,
}

/// The mathematical value of a [`Notice`].
pub enum NoticeView {
    ProgressBegin {
        token: Seq<char>,
        title: Seq<char>,
        message: Option<Seq<char>>,
        percentage: Option<u32>,
    },
    ProgressReport { token: Seq<char>, message: Option<Seq<char>>, percentage: Option<u32> },
    ProgressEnd { token: Seq<char> },
    Diagnostics { uri: Seq<char>, diagnostics: Seq<JsonView> },
    Other,
}

impl View for Notice {
    type V = NoticeView;

    open spec fn view(&self) -> NoticeView {
        match self {
            Notice::ProgressBegin { token, title, message, percentage } => NoticeView::ProgressBegin {
                token: token@,
                title: title@,
                message: text_of(*message),
                percentage: *percentage,
            },
            Notice::ProgressReport { token, message, percentage } => NoticeView::ProgressReport {
                token: token@,
                message: text_of(*message),
                percentage: *percentage,
            },
            Notice::ProgressEnd { token } => NoticeView::ProgressEnd { token: token@ },
            Notice::Diagnostics { uri, diagnostics } => NoticeView::Diagnostics {
                uri: uri@,
                diagnostics: view_items(diagnostics@),
            },
            Notice::Other => NoticeView::Other,
        }
    }
}

/// The token of a progress notification as text: a string token is its own
/// text, an integer token is written in decimal.
pub open spec fn token_text(token: JsonView) -> Option<Seq<char>> {
    match token {
        JsonView::String(text) => Some(text),
        JsonView::Number(NumberView::PosInt(n)) => Some(decimal(n as nat)),
        _ => None,
    }
}

/// A percentage: a non-negative integer that fits 32 bits.
pub open spec fn percentage_of(value: JsonView) -> Option<u32> {
    match value.as_u64() {
        Some(n) => if n <= u32::MAX {
            Some(n as u32)
        } else {
            None
        },
        None => None,
    }
}

/// The text of `value`, or the empty text where it is not a string.
pub open spec fn text_or_empty(value: JsonView) -> Seq<char> {
    match value.as_str() {
        Some(text) => text,
        None => Seq::empty(),
    }
}

/// What a progress notification with the parameters `params` says.
pub open spec fn progress_notice(params: JsonView) -> NoticeView {
    match token_text(params.field("token"@)) {
        Some(token) => {
            let value = params.field("value"@);
            let kind = value.field("kind"@).as_str();
            if kind == Some("begin"@) {
                NoticeView::ProgressBegin {
                    token,
                    title: text_or_empty(value.field("title"@)),
                    message: value.field("message"@).as_str(),
                    percentage: percentage_of(value.field("percentage"@)),
                }
            } else if kind == Some("report"@) {
                NoticeView::ProgressReport {
                    token,
                    message: value.field("message"@).as_str(),
                    percentage: percentage_of(value.field("percentage"@)),
                }
            } else if kind == Some("end"@) {
                NoticeView::ProgressEnd { token }
            } else {
                NoticeView::Other
            }
        },
        None => NoticeView::Other,
    }
}

/// What a publication of diagnostics with the parameters `params` says.
pub open spec fn diagnostics_notice(params: JsonView) -> NoticeView {
    match params.field("uri"@).as_str() {
        Some(uri) => NoticeView::Diagnostics {
            uri,
            diagnostics: match params.field("diagnostics"@).as_array() {
                Some(items) => items,
                None => Seq::empty(),
            },
        },
        None => NoticeView::Other,
    }
}

/// What the notification `method` with the parameters `params` says.
pub open spec fn notice_of(method: Seq<char>, params: JsonView) -> NoticeView {
    if method == "$/progress"@ {
        progress_notice(params)
    } else if method == "textDocument/publishDiagnostics"@ {
        diagnostics_notice(params)
    } else {
        NoticeView::Other
    }
}

fn read_token(token: &Json) -> (text: Option<String>)
    ensures
        text_of(text) == token_text(token@),
{
    match token {
        Json::String(text) => Some(text.clone()),
        Json::Number(crate::json::Number::PosInt(n)) => Some(u64_to_string(*n)),
        _ => None,
    }
}

fn read_percentage(value: &Json) -> (percentage: Option<u32>)
    ensures
        percentage == percentage_of(value@),
{
    match value.as_u64() {
        Some(n) => if n <= u32::MAX as u64 {
            Some(n as u32)
        } else {
            None
        },
        None => None,
    }
}

fn read_progress(params: &Json) -> (notice: Notice)
    ensures
        notice@ == progress_notice(params@),
{
    let token = match read_token(&params.field("token")) {
        Some(token) => token,
        None => {
            return Notice::Other;
        },
    };
    let value = params.field("value");
    let kind = match value.text_field("kind") {
        Some(kind) => kind,
        None => {
            return Notice::Other;
        },
    };
    if str_eq(kind.as_str(), "begin") {
        let title = match value.text_field("title") {
            Some(title) => title,
            None => String::new(),
        };
        Notice::ProgressBegin {
            token,
            title,
            message: value.text_field("message"),
            percentage: read_percentage(&value.field("percentage")),
        }
    } else if str_eq(kind.as_str(), "report") {
        Notice::ProgressReport {
            token,
            message: value.text_field("message"),
            percentage: read_percentage(&value.field("percentage")),
        }
    } else if str_eq(kind.as_str(), "end") {
        Notice::ProgressEnd { token }
    } else {
        Notice::Other
    }
}

fn read_publication(params: &Json) -> (notice: Notice)
    ensures
        notice@ == diagnostics_notice(params@),
{
    let uri = match params.text_field("uri") {
        Some(uri) => uri,
        None => {
            return Notice::Other;
        },
    };
    let listed = params.field("diagnostics");
    let diagnostics = match listed.as_array() {
        Some(items) => clone_items(items),
        None => {
            let empty: Vec<Json> = Vec::new();
            assert(view_items(empty@) =~= Seq::<JsonView>::empty());
            empty
        },
    };
    Notice::Diagnostics { uri, diagnostics }
}

/// Reads the notification `method` with the parameters `params`.
pub fn parse_notification(method: &str, params: &Json) -> (notice: Notice)
    ensures
        notice@ == notice_of(method@, params@),
{
    if str_eq(method, "$/progress") {
        read_progress(params)
    } else if str_eq(method, "textDocument/publishDiagnostics") {
        read_publication(params)
    } else {
        Notice::Other
    }
}

} // verus!
