//! The registry of documents that have been announced as open to the
//! backend. A document is announced once per session.

use vstd::prelude::*;
use crate::json::{Json, JsonView, NumberView};
use crate::message::{notification, notification_message};

verus! {

/// A document that has been announced to the backend.
#[derive(Debug, PartialEq, Eq)]
pub struct OpenDocument {
    pub uri: String,
    /// When the document was announced, in milliseconds on the caller's
    /// clock.
    pub announced_at: u64,
}

/// The mathematical value of an [`OpenDocument`].
pub struct OpenDocumentView {
    pub uri: Seq<char>,
    pub announced_at: u64,
}

impl View for OpenDocument {
    type V = OpenDocumentView;

    open spec fn view(&self) -> OpenDocumentView {
        OpenDocumentView { uri: self.uri@, announced_at: self.announced_at }
    }
}

/// Whether the document `uri` is among `documents`.
pub open spec fn has_open(documents: Seq<OpenDocumentView>, uri: Seq<char>) -> bool {
    exists|i: int| 0 <= i < documents.len() && (#[trigger] documents[i]).uri == uri
}

/// The open documents after `uri` was ensured open at the time `now`: it
/// joins them, announced at `now`, unless it is one of them already.
pub open spec fn opened(documents: Seq<OpenDocumentView>, uri: Seq<char>, now: u64) -> Seq<
    OpenDocumentView,
> {
    if has_open(documents, uri) {
        documents
    } else {
        documents.push(OpenDocumentView { uri, announced_at: now })
    }
}

/// When the document `uri` was announced; `None` where it is not open.
pub open spec fn announced(documents: Seq<OpenDocumentView>, uri: Seq<char>) -> Option<u64> {
    if has_open(documents, uri) {
        Some(
            documents[choose|i: int|
                0 <= i < documents.len() && (#[trigger] documents[i]).uri == uri].announced_at,
        )
    } else {
        None
    }
}

/// Whether no document stands twice in `documents`.
pub open spec fn each_once(documents: Seq<OpenDocumentView>) -> bool {
    forall|i: int, j: int|
        0 <= i < j < documents.len() ==> (#[trigger] documents[i]).uri != (
        #[trigger] documents[j]).uri
}

/// The parameters that announce the document `uri` with the text `content`.
pub open spec fn did_open_params(uri: Seq<char>, content: Seq<char>) -> JsonView {
    JsonView::Object(
        seq![
            (
                "textDocument"@,
                JsonView::Object(
                    seq![
                        ("uri"@, JsonView::String(uri)),
                        ("languageId"@, JsonView::String("rust"@)),
                        ("version"@, JsonView::Number(NumberView::PosInt(1))),
                        ("text"@, JsonView::String(content)),
                    ],
                ),
            ),
        ],
    )
}

/// The notification that announces the document `uri` with the text
/// `content`.
pub open spec fn did_open_message(uri: Seq<char>, content: Seq<char>) -> JsonView {
    notification_message("textDocument/didOpen"@, did_open_params(uri, content))
}

/// Builds the notification that announces a document.
pub fn did_open(uri: &str, content: &str) -> (msg: Json)
    ensures
        msg@ == did_open_message(uri@, content@),
{
    let document = Json::object4(
        "uri",
        Json::string(uri),
        "languageId",
        Json::string("rust"),
        "version",
        Json::number(1),
        "text",
        Json::string(content),
    );
    notification("textDocument/didOpen", Json::object1("textDocument", document))
}

/// The documents announced to the backend in this session, in the order of
/// their announcement, none twice.
#[derive(Debug)]
pub struct DocumentRegistry {
    open: Vec<OpenDocument>,
}

impl DocumentRegistry {
    #[verifier::type_invariant]
    spec fn uris_distinct(self) -> bool {
        forall|i: int, j: int|
            0 <= i < j < self.open@.len() ==> self.open@[i].uri@ != self.open@[j].uri@
    }

    /// The open documents, oldest first, each with the time of its
    /// announcement.
    pub closed spec fn view(&self) -> Seq<OpenDocumentView> {
        Seq::new(self.open@.len(), |i: int| self.open@[i]@)
    }

    /// A registry with no open document.
    pub fn new() -> (registry: Self)
        ensures
            registry@ == Seq::<OpenDocumentView>::empty(),
    {
        let registry = DocumentRegistry { open: Vec::new() };
        assert(registry@ =~= Seq::<OpenDocumentView>::empty());
        registry
    }

    fn position(&self, uri: &String) -> (found: Option<usize>)
        ensures
            match found {
                Some(i) => i < self.open@.len() && self.open@[i as int].uri@ == uri@ && has_open(
                    self@,
                    uri@,
                ) && announced(self@, uri@) == Some(self.open@[i as int].announced_at),
                None => !has_open(self@, uri@),
            },
    {
        proof {
            use_type_invariant(self);
        }
        let mut i: usize = 0;
        while i < self.open.len()
            invariant
                i <= self.open@.len(),
                self.uris_distinct(),
                forall|k: int| 0 <= k < i ==> self.open@[k].uri@ != uri@,
            decreases self.open@.len() - i,
        {
            if self.open[i].uri == *uri {
                proof {
                    assert(self@[i as int].uri == uri@);
                    let k = choose|k: int|
                        0 <= k < self@.len() && (#[trigger] self@[k]).uri == uri@;
                    assert(self.open@[k].uri@ == uri@);
                    assert(k == i);
                }
                return Some(i);
            }
            i = i + 1;
        }
        proof {
            if has_open(self@, uri@) {
                let k = choose|k: int| 0 <= k < self@.len() && (#[trigger] self@[k]).uri == uri@;
                assert(self.open@[k].uri@ == uri@);
            }
        }
        None
    }

    /// Whether `uri` has been announced.
    pub fn is_open(&self, uri: &str) -> (open: bool)
        ensures
            open == has_open(self@, uri@),
    {
        let wanted = uri.to_owned();
        self.position(&wanted).is_some()
    }

    /// When `uri` was announced, on the clock of the caller who announced
    /// it; `None` where it has not been announced.
    pub fn announced_at(&self, uri: &str) -> (at: Option<u64>)
        ensures
            at == announced(self@, uri@),
    {
        let wanted = uri.to_owned();
        match self.position(&wanted) {
            Some(i) => Some(self.open[i].announced_at),
            None => None,
        }
    }

    /// Makes sure `uri` is open. The first time, the document is recorded
    /// with `now` as the time of its announcement, and the notification that
    /// announces it with its full `content` is returned, for the caller to
    /// send. Every later time nothing changes and there is nothing to send.
    pub fn ensure_open(&mut self, uri: &str, content: &str, now: u64) -> (announce: Option<Json>)
        ensures
            final(self)@ == opened(old(self)@, uri@, now),
            has_open(final(self)@, uri@),
            each_once(final(self)@),
            match announce {
                Some(msg) => !has_open(old(self)@, uri@) && msg@ == did_open_message(
                    uri@,
                    content@,
                ),
                None => has_open(old(self)@, uri@),
            },
    {
        proof {
            use_type_invariant(&*self);
        }
        let wanted = uri.to_owned();
        let ghost before = *self;
        proof {
            assert forall|i: int, j: int| 0 <= i < j < before@.len() implies (
            #[trigger] before@[i]).uri != (#[trigger] before@[j]).uri by {
                assert(before.open@[i].uri@ != before.open@[j].uri@);
            }
        }
        match self.position(&wanted) {
            Some(i) => None,
            None => {
                let mut documents: Vec<OpenDocument> = Vec::new();
                core::mem::swap(&mut self.open, &mut documents);
                documents.push(OpenDocument { uri: wanted, announced_at: now });
                proof {
                    assert forall|i: int, j: int| 0 <= i < j < documents@.len() implies documents@[i].uri@
                        != documents@[j].uri@ by {
                        if j == documents@.len() - 1 {
                            assert(before@[i].uri == before.open@[i].uri@);
                        }
                    }
                }
                self.open = documents;
                proof {
                    let added = OpenDocumentView { uri: uri@, announced_at: now };
                    assert(self@ =~= before@.push(added));
                    assert(self@[before@.len() as int].uri == uri@);
                    assert forall|i: int, j: int| 0 <= i < j < self@.len() implies (
                    #[trigger] self@[i]).uri != (#[trigger] self@[j]).uri by {
                        assert(self.open@[i].uri@ != self.open@[j].uri@);
                    }
                }
                Some(did_open(uri, content))
            },
        }
    }

    /// The uris of the open documents, oldest first, none twice.
    pub fn open_documents(&self) -> (uris: Vec<String>)
        ensures
            uris@.len() == self@.len(),
            forall|i: int| 0 <= i < uris@.len() ==> (#[trigger] uris@[i])@ == self@[i].uri,
            forall|i: int, j: int| 0 <= i < j < uris@.len() ==> uris@[i]@ != uris@[j]@,
    {
        proof {
            use_type_invariant(self);
        }
        let mut uris: Vec<String> = Vec::new();
        let mut i: usize = 0;
        while i < self.open.len()
            invariant
                i <= self.open@.len(),
                uris@.len() == i,
                forall|k: int| 0 <= k < i ==> (#[trigger] uris@[k])@ == self.open@[k].uri@,
            decreases self.open@.len() - i,
        {
            uris.push(self.open[i].uri.clone());
            i = i + 1;
        }
        uris
    }

    /// The number of open documents.
    pub fn len(&self) -> (n: usize)
        ensures
            n == self@.len(),
    {
        self.open.len()
    }
}

/// Ensuring a document open a second time changes nothing: it stays open,
/// and the time of its announcement stays that of the first time.
pub proof fn lemma_ensure_open_is_idempotent(
    documents: Seq<OpenDocumentView>,
    uri: Seq<char>,
    first: u64,
    later: u64,
)
    ensures
        has_open(opened(documents, uri, first), uri),
        opened(opened(documents, uri, first), uri, later) == opened(documents, uri, first),
{
    if !has_open(documents, uri) {
        let added = OpenDocumentView { uri, announced_at: first };
        assert(documents.push(added)[documents.len() as int].uri == uri);
    }
}

/// A document is announced at the time at which it was first ensured open:
/// that time is recorded for it, and no later opening of it or of another
/// document changes it.
pub proof fn lemma_announcement_is_kept(
    documents: Seq<OpenDocumentView>,
    uri: Seq<char>,
    now: u64,
    other: Seq<char>,
    later: u64,
)
    requires
        each_once(documents),
        !has_open(documents, uri),
    ensures
        announced(opened(documents, uri, now), uri) == Some(now),
        announced(opened(opened(documents, uri, now), other, later), uri) == Some(now),
        each_once(opened(documents, uri, now)),
{
    let added = OpenDocumentView { uri, announced_at: now };
    let first = documents.push(added);
    let n = documents.len() as int;
    assert(first[n].uri == uri);
    assert forall|i: int, j: int| 0 <= i < j < first.len() implies (#[trigger] first[i]).uri != (
    #[trigger] first[j]).uri by {
        if j == n {
            assert(documents[i].uri != uri);
        } else {
            assert(documents[i].uri != documents[j].uri);
        }
    }
    let k = choose|k: int| 0 <= k < first.len() && (#[trigger] first[k]).uri == uri;
    if k != n {
        assert(documents[k].uri == uri);
    }
    let second = opened(first, other, later);
    assert(second[n].uri == uri);
    let m = choose|m: int| 0 <= m < second.len() && (#[trigger] second[m]).uri == uri;
    if m != n {
        if m < first.len() {
            assert(first[m].uri == uri);
            assert(documents[m].uri == uri);
        } else {
            assert(second[m].uri == other);
            assert(!has_open(first, other));
        }
    }
}

} // verus!
