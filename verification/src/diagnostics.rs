//! The cache of diagnostics that the backend has published, by document,
//! and what the client makes of pulled diagnostics.

use vstd::prelude::*;
use crate::json::{lemma_view_items_eq, view_items, Json, JsonView};

verus! {

/// The cache after the backend published `diagnostics` for `uri`: the list
/// stored for `uri` is the published one, whatever was stored before.
pub open spec fn published(
    cache: Map<Seq<char>, Seq<JsonView>>,
    uri: Seq<char>,
    diagnostics: Seq<JsonView>,
) -> Map<Seq<char>, Seq<JsonView>> {
    cache.insert(uri, diagnostics)
}

/// A copy of `items`.
pub fn clone_items(items: &Vec<Json>) -> (copy: Vec<Json>)
    ensures
        view_items(copy@) == view_items(items@),
        copy@.len() == items@.len(),
        forall|k: int| 0 <= k < items@.len() ==> copy@[k]@ == items@[k]@,
{
    let mut copy: Vec<Json> = Vec::new();
    let mut i: usize = 0;
    while i < items.len()
        invariant
            i <= items@.len(),
            copy@.len() == i,
            forall|k: int| 0 <= k < i ==> copy@[k]@ == items@[k]@,
        decreases items@.len() - i,
    {
        copy.push(items[i].clone());
        i = i + 1;
    }
    proof {
        lemma_view_items_eq(copy@, items@);
    }
    copy
}

/// The current diagnostics of each document, as last published.
#[derive(Debug)]
pub struct DiagnosticsCache {
    entries: Vec<(String, Vec<Json>)>,
}

impl DiagnosticsCache {
    #[verifier::type_invariant]
    spec fn uris_distinct(self) -> bool {
        forall|i: int, j: int|
            0 <= i < j < self.entries@.len() ==> self.entries@[i].0@ != self.entries@[j].0@
    }

    spec fn holds(self, uri: Seq<char>) -> bool {
        exists|i: int| 0 <= i < self.entries@.len() && #[trigger] self.entries@[i].0@ == uri
    }

    spec fn index_of(self, uri: Seq<char>) -> int {
        choose|i: int| 0 <= i < self.entries@.len() && #[trigger] self.entries@[i].0@ == uri
    }

    /// The cache: each document that has had a publication, with its list.
    pub closed spec fn view(&self) -> Map<Seq<char>, Seq<JsonView>> {
        Map::new(
            |uri: Seq<char>| self.holds(uri),
            |uri: Seq<char>| view_items(self.entries@[self.index_of(uri)].1@),
        )
    }

    /// An empty cache.
    pub fn new() -> (cache: Self)
        ensures
            cache@ == Map::<Seq<char>, Seq<JsonView>>::empty(),
    {
        let cache = DiagnosticsCache { entries: Vec::new() };
        assert(cache@ =~= Map::<Seq<char>, Seq<JsonView>>::empty());
        cache
    }

    fn position(&self, uri: &String) -> (found: Option<usize>)
        ensures
            match found {
                Some(i) => i < self.entries@.len() && self.entries@[i as int].0@ == uri@,
                None => !self.holds(uri@),
            },
    {
        let mut i: usize = 0;
        while i < self.entries.len()
            invariant
                i <= self.entries@.len(),
                forall|k: int| 0 <= k < i ==> self.entries@[k].0@ != uri@,
            decreases self.entries@.len() - i,
        {
            if self.entries[i].0 == *uri {
                return Some(i);
            }
            i = i + 1;
        }
        None
    }

    fn take(&mut self) -> (entries: Vec<(String, Vec<Json>)>)
        ensures
            entries@ == old(self).entries@,
            final(self).entries@.len() == 0,
    {
        let mut entries: Vec<(String, Vec<Json>)> = Vec::new();
        core::mem::swap(&mut self.entries, &mut entries);
        entries
    }

    /// Stores a publication: `diagnostics` becomes the whole list of `uri`,
    /// in place of any list stored before.
    pub fn publish(&mut self, uri: String, diagnostics: Vec<Json>)
        ensures
            final(self)@ == published(old(self)@, uri@, view_items(diagnostics@)),
            final(self)@.dom().contains(uri@),
            final(self)@[uri@].len() == diagnostics@.len(),
    {
        proof {
            use_type_invariant(&*self);
        }
        let ghost before = *self;
        let ghost key = uri@;
        let ghost list = view_items(diagnostics@);
        let found = self.position(&uri);
        let mut entries = self.take();
        match found {
            Some(i) => {
                entries.set(i, (uri, diagnostics));
            },
            None => {
                entries.push((uri, diagnostics));
            },
        }
        self.entries = entries;
        proof {
            let after = *self;
            let at = match found {
                Some(i) => i as int,
                None => before.entries@.len() as int,
            };
            assert(after.entries@[at].0@ == key);
            assert forall|t: Seq<char>| after.holds(t) == (before.holds(t) || t == key) by {
                if before.holds(t) {
                    let k = before.index_of(t);
                    assert(after.entries@[k].0@ == t);
                }
                if t == key {
                    assert(after.entries@[at].0@ == t);
                }
                if after.holds(t) {
                    let k = after.index_of(t);
                    if k != at {
                        assert(before.entries@[k].0@ == t);
                    }
                }
            }
            assert forall|t: Seq<char>| after.holds(t) implies #[trigger] after@[t] == published(
                before@,
                key,
                list,
            )[t] by {
                let k = after.index_of(t);
                if t != key {
                    assert(before.entries@[k].0@ == t);
                    assert(before.index_of(t) == k);
                } else {
                    assert(k == at);
                }
            }
            assert(after@ =~= published(before@, key, list));
        }
    }

    /// A copy of the list stored for `uri`; `None` where the backend has
    /// published nothing for it.
    pub fn get(&self, uri: &str) -> (stored: Option<Vec<Json>>)
        ensures
            match stored {
                Some(list) => self@.dom().contains(uri@) && view_items(list@) == self@[uri@]
                    && list@.len() == self@[uri@].len(),
                None => !self@.dom().contains(uri@),
            },
    {
        proof {
            use_type_invariant(self);
        }
        let wanted = uri.to_owned();
        match self.position(&wanted) {
            Some(i) => {
                proof {
                    assert(self.entries@[i as int].0@ == uri@);
                    assert(self.holds(uri@));
                    assert(self.index_of(uri@) == i);
                }
                Some(clone_items(&self.entries[i].1))
            },
            None => None,
        }
    }

    /// The documents that have a stored list, each once.
    pub fn uris(&self) -> (uris: Vec<String>)
        ensures
            forall|i: int| 0 <= i < uris@.len() ==> self@.dom().contains(#[trigger] uris@[i]@),
            forall|uri: Seq<char>|
                self@.dom().contains(uri) ==> exists|i: int|
                    0 <= i < uris@.len() && #[trigger] uris@[i]@ == uri,
            forall|i: int, j: int| 0 <= i < j < uris@.len() ==> uris@[i]@ != uris@[j]@,
    {
        proof {
            use_type_invariant(self);
        }
        let mut uris: Vec<String> = Vec::new();
        let mut i: usize = 0;
        while i < self.entries.len()
            invariant
                i <= self.entries@.len(),
                uris@.len() == i,
                forall|k: int| 0 <= k < i ==> (#[trigger] uris@[k])@ == self.entries@[k].0@,
            decreases self.entries@.len() - i,
        {
            uris.push(self.entries[i].0.clone());
            i = i + 1;
        }
        proof {
            assert forall|k: int| 0 <= k < uris@.len() implies self@.dom().contains(
                #[trigger] uris@[k]@,
            ) by {
                assert(self.entries@[k].0@ == uris@[k]@);
                assert(self.holds(uris@[k]@));
            }
            assert forall|uri: Seq<char>| self@.dom().contains(uri) implies exists|i: int|
                0 <= i < uris@.len() && #[trigger] uris@[i]@ == uri by {
                let k = self.index_of(uri);
                assert(uris@[k]@ == uri);
            }
        }
        uris
    }
}

/// A publication replaces what was stored for its document and adds nothing
/// to it: the stored list is the published one, whatever the list before,
/// and the lists of other documents stay as they were.
pub proof fn lemma_publish_replaces(
    cache: Map<Seq<char>, Seq<JsonView>>,
    uri: Seq<char>,
    diagnostics: Seq<JsonView>,
    other: Seq<char>,
)
    requires
        other != uri,
    ensures
        published(cache, uri, diagnostics).dom().contains(uri),
        published(cache, uri, diagnostics)[uri] == diagnostics,
        published(cache, uri, diagnostics).dom().contains(other) == cache.dom().contains(other),
        cache.dom().contains(other) ==> published(cache, uri, diagnostics)[other] == cache[other],
{
}

/// Of two publications for one document the later one wins.
pub proof fn lemma_latest_publication_wins(
    cache: Map<Seq<char>, Seq<JsonView>>,
    uri: Seq<char>,
    first: Seq<JsonView>,
    second: Seq<JsonView>,
)
    ensures
        published(published(cache, uri, first), uri, second) == published(cache, uri, second),
{
    assert(published(published(cache, uri, first), uri, second) =~= published(cache, uri, second));
}

/// The diagnostics that a pull response carries: its `items`, or an empty
/// list where it has none.
pub open spec fn pulled_items(response: JsonView) -> JsonView {
    match response.get("items"@) {
        Some(items) => items,
        None => JsonView::Array(Seq::empty()),
    }
}

/// Reads the diagnostics out of the response to a pull request.
pub fn pull_items(response: &Json) -> (items: Json)
    ensures
        items@ == pulled_items(response@),
{
    match response.get("items") {
        Some(items) => items.clone(),
        None => Json::empty_array(),
    }
}

/// The line that `key` of the range of the diagnostic holds; 0 where it is
/// not a non-negative integer. Wider values are cut to 32 bits.
pub open spec fn range_line(diagnostic: JsonView, key: Seq<char>) -> Option<u32> {
    match diagnostic.get("range"@) {
        Some(range) => match range.get(key) {
            Some(position) => match position.field("line"@).as_u64() {
                Some(line) => Some((line % 0x1_0000_0000) as u32),
                None => Some(0u32),
            },
            None => None,
        },
        None => None,
    }
}

/// Whether the diagnostic has a range, with start and end, that overlaps
/// the lines `start_line..=end_line`.
pub open spec fn in_range(diagnostic: JsonView, start_line: u32, end_line: u32) -> bool {
    match (range_line(diagnostic, "start"@), range_line(diagnostic, "end"@)) {
        (Some(first), Some(last)) => first <= end_line && last >= start_line,
        _ => false,
    }
}

/// The diagnostics among `diagnostics` whose range overlaps the lines
/// `start_line..=end_line`, in their order.
pub open spec fn overlapping(diagnostics: Seq<JsonView>, start_line: u32, end_line: u32) -> Seq<
    JsonView,
> {
    diagnostics.filter(|d: JsonView| in_range(d, start_line, end_line))
}

/// What [`filter_diagnostics_in_range`] returns: the overlapping elements of
/// an array, and an empty array for anything else.
pub open spec fn filtered(diagnostics: JsonView, start_line: u32, end_line: u32) -> JsonView {
    match diagnostics {
        JsonView::Array(items) => JsonView::Array(overlapping(items, start_line, end_line)),
        _ => JsonView::Array(Seq::empty()),
    }
}

/// Filtering a sequence with one more element keeps that element exactly
/// when it passes.
proof fn lemma_filter_push(items: Seq<JsonView>, pred: spec_fn(JsonView) -> bool, item: JsonView)
    ensures
        items.push(item).filter(pred) == if pred(item) {
            items.filter(pred).push(item)
        } else {
            items.filter(pred)
        },
{
    reveal(Seq::filter);
    assert(items.push(item).drop_last() =~= items);
}

fn read_range_line(diagnostic: &Json, key: &str) -> (line: Option<u32>)
    ensures
        line == range_line(diagnostic@, key@),
{
    match diagnostic.get("range") {
        Some(range) => match range.get(key) {
            Some(position) => match position.field("line").as_u64() {
                Some(line) => Some((line % 0x1_0000_0000) as u32),
                None => Some(0),
            },
            None => None,
        },
        None => None,
    }
}

fn is_in_range(diagnostic: &Json, start_line: u32, end_line: u32) -> (yes: bool)
    ensures
        yes == in_range(diagnostic@, start_line, end_line),
{
    let first = read_range_line(diagnostic, "start");
    let last = read_range_line(diagnostic, "end");
    match (first, last) {
        (Some(first), Some(last)) => first <= end_line && last >= start_line,
        _ => false,
    }
}

/// Keeps the diagnostics whose range overlaps the lines
/// `start_line..=end_line`. Anything that is not an array gives an empty
/// array.
pub fn filter_diagnostics_in_range(diagnostics: &Json, start_line: u32, end_line: u32) -> (kept:
    Json)
    ensures
        kept@ == filtered(diagnostics@, start_line, end_line),
{
    let items = match diagnostics.as_array() {
        Some(items) => items,
        None => {
            return Json::empty_array();
        },
    };
    let ghost all = view_items(items@);
    let ghost pred = |d: JsonView| in_range(d, start_line, end_line);
    let mut kept: Vec<Json> = Vec::new();
    let mut i: usize = 0;
    proof {
        assert(all.take(0) =~= Seq::<JsonView>::empty());
        assert(view_items(kept@) =~= Seq::<JsonView>::empty());
    }
    while i < items.len()
        invariant
            i <= items@.len(),
            all == view_items(items@),
            pred == |d: JsonView| in_range(d, start_line, end_line),
            view_items(kept@) == all.take(i as int).filter(pred),
        decreases items@.len() - i,
    {
        let keep = is_in_range(&items[i], start_line, end_line);
        proof {
            let before = all.take(i as int);
            let next = all.take(i as int + 1);
            assert(next =~= before.push(all[i as int]));
            lemma_filter_push(before, pred, all[i as int]);
            assert(all[i as int] == items@[i as int]@);
            assert(pred(all[i as int]) == keep);
        }
        if keep {
            let ghost prior = kept@;
            let item = items[i].clone();
            kept.push(item);
            proof {
                crate::json::lemma_view_items_push(prior, item);
            }
        }
        i = i + 1;
    }
    proof {
        assert(all.take(i as int) =~= all);
    }
    Json::array(kept)
}

/// The report of the diagnostics of one file.
pub open spec fn file_report(file_path: Seq<char>, diagnostics: JsonView) -> JsonView {
    JsonView::Object(seq![("file"@, JsonView::String(file_path)), ("diagnostics"@, diagnostics)])
}

/// Makes the report of the diagnostics of the file `file_path`.
pub fn format_diagnostics(file_path: &str, diagnostics: &Json) -> (report: Json)
    ensures
        report@ == file_report(file_path@, diagnostics@),
{
    Json::object2("file", Json::string(file_path), "diagnostics", diagnostics.clone())
}

} // verus!
