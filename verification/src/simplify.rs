//! Short forms of the backend's results: of each element of a result list
//! only a name and a `path:line:character` location are kept.

use vstd::prelude::*;
use vstd::string::StrSliceExecFns;
use vstd::string::StringExecFns;
use crate::json::{lemma_view_items_push, view_items, Json, JsonView};
use crate::progress::text_of;
use crate::text::{decimal, u64_to_string};

verus! {

/// The kind of result list to shorten.
#[derive(Debug, Clone, Copy, PartialEq, Eq, Structural)]
pub enum Shape {
    /// Links to definitions.
    Definition,
    /// Locations of references.
    Reference,
    /// Links to implementations.
    Implementation,
    /// Links to parent modules.
    ParentModule,
    /// Calls into an item.
    IncomingCall,
    /// Calls out of an item.
    OutgoingCall,
    /// Inlay hints.
    InlayHint,
    /// Symbols of the workspace.
    WorkspaceSymbol,
}

/// The path of a file uri: the uri without a leading `file://`.
pub open spec fn path_of(uri: Seq<char>) -> Seq<char> {
    if uri.len() >= 7 && uri.subrange(0, 7) == "file://"@ {
        uri.skip(7)
    } else {
        uri
    }
}

/// A place as `line:character`.
pub open spec fn place_text(line: u64, character: u64) -> Seq<char> {
    decimal(line as nat) + ":"@ + decimal(character as nat)
}

/// A location as `path:line:character`.
pub open spec fn location_text(path: Seq<char>, line: u64, character: u64) -> Seq<char> {
    path + ":"@ + place_text(line, character)
}

/// The location that `value` names: its uri under `uri_key`, and the start
/// of its range under `range_key`. `None` where the uri is no string or a
/// coordinate of the start is no non-negative integer.
pub open spec fn located(value: JsonView, uri_key: Seq<char>, range_key: Seq<char>) -> Option<
    Seq<char>,
> {
    let start = value.field(range_key).field("start"@);
    match (
        value.field(uri_key).as_str(),
        start.field("line"@).as_u64(),
        start.field("character"@).as_u64(),
    ) {
        (Some(uri), Some(line), Some(character)) => Some(
            location_text(path_of(uri), line, character),
        ),
        _ => None,
    }
}

/// An object with the one text member `key`.
pub open spec fn text_object(key: Seq<char>, text: Seq<char>) -> JsonView {
    JsonView::Object(seq![(key, JsonView::String(text))])
}

/// An object that names something under `name_key` and gives its location.
pub open spec fn named_location(name_key: Seq<char>, name: Seq<char>, location: Seq<char>) -> JsonView {
    JsonView::Object(
        seq![(name_key, JsonView::String(name)), ("location"@, JsonView::String(location))],
    )
}

/// The short form of one end of a call: its name under `name_key`, and its
/// location.
pub open spec fn call_entry(end: JsonView, name_key: Seq<char>) -> Option<JsonView> {
    match (end.field("name"@).as_str(), located(end, "uri"@, "range"@)) {
        (Some(name), Some(location)) => Some(named_location(name_key, name, location)),
        _ => None,
    }
}

/// The name of a symbol kind.
pub open spec fn symbol_kind_name(kind: u64) -> Seq<char> {
    if kind == 1 {
        "file"@
    } else if kind == 2 {
        "module"@
    } else if kind == 3 {
        "namespace"@
    } else if kind == 4 {
        "package"@
    } else if kind == 5 {
        "class"@
    } else if kind == 6 {
        "method"@
    } else if kind == 7 {
        "property"@
    } else if kind == 8 {
        "field"@
    } else if kind == 9 {
        "constructor"@
    } else if kind == 10 {
        "enum"@
    } else if kind == 11 {
        "interface"@
    } else if kind == 12 {
        "function"@
    } else if kind == 13 {
        "variable"@
    } else if kind == 14 {
        "constant"@
    } else if kind == 15 {
        "string"@
    } else if kind == 16 {
        "number"@
    } else if kind == 17 {
        "boolean"@
    } else if kind == 18 {
        "array"@
    } else if kind == 23 {
        "struct"@
    } else {
        "other"@
    }
}

/// The short form of a workspace symbol: its name, the name of its kind,
/// and its location.
pub open spec fn symbol_entry(symbol: JsonView) -> Option<JsonView> {
    match (
        symbol.field("name"@).as_str(),
        symbol.field("kind"@).as_u64(),
        located(symbol.field("location"@), "uri"@, "range"@),
    ) {
        (Some(name), Some(kind), Some(location)) => Some(
            JsonView::Object(
                seq![
                    ("name"@, JsonView::String(name)),
                    ("kind"@, JsonView::String(symbol_kind_name(kind))),
                    ("location"@, JsonView::String(location)),
                ],
            ),
        ),
        _ => None,
    }
}

/// The text of one part of a hint label: the part itself where it is a
/// string, else its `value` where that is a string, else nothing.
pub open spec fn part_text(part: JsonView) -> Seq<char> {
    match part.as_str() {
        Some(text) => text,
        None => match part.field("value"@).as_str() {
            Some(text) => text,
            None => Seq::empty(),
        },
    }
}

/// The texts of the parts of a hint label, joined.
pub open spec fn joined(parts: Seq<JsonView>) -> Seq<char>
    decreases parts.len(),
{
    if parts.len() == 0 {
        Seq::empty()
    } else {
        joined(parts.drop_last()) + part_text(parts.last())
    }
}

/// The label of a hint: a string, or the joined parts of an array.
pub open spec fn label_text(label: JsonView) -> Option<Seq<char>> {
    match label {
        JsonView::String(text) => Some(text),
        JsonView::Array(parts) => Some(joined(parts)),
        _ => None,
    }
}

/// The name of a hint kind; a hint without a kind counts as a type hint.
pub open spec fn hint_kind_name(kind: JsonView) -> Seq<char> {
    match kind.as_u64() {
        Some(k) => if k == 1 {
            "type"@
        } else if k == 2 {
            "parameter"@
        } else {
            "other"@
        },
        None => "type"@,
    }
}

/// The short form of an inlay hint: its position, its label and the name of
/// its kind.
pub open spec fn hint_entry(hint: JsonView) -> Option<JsonView> {
    let position = hint.field("position"@);
    match (
        position.field("line"@).as_u64(),
        position.field("character"@).as_u64(),
        label_text(hint.field("label"@)),
    ) {
        (Some(line), Some(character), Some(label)) => Some(
            JsonView::Object(
                seq![
                    ("position"@, JsonView::String(place_text(line, character))),
                    ("label"@, JsonView::String(label)),
                    ("kind"@, JsonView::String(hint_kind_name(hint.field("kind"@)))),
                ],
            ),
        ),
        _ => None,
    }
}

/// The short form of one element of a result list; `None` for an element
/// that lacks what the short form is made of.
pub open spec fn entry(shape: Shape, item: JsonView) -> Option<JsonView> {
    match shape {
        Shape::Definition => match located(item, "targetUri"@, "targetSelectionRange"@) {
            Some(location) => Some(text_object("location"@, location)),
            None => None,
        },
        Shape::Reference => match located(item, "uri"@, "range"@) {
            Some(location) => Some(text_object("location"@, location)),
            None => None,
        },
        Shape::Implementation => match located(item, "targetUri"@, "targetRange"@) {
            Some(location) => Some(text_object("location"@, location)),
            None => None,
        },
        Shape::ParentModule => match item.field("targetUri"@).as_str() {
            Some(uri) => Some(text_object("location"@, path_of(uri))),
            None => None,
        },
        Shape::IncomingCall => call_entry(item.field("from"@), "caller"@),
        Shape::OutgoingCall => call_entry(item.field("to"@), "callee"@),
        Shape::InlayHint => hint_entry(item),
        Shape::WorkspaceSymbol => symbol_entry(item),
    }
}

/// The short form of a result: of a list, the short forms of its elements
/// that have one, in their order; anything else as it is.
pub open spec fn simplified(shape: Shape, result: JsonView) -> JsonView {
    match result {
        JsonView::Array(items) => JsonView::Array(
            items.filter_map(|item: JsonView| entry(shape, item)),
        ),
        _ => result,
    }
}

/// Drops a leading `file://` from a uri.
pub fn strip_file_scheme(uri: &str) -> (path: String)
    ensures
        path@ == path_of(uri@),
{
    proof {
        reveal_strlit("file://");
    }
    let n = uri.unicode_len();
    if n >= 7 && uri.get_char(0) == 'f' && uri.get_char(1) == 'i' && uri.get_char(2) == 'l'
        && uri.get_char(3) == 'e' && uri.get_char(4) == ':' && uri.get_char(5) == '/'
        && uri.get_char(6) == '/' {
        assert(uri@.subrange(0, 7) =~= "file://"@);
        let rest = uri.substring_char(7, n);
        assert(rest@ =~= uri@.skip(7));
        rest.to_owned()
    } else {
        proof {
            if uri@.len() >= 7 && uri@.subrange(0, 7) == "file://"@ {
                let head = uri@.subrange(0, 7);
                assert(head[0] == 'f');
                assert(head[1] == 'i');
                assert(head[2] == 'l');
                assert(head[3] == 'e');
                assert(head[4] == ':');
                assert(head[5] == '/');
                assert(head[6] == '/');
            }
        }
        uri.to_owned()
    }
}

/// Writes a place as `line:character`.
pub fn format_place(line: u64, character: u64) -> (text: String)
    ensures
        text@ == place_text(line, character),
{
    let mut text = u64_to_string(line);
    text.append(":");
    text.append(u64_to_string(character).as_str());
    text
}

/// Writes a location as `path:line:character`.
pub fn format_location(path: &str, line: u64, character: u64) -> (text: String)
    ensures
        text@ == location_text(path@, line, character),
{
    let mut text = path.to_owned();
    text.append(":");
    text.append(format_place(line, character).as_str());
    assert(text@ =~= location_text(path@, line, character));
    text
}

fn locate(value: &Json, uri_key: &str, range_key: &str) -> (location: Option<String>)
    ensures
        text_of(location) == located(value@, uri_key@, range_key@),
{
    let start = value.field(range_key).field("start");
    let uri = match value.text_field(uri_key) {
        Some(uri) => uri,
        None => {
            return None;
        },
    };
    let line = match start.field("line").as_u64() {
        Some(line) => line,
        None => {
            return None;
        },
    };
    let character = match start.field("character").as_u64() {
        Some(character) => character,
        None => {
            return None;
        },
    };
    let path = strip_file_scheme(uri.as_str());
    Some(format_location(path.as_str(), line, character))
}

fn location_object(located: Option<String>) -> (out: Option<Json>)
    ensures
        match out {
            Some(object) => text_of(located) is Some && object@ == text_object(
                "location"@,
                text_of(located)->Some_0,
            ),
            None => located is None,
        },
{
    match located {
        Some(location) => Some(Json::object1("location", Json::String(location))),
        None => None,
    }
}

fn shorten_call(end: &Json, name_key: &str) -> (out: Option<Json>)
    ensures
        match out {
            Some(object) => call_entry(end@, name_key@) == Some(object@),
            None => call_entry(end@, name_key@) is None,
        },
{
    let name = match end.text_field("name") {
        Some(name) => name,
        None => {
            return None;
        },
    };
    let location = match locate(end, "uri", "range") {
        Some(location) => location,
        None => {
            return None;
        },
    };
    Some(Json::object2(name_key, Json::String(name), "location", Json::String(location)))
}

/// The name of the symbol kind `kind`.
pub fn symbol_kind(kind: u64) -> (name: &'static str)
    ensures
        name@ == symbol_kind_name(kind),
{
    if kind == 1 {
        "file"
    } else if kind == 2 {
        "module"
    } else if kind == 3 {
        "namespace"
    } else if kind == 4 {
        "package"
    } else if kind == 5 {
        "class"
    } else if kind == 6 {
        "method"
    } else if kind == 7 {
        "property"
    } else if kind == 8 {
        "field"
    } else if kind == 9 {
        "constructor"
    } else if kind == 10 {
        "enum"
    } else if kind == 11 {
        "interface"
    } else if kind == 12 {
        "function"
    } else if kind == 13 {
        "variable"
    } else if kind == 14 {
        "constant"
    } else if kind == 15 {
        "string"
    } else if kind == 16 {
        "number"
    } else if kind == 17 {
        "boolean"
    } else if kind == 18 {
        "array"
    } else if kind == 23 {
        "struct"
    } else {
        "other"
    }
}

fn shorten_symbol(symbol: &Json) -> (out: Option<Json>)
    ensures
        match out {
            Some(object) => symbol_entry(symbol@) == Some(object@),
            None => symbol_entry(symbol@) is None,
        },
{
    let name = match symbol.text_field("name") {
        Some(name) => name,
        None => {
            return None;
        },
    };
    let kind = match symbol.field("kind").as_u64() {
        Some(kind) => kind,
        None => {
            return None;
        },
    };
    let location = match locate(&symbol.field("location"), "uri", "range") {
        Some(location) => location,
        None => {
            return None;
        },
    };
    Some(
        Json::object3(
            "name",
            Json::String(name),
            "kind",
            Json::string(symbol_kind(kind)),
            "location",
            Json::String(location),
        ),
    )
}

fn join_parts(parts: &Vec<Json>) -> (text: String)
    ensures
        text@ == joined(view_items(parts@)),
{
    let ghost all = view_items(parts@);
    let mut text = String::new();
    let mut i: usize = 0;
    proof {
        assert(all.take(0) =~= Seq::<JsonView>::empty());
    }
    while i < parts.len()
        invariant
            i <= parts@.len(),
            all == view_items(parts@),
            text@ == joined(all.take(i as int)),
        decreases parts@.len() - i,
    {
        proof {
            let next = all.take(i as int + 1);
            assert(next.drop_last() =~= all.take(i as int));
            assert(next.last() == parts@[i as int]@);
        }
        match parts[i].as_str() {
            Some(piece) => {
                text.append(piece);
            },
            None => match parts[i].text_field("value") {
                Some(piece) => {
                    text.append(piece.as_str());
                },
                None => {
                    assert(text@ + Seq::<char>::empty() =~= text@);
                },
            },
        }
        i = i + 1;
    }
    proof {
        assert(all.take(i as int) =~= all);
    }
    text
}

fn read_label(label: &Json) -> (text: Option<String>)
    ensures
        text_of(text) == label_text(label@),
{
    match label {
        Json::String(text) => Some(text.clone()),
        Json::Array(parts) => Some(join_parts(parts)),
        _ => None,
    }
}

fn hint_kind(kind: &Json) -> (name: &'static str)
    ensures
        name@ == hint_kind_name(kind@),
{
    match kind.as_u64() {
        Some(k) => if k == 1 {
            "type"
        } else if k == 2 {
            "parameter"
        } else {
            "other"
        },
        None => "type",
    }
}

fn shorten_hint(hint: &Json) -> (out: Option<Json>)
    ensures
        match out {
            Some(object) => hint_entry(hint@) == Some(object@),
            None => hint_entry(hint@) is None,
        },
{
    let position = hint.field("position");
    let line = match position.field("line").as_u64() {
        Some(line) => line,
        None => {
            return None;
        },
    };
    let character = match position.field("character").as_u64() {
        Some(character) => character,
        None => {
            return None;
        },
    };
    let label = match read_label(&hint.field("label")) {
        Some(label) => label,
        None => {
            return None;
        },
    };
    Some(
        Json::object3(
            "position",
            Json::String(format_place(line, character)),
            "label",
            Json::String(label),
            "kind",
            Json::string(hint_kind(&hint.field("kind"))),
        ),
    )
}

/// The short form of one element of a result list.
pub fn simplify_entry(shape: Shape, item: &Json) -> (out: Option<Json>)
    ensures
        match out {
            Some(object) => entry(shape, item@) == Some(object@),
            None => entry(shape, item@) is None,
        },
{
    match shape {
        Shape::Definition => location_object(locate(item, "targetUri", "targetSelectionRange")),
        Shape::Reference => location_object(locate(item, "uri", "range")),
        Shape::Implementation => location_object(locate(item, "targetUri", "targetRange")),
        Shape::ParentModule => match item.text_field("targetUri") {
            Some(uri) => Some(
                Json::object1("location", Json::String(strip_file_scheme(uri.as_str()))),
            ),
            None => None,
        },
        Shape::IncomingCall => shorten_call(&item.field("from"), "caller"),
        Shape::OutgoingCall => shorten_call(&item.field("to"), "callee"),
        Shape::InlayHint => shorten_hint(item),
        Shape::WorkspaceSymbol => shorten_symbol(item),
    }
}

/// Shortens a result: of a list, each element that has a short form is
/// replaced by it and the others are left out; anything else is returned as
/// it is.
pub fn simplify(shape: Shape, result: Json) -> (out: Json)
    ensures
        out@ == simplified(shape, result@),
{
    let items = match &result {
        Json::Array(items) => items,
        _ => {
            return result;
        },
    };
    let ghost all = view_items(items@);
    let ghost f = |item: JsonView| entry(shape, item);
    let mut kept: Vec<Json> = Vec::new();
    let mut i: usize = 0;
    proof {
        assert(all.take(0) =~= Seq::<JsonView>::empty());
        assert(view_items(kept@) =~= Seq::<JsonView>::empty());
    }
    while i < items.len()
        invariant
            i <= items@.len(),
            all == view_items(items@),
            f == |item: JsonView| entry(shape, item),
            view_items(kept@) == all.take(i as int).filter_map(f),
        decreases items@.len() - i,
    {
        proof {
            all.lemma_filter_map_take_succ(f, i as int);
            assert(all[i as int] == items@[i as int]@);
        }
        match simplify_entry(shape, &items[i]) {
            Some(short) => {
                let ghost prior = kept@;
                kept.push(short);
                proof {
                    lemma_view_items_push(prior, short);
                    assert(view_items(prior).push(short@) =~= view_items(prior) + seq![short@]);
                }
            },
            None => {
                assert(view_items(kept@) + Seq::<JsonView>::empty() =~= view_items(kept@));
            },
        }
        i = i + 1;
    }
    proof {
        assert(all.take(i as int) =~= all);
    }
    Json::array(kept)
}

} // verus!
