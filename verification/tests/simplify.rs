use rust_analyzer_server::json::{Json, Number};
use rust_analyzer_server::simplify::{
    format_location, format_place, simplify, simplify_entry, strip_file_scheme, symbol_kind, Shape,
};

fn s(t: &str) -> Json {
    Json::String(t.to_string())
}

fn n(v: u64) -> Json {
    Json::Number(Number::PosInt(v))
}

fn obj(members: Vec<(&str, Json)>) -> Json {
    Json::Object(members.into_iter().map(|(k, v)| (k.to_string(), v)).collect())
}

fn range(line: u64, character: u64) -> Json {
    obj(vec![
        ("start", obj(vec![("line", n(line)), ("character", n(character))])),
        ("end", obj(vec![("line", n(line + 1)), ("character", n(0))])),
    ])
}

#[test]
fn file_scheme_is_stripped() {
    assert_eq!(strip_file_scheme("file:///home/u/a.rs"), "/home/u/a.rs");
    assert_eq!(strip_file_scheme("file://"), "");
    assert_eq!(strip_file_scheme("file:/x"), "file:/x");
    assert_eq!(strip_file_scheme("untitled:1"), "untitled:1");
    assert_eq!(strip_file_scheme(""), "");
    assert_eq!(strip_file_scheme("file:///caf\u{e9}/\u{4e2d}.rs"), "/caf\u{e9}/\u{4e2d}.rs");
    assert_eq!(strip_file_scheme("xfile:///a"), "xfile:///a");
}

#[test]
fn locations_are_written_with_colons() {
    assert_eq!(format_place(0, 0), "0:0");
    assert_eq!(format_place(12, 345), "12:345");
    assert_eq!(format_location("/a/b.rs", 10, 4), "/a/b.rs:10:4");
    assert_eq!(
        format_location("", u64::MAX, 0),
        format!(":{}:0", u64::MAX)
    );
}

#[test]
fn definitions_are_shortened() {
    let link = obj(vec![
        ("targetUri", s("file:///ws/src/lib.rs")),
        ("targetRange", range(1, 0)),
        ("targetSelectionRange", range(3, 7)),
    ]);
    let broken = obj(vec![("targetUri", s("file:///ws/src/lib.rs"))]);
    assert_eq!(
        simplify(Shape::Definition, Json::Array(vec![link.clone(), broken, link])),
        Json::Array(vec![
            obj(vec![("location", s("/ws/src/lib.rs:3:7"))]),
            obj(vec![("location", s("/ws/src/lib.rs:3:7"))]),
        ])
    );
}

#[test]
fn references_and_implementations_are_shortened() {
    let reference = obj(vec![("uri", s("file:///ws/a.rs")), ("range", range(9, 2))]);
    assert_eq!(
        simplify(Shape::Reference, Json::Array(vec![reference])),
        Json::Array(vec![obj(vec![("location", s("/ws/a.rs:9:2"))])])
    );
    let implementation = obj(vec![
        ("targetUri", s("/plain/path.rs")),
        ("targetRange", range(4, 0)),
        ("targetSelectionRange", range(5, 5)),
    ]);
    assert_eq!(
        simplify(Shape::Implementation, Json::Array(vec![implementation])),
        Json::Array(vec![obj(vec![("location", s("/plain/path.rs:4:0"))])])
    );
}

#[test]
fn parent_modules_are_shortened() {
    let module = obj(vec![("targetUri", s("file:///ws/src/lib.rs"))]);
    assert_eq!(
        simplify(Shape::ParentModule, Json::Array(vec![module, n(3)])),
        Json::Array(vec![obj(vec![("location", s("/ws/src/lib.rs"))])])
    );
}

#[test]
fn calls_are_shortened() {
    let end = obj(vec![("name", s("helper")), ("uri", s("file:///ws/h.rs")), ("range", range(2, 4))]);
    let incoming = obj(vec![("from", end.clone()), ("fromRanges", Json::Array(vec![]))]);
    let outgoing = obj(vec![("to", end), ("fromRanges", Json::Array(vec![]))]);
    assert_eq!(
        simplify(Shape::IncomingCall, Json::Array(vec![incoming.clone(), outgoing.clone()])),
        Json::Array(vec![obj(vec![("caller", s("helper")), ("location", s("/ws/h.rs:2:4"))])])
    );
    assert_eq!(
        simplify(Shape::OutgoingCall, Json::Array(vec![incoming, outgoing])),
        Json::Array(vec![obj(vec![("callee", s("helper")), ("location", s("/ws/h.rs:2:4"))])])
    );
    let nameless = obj(vec![("from", obj(vec![("uri", s("u")), ("range", range(0, 0))]))]);
    assert_eq!(simplify_entry(Shape::IncomingCall, &nameless), None);
}

#[test]
fn inlay_hints_are_shortened() {
    let plain = obj(vec![
        ("position", obj(vec![("line", n(1)), ("character", n(9))])),
        ("label", s(": i32")),
        ("kind", n(1)),
    ]);
    let parts = obj(vec![
        ("position", obj(vec![("line", n(2)), ("character", n(0))])),
        (
            "label",
            Json::Array(vec![
                s("a"),
                obj(vec![("value", s("b"))]),
                obj(vec![("other", s("x"))]),
                n(1),
                obj(vec![("value", s("c"))]),
            ]),
        ),
        ("kind", n(2)),
    ]);
    let kindless = obj(vec![
        ("position", obj(vec![("line", n(3)), ("character", n(3))])),
        ("label", Json::Array(vec![])),
    ]);
    let odd_kind = obj(vec![
        ("position", obj(vec![("line", n(4)), ("character", n(4))])),
        ("label", s("l")),
        ("kind", n(7)),
    ]);
    let no_label = obj(vec![("position", obj(vec![("line", n(5)), ("character", n(5))]))]);
    let bad_label = obj(vec![
        ("position", obj(vec![("line", n(5)), ("character", n(5))])),
        ("label", n(1)),
    ]);
    assert_eq!(
        simplify(
            Shape::InlayHint,
            Json::Array(vec![plain, parts, kindless, odd_kind, no_label, bad_label])
        ),
        Json::Array(vec![
            obj(vec![("position", s("1:9")), ("label", s(": i32")), ("kind", s("type"))]),
            obj(vec![("position", s("2:0")), ("label", s("abc")), ("kind", s("parameter"))]),
            obj(vec![("position", s("3:3")), ("label", s("")), ("kind", s("type"))]),
            obj(vec![("position", s("4:4")), ("label", s("l")), ("kind", s("other"))]),
        ])
    );
}

#[test]
fn workspace_symbols_are_shortened() {
    let symbol = |name: &str, kind: u64| {
        obj(vec![
            ("name", s(name)),
            ("kind", n(kind)),
            ("location", obj(vec![("uri", s("file:///ws/m.rs")), ("range", range(7, 1))])),
        ])
    };
    let no_location = obj(vec![("name", s("x")), ("kind", n(12))]);
    assert_eq!(
        simplify(
            Shape::WorkspaceSymbol,
            Json::Array(vec![symbol("main", 12), no_location, symbol("S", 23), symbol("q", 99)])
        ),
        Json::Array(vec![
            obj(vec![("name", s("main")), ("kind", s("function")), ("location", s("/ws/m.rs:7:1"))]),
            obj(vec![("name", s("S")), ("kind", s("struct")), ("location", s("/ws/m.rs:7:1"))]),
            obj(vec![("name", s("q")), ("kind", s("other")), ("location", s("/ws/m.rs:7:1"))]),
        ])
    );
}

#[test]
fn symbol_kinds_have_names() {
    let names = [
        "other", "file", "module", "namespace", "package", "class", "method", "property", "field",
        "constructor", "enum", "interface", "function", "variable", "constant", "string", "number",
        "boolean", "array", "other", "other", "other", "other", "struct", "other",
    ];
    for (kind, name) in names.iter().enumerate() {
        assert_eq!(symbol_kind(kind as u64), *name);
    }
    assert_eq!(symbol_kind(u64::MAX), "other");
}

#[test]
fn non_lists_pass_through() {
    let value = obj(vec![("contents", s("text"))]);
    assert_eq!(simplify(Shape::Definition, value.clone()), value);
    assert_eq!(simplify(Shape::Reference, Json::Null), Json::Null);
    assert_eq!(simplify(Shape::InlayHint, s("x")), s("x"));
    assert_eq!(simplify(Shape::WorkspaceSymbol, Json::Array(vec![])), Json::Array(vec![]));
}
