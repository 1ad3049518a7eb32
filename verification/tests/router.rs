use rust_analyzer_server::diagnostics::{
    filter_diagnostics_in_range, pull_items, DiagnosticsCache,
};
use rust_analyzer_server::documents::{did_open, DocumentRegistry};
use rust_analyzer_server::json::{Json, Number};
use rust_analyzer_server::router::{PendingRequest, RequestRouter};

fn s(t: &str) -> Json {
    Json::String(t.to_string())
}

fn n(v: u64) -> Json {
    Json::Number(Number::PosInt(v))
}

fn obj(members: Vec<(&str, Json)>) -> Json {
    Json::Object(members.into_iter().map(|(k, v)| (k.to_string(), v)).collect())
}

#[test]
fn router_starts_empty_at_first_id() {
    let router = RequestRouter::new();
    assert_eq!(router.next_id(), 1);
    assert!(!router.has_pending());
    assert!(!router.is_pending(1));
}

#[test]
fn issue_gives_consecutive_ids() {
    let mut router = RequestRouter::new();
    assert_eq!(router.issue("a", 10), Some(1));
    assert_eq!(router.issue("b", 11), Some(2));
    assert_eq!(router.issue("a", 12), Some(3));
    assert_eq!(router.next_id(), 4);
    assert!(router.has_pending());
    assert!(router.is_pending(1) && router.is_pending(2) && router.is_pending(3));
    assert!(!router.is_pending(4));
}

#[test]
fn resolve_returns_the_request_once() {
    let mut router = RequestRouter::new();
    router.issue("a", 10);
    router.issue("b", 11);
    assert_eq!(
        router.resolve(2),
        Some(PendingRequest { id: 2, method: "b".to_string(), issued_at: 11 })
    );
    assert_eq!(router.resolve(2), None);
    assert_eq!(router.resolve(7), None);
    assert!(router.is_pending(1));
    assert!(router.has_pending());
    assert_eq!(router.issue("c", 12), Some(3));
}

#[test]
fn resolution_in_any_order_finds_own_request() {
    let mut router = RequestRouter::new();
    for i in 0..6u64 {
        router.issue(&format!("m{}", i + 1), i);
    }
    for id in [4u64, 1, 6, 2, 5, 3] {
        assert_eq!(
            router.resolve(id),
            Some(PendingRequest { id, method: format!("m{}", id), issued_at: id - 1 })
        );
    }
    assert!(!router.has_pending());
}

#[test]
fn fail_all_drains_and_keeps_counter() {
    let mut router = RequestRouter::new();
    router.issue("a", 1);
    router.issue("b", 2);
    router.resolve(1);
    router.issue("c", 3);
    let mut failed = router.fail_all();
    failed.sort_by_key(|r| r.id);
    assert_eq!(
        failed,
        vec![
            PendingRequest { id: 2, method: "b".to_string(), issued_at: 2 },
            PendingRequest { id: 3, method: "c".to_string(), issued_at: 3 },
        ]
    );
    assert!(!router.has_pending());
    assert!(router.fail_all().is_empty());
    assert_eq!(router.issue("d", 4), Some(4));
}

#[test]
fn registry_announces_each_document_once() {
    let mut registry = DocumentRegistry::new();
    assert_eq!(registry.len(), 0);
    assert!(!registry.is_open("a.rs"));
    assert_eq!(registry.ensure_open("a.rs", "one", 1), Some(did_open("a.rs", "one")));
    assert!(registry.is_open("a.rs"));
    assert_eq!(registry.ensure_open("a.rs", "two", 2), None);
    assert_eq!(registry.ensure_open("b.rs", "", 3), Some(did_open("b.rs", "")));
    assert_eq!(registry.ensure_open("a.rs", "three", 4), None);
    assert_eq!(registry.open_documents(), vec!["a.rs".to_string(), "b.rs".to_string()]);
    assert_eq!(registry.len(), 2);
    assert_eq!(registry.announced_at("a.rs"), Some(1));
    assert_eq!(registry.announced_at("b.rs"), Some(3));
    assert_eq!(registry.announced_at("c.rs"), None);
}

#[test]
fn did_open_carries_full_content() {
    assert_eq!(
        did_open("file:///x.rs", "fn main(){}"),
        obj(vec![
            ("jsonrpc", s("2.0")),
            ("method", s("textDocument/didOpen")),
            (
                "params",
                obj(vec![(
                    "textDocument",
                    obj(vec![
                        ("uri", s("file:///x.rs")),
                        ("languageId", s("rust")),
                        ("version", n(1)),
                        ("text", s("fn main(){}")),
                    ])
                )])
            ),
        ])
    );
}

#[test]
fn two_publications_three_then_one() {
    let mut cache = DiagnosticsCache::new();
    assert_eq!(cache.get("a.rs"), None);
    cache.publish("a.rs".to_string(), vec![n(1), n(2), n(3)]);
    assert_eq!(cache.get("a.rs"), Some(vec![n(1), n(2), n(3)]));
    cache.publish("a.rs".to_string(), vec![n(9)]);
    assert_eq!(cache.get("a.rs"), Some(vec![n(9)]));
    assert_eq!(cache.get("a.rs").unwrap().len(), 1);
}

#[test]
fn publication_leaves_other_documents_alone() {
    let mut cache = DiagnosticsCache::new();
    cache.publish("a.rs".to_string(), vec![n(1)]);
    cache.publish("b.rs".to_string(), vec![n(2), n(3)]);
    cache.publish("a.rs".to_string(), vec![]);
    assert_eq!(cache.get("a.rs"), Some(vec![]));
    assert_eq!(cache.get("b.rs"), Some(vec![n(2), n(3)]));
    assert_eq!(cache.get("c.rs"), None);
    let mut uris = cache.uris();
    uris.sort();
    assert_eq!(uris, vec!["a.rs".to_string(), "b.rs".to_string()]);
}

#[test]
fn pull_items_reads_items_or_empty() {
    assert_eq!(pull_items(&obj(vec![("items", Json::Array(vec![n(1)]))])), Json::Array(vec![n(1)]));
    assert_eq!(pull_items(&obj(vec![("items", Json::Null)])), Json::Null);
    assert_eq!(pull_items(&obj(vec![])), Json::Array(vec![]));
    assert_eq!(pull_items(&Json::Null), Json::Array(vec![]));
}

fn diagnostic(start: u64, end: u64) -> Json {
    obj(vec![
        ("message", s("m")),
        (
            "range",
            obj(vec![
                ("start", obj(vec![("line", n(start)), ("character", n(0))])),
                ("end", obj(vec![("line", n(end)), ("character", n(0))])),
            ]),
        ),
    ])
}

#[test]
fn filter_keeps_overlapping_ranges() {
    let all = Json::Array(vec![
        diagnostic(0, 2),
        diagnostic(3, 3),
        diagnostic(2, 10),
        diagnostic(6, 7),
        diagnostic(5, 5),
    ]);
    assert_eq!(
        filter_diagnostics_in_range(&all, 3, 5),
        Json::Array(vec![diagnostic(3, 3), diagnostic(2, 10), diagnostic(5, 5)])
    );
    assert_eq!(filter_diagnostics_in_range(&all, 11, 20), Json::Array(vec![]));
    assert_eq!(filter_diagnostics_in_range(&all, 0, u32::MAX), all);
}

#[test]
fn filter_drops_what_has_no_range() {
    let no_range = obj(vec![("message", s("m"))]);
    let no_end = obj(vec![("range", obj(vec![("start", obj(vec![("line", n(1))]))]))]);
    let no_lines = obj(vec![("range", obj(vec![("start", obj(vec![])), ("end", obj(vec![]))]))]);
    let odd_lines = obj(vec![("range", obj(vec![("start", s("x")), ("end", n(4))]))]);
    let all = Json::Array(vec![no_range, no_end, no_lines.clone(), odd_lines.clone(), n(1)]);
    assert_eq!(
        filter_diagnostics_in_range(&all, 0, 0),
        Json::Array(vec![no_lines, odd_lines])
    );
    assert_eq!(filter_diagnostics_in_range(&all, 1, 5), Json::Array(vec![]));
    assert_eq!(filter_diagnostics_in_range(&Json::Null, 0, 9), Json::Array(vec![]));
    assert_eq!(filter_diagnostics_in_range(&obj(vec![]), 0, 9), Json::Array(vec![]));
}

#[test]
fn filter_cuts_wide_lines_to_32_bits() {
    let wide = obj(vec![(
        "range",
        obj(vec![
            ("start", obj(vec![("line", n((1u64 << 32) + 4))])),
            ("end", obj(vec![("line", n((1u64 << 32) + 4))])),
        ]),
    )]);
    let all = Json::Array(vec![wide.clone()]);
    assert_eq!(filter_diagnostics_in_range(&all, 4, 4), Json::Array(vec![wide]));
    assert_eq!(filter_diagnostics_in_range(&all, 5, 9), Json::Array(vec![]));
}

#[test]
fn expire_removes_requests_past_their_timeout() {
    let mut router = RequestRouter::new();
    router.issue("a", 100);
    router.issue("b", 200);
    router.issue("c", 150);
    assert!(!router.is_overdue(1, 149, 50));
    assert!(router.is_overdue(1, 150, 50));
    assert!(!router.is_overdue(9, 150, 50));
    assert!(router.expire(149, 50).is_empty());
    let mut late = router.expire(200, 50);
    late.sort_by_key(|r| r.id);
    assert_eq!(
        late,
        vec![
            PendingRequest { id: 1, method: "a".to_string(), issued_at: 100 },
            PendingRequest { id: 3, method: "c".to_string(), issued_at: 150 },
        ]
    );
    assert!(!router.is_pending(1));
    assert!(router.is_pending(2));
    assert!(!router.is_pending(3));
    assert!(router.expire(50, 0).is_empty());
    assert_eq!(router.expire(200, 0).len(), 1);
    assert_eq!(router.issue("d", 300), Some(4));
}

#[test]
fn ids_run_out_at_the_largest() {
    let mut router = RequestRouter::starting_at(u64::MAX - 2);
    assert_eq!(router.issue("a", 0), Some(u64::MAX - 2));
    assert_eq!(router.issue("b", 0), Some(u64::MAX - 1));
    assert_eq!(router.next_id(), u64::MAX);
    assert_eq!(router.issue("c", 0), None);
    assert_eq!(router.issue("c", 0), None);
    assert_eq!(router.next_id(), u64::MAX);
    assert!(!router.is_pending(u64::MAX));
    assert_eq!(
        router.resolve(u64::MAX - 1),
        Some(PendingRequest { id: u64::MAX - 1, method: "b".to_string(), issued_at: 0 })
    );
}
