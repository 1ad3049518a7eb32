//! Diagnostics of the whole workspace: where they come from, and the report
//! that is made of them.

use vstd::prelude::*;
use crate::error::RequestError;
use crate::json::{lemma_view_members_push, view_items, view_members, Json, JsonView};
use crate::lsp::number;
use crate::retry::{poll_view, PollView};

verus! {

/// How the diagnostics of the workspace are obtained after the
/// workspace-wide pull.
#[derive(Debug, PartialEq, Eq)]
pub enum WorkspacePlan {
    /// The backend answered the workspace-wide pull: this is the result.
    Done(Json),
    /// The backend did not: look up the diagnostics of each of these
    /// documents and collect them by uri.
    PerDocument(Vec<String>),
}

/// The mathematical value of a [`WorkspacePlan`].
pub enum WorkspacePlanView {
    Done(JsonView),
    PerDocument(Seq<Seq<char>>),
}

/// The texts of `uris`.
pub open spec fn texts(uris: Seq<String>) -> Seq<Seq<char>> {
    Seq::new(uris.len(), |i: int| uris[i]@)
}

impl View for WorkspacePlan {
    type V = WorkspacePlanView;

    open spec fn view(&self) -> WorkspacePlanView {
        match self {
            WorkspacePlan::Done(result) => WorkspacePlanView::Done(result@),
            WorkspacePlan::PerDocument(uris) => WorkspacePlanView::PerDocument(texts(uris@)),
        }
    }
}

/// The plan after the workspace-wide pull ended with `outcome`, with
/// `open_documents` open: its result where it succeeded, else the lookup of
/// every open document.
pub open spec fn planned(outcome: PollView, open_documents: Seq<Seq<char>>) -> WorkspacePlanView {
    match outcome {
        Ok(result) => WorkspacePlanView::Done(result),
        Err(_) => WorkspacePlanView::PerDocument(open_documents),
    }
}

/// Decides how the diagnostics of the workspace are obtained, from the
/// outcome of the workspace-wide pull.
pub fn plan_workspace_diagnostics(
    outcome: Result<Json, RequestError>,
    open_documents: Vec<String>,
) -> (plan: WorkspacePlan)
    ensures
        plan@ == planned(poll_view(outcome), texts(open_documents@)),
{
    match outcome {
        Ok(result) => WorkspacePlan::Done(result),
        Err(_) => WorkspacePlan::PerDocument(open_documents),
    }
}

/// Collects the diagnostics of the documents by uri, in the order given.
pub fn collect_by_uri(found: Vec<(String, Json)>) -> (all: Json)
    ensures
        all@ == JsonView::Object(view_members(found@)),
{
    Json::Object(found)
}

/// The severity of a diagnostic, where it has one.
pub open spec fn severity_of(diagnostic: JsonView) -> Option<u64> {
    diagnostic.field("severity"@).as_u64()
}

/// The number of diagnostics of the severity `severity` among `diagnostics`.
pub open spec fn count_of(diagnostics: Seq<JsonView>, severity: u64) -> nat
    decreases diagnostics.len(),
{
    if diagnostics.len() == 0 {
        0
    } else {
        count_of(diagnostics.drop_last(), severity) + if severity_of(diagnostics.last()) == Some(
            severity,
        ) {
            1nat
        } else {
            0nat
        }
    }
}

/// A count as a JSON number; a count beyond the range of 64 bits is
/// written as the largest number of that range.
pub open spec fn count_json(n: nat) -> JsonView {
    number(clipped(n))
}

/// A count cut off at the largest 64-bit number.
pub open spec fn clipped(n: nat) -> u64 {
    if n > u64::MAX {
        u64::MAX
    } else {
        n as u64
    }
}

/// The summary of the diagnostics of one file: how many there are of each
/// severity.
pub open spec fn file_summary(diagnostics: Seq<JsonView>) -> JsonView {
    JsonView::Object(
        seq![
            ("errors"@, count_json(count_of(diagnostics, 1))),
            ("warnings"@, count_json(count_of(diagnostics, 2))),
            ("information"@, count_json(count_of(diagnostics, 3))),
            ("hints"@, count_json(count_of(diagnostics, 4))),
        ],
    )
}

/// The diagnostics of a file that is reported: a list that is not empty.
pub open spec fn reported_list(diagnostics: JsonView) -> Option<Seq<JsonView>> {
    match diagnostics {
        JsonView::Array(items) => if items.len() > 0 {
            Some(items)
        } else {
            None
        },
        _ => None,
    }
}

/// The entry of a file in the report: its diagnostics and their summary.
pub open spec fn file_entry(diagnostics: JsonView) -> JsonView {
    JsonView::Object(
        seq![
            ("diagnostics"@, diagnostics),
            ("summary"@, file_summary(diagnostics.as_array().unwrap())),
        ],
    )
}

/// The entries of the files that are reported, in the order of `members`.
pub open spec fn file_entries(members: Seq<(Seq<char>, JsonView)>) -> Seq<(Seq<char>, JsonView)>
    decreases members.len(),
{
    if members.len() == 0 {
        Seq::empty()
    } else {
        let rest = file_entries(members.drop_last());
        let last = members.last();
        if reported_list(last.1) is Some {
            rest.push((last.0, file_entry(last.1)))
        } else {
            rest
        }
    }
}

/// The number of diagnostics of the severity `severity` in the files that
/// are reported.
pub open spec fn total_of(members: Seq<(Seq<char>, JsonView)>, severity: u64) -> nat
    decreases members.len(),
{
    if members.len() == 0 {
        0
    } else {
        total_of(members.drop_last(), severity) + match reported_list(members.last().1) {
            Some(items) => count_of(items, severity),
            None => 0nat,
        }
    }
}

/// The summary of the whole report: the number of files reported and the
/// number of diagnostics of each severity in them.
pub open spec fn workspace_summary(members: Seq<(Seq<char>, JsonView)>) -> JsonView {
    JsonView::Object(
        seq![
            ("total_files"@, count_json(file_entries(members).len())),
            ("total_errors"@, count_json(total_of(members, 1))),
            ("total_warnings"@, count_json(total_of(members, 2))),
            ("total_information"@, count_json(total_of(members, 3))),
            ("total_hints"@, count_json(total_of(members, 4))),
        ],
    )
}

/// The report of the diagnostics of the workspace `workspace`. A result
/// that maps uris to lists is reported file by file, with a summary of each
/// file that has diagnostics and of the whole. Any other result is passed
/// on with a note.
pub open spec fn workspace_report(workspace: Seq<char>, result: JsonView) -> JsonView {
    match result {
        JsonView::Object(members) => JsonView::Object(
            seq![
                ("workspace"@, JsonView::String(workspace)),
                ("files"@, JsonView::Object(file_entries(members))),
                ("summary"@, workspace_summary(members)),
            ],
        ),
        _ => JsonView::Object(
            seq![
                ("workspace"@, JsonView::String(workspace)),
                ("diagnostics"@, result),
                (
                    "summary"@,
                    JsonView::Object(
                        seq![
                            (
                                "note"@,
                                JsonView::String("Unexpected response format from rust-analyzer"@),
                            ),
                        ],
                    ),
                ),
            ],
        ),
    }
}

/// The counts of the four severities.
struct Tally {
    errors: u64,
    warnings: u64,
    information: u64,
    hints: u64,
}

/// Adds `b` to `a`, stopping at the largest 64-bit number.
fn add_clipped(a: u64, b: u64, Ghost(x): Ghost<nat>, Ghost(y): Ghost<nat>) -> (sum: u64)
    requires
        a == clipped(x),
        b == clipped(y),
    ensures
        sum == clipped(x + y),
{
    if a > u64::MAX - b {
        u64::MAX
    } else {
        a + b
    }
}

/// Counts the diagnostics of each severity.
fn tally(items: &Vec<Json>) -> (t: Tally)
    ensures
        t.errors == count_of(view_items(items@), 1),
        t.warnings == count_of(view_items(items@), 2),
        t.information == count_of(view_items(items@), 3),
        t.hints == count_of(view_items(items@), 4),
{
    let ghost all = view_items(items@);
    let mut t = Tally { errors: 0, warnings: 0, information: 0, hints: 0 };
    let mut i: usize = 0;
    proof {
        assert(all.take(0) =~= Seq::<JsonView>::empty());
    }
    while i < items.len()
        invariant
            i <= items@.len(),
            all == view_items(items@),
            t.errors == count_of(all.take(i as int), 1),
            t.warnings == count_of(all.take(i as int), 2),
            t.information == count_of(all.take(i as int), 3),
            t.hints == count_of(all.take(i as int), 4),
            t.errors <= i,
            t.warnings <= i,
            t.information <= i,
            t.hints <= i,
        decreases items@.len() - i,
    {
        proof {
            let next = all.take(i as int + 1);
            assert(next.drop_last() =~= all.take(i as int));
            assert(next.last() == items@[i as int]@);
        }
        match items[i].field("severity").as_u64() {
            Some(severity) => {
                if severity == 1 {
                    t.errors = t.errors + 1;
                } else if severity == 2 {
                    t.warnings = t.warnings + 1;
                } else if severity == 3 {
                    t.information = t.information + 1;
                } else if severity == 4 {
                    t.hints = t.hints + 1;
                }
            },
            None => {},
        }
        i = i + 1;
    }
    proof {
        assert(all.take(i as int) =~= all);
    }
    t
}

fn summary_of(t: &Tally) -> (summary: Json)
    ensures
        summary@ == JsonView::Object(
            seq![
                ("errors"@, number(t.errors)),
                ("warnings"@, number(t.warnings)),
                ("information"@, number(t.information)),
                ("hints"@, number(t.hints)),
            ],
        ),
{
    Json::object4(
        "errors",
        Json::number(t.errors),
        "warnings",
        Json::number(t.warnings),
        "information",
        Json::number(t.information),
        "hints",
        Json::number(t.hints),
    )
}

/// Makes the report of the diagnostics of the workspace from the result of
/// the query for them.
pub fn format_workspace_diagnostics(workspace_root: &str, result: &Json) -> (report: Json)
    ensures
        report@ == workspace_report(workspace_root@, result@),
{
    let members = match result {
        Json::Object(members) => members,
        _ => {
            return Json::object3(
                "workspace",
                Json::string(workspace_root),
                "diagnostics",
                result.clone(),
                "summary",
                Json::object1(
                    "note",
                    Json::string("Unexpected response format from rust-analyzer"),
                ),
            );
        },
    };
    let ghost all = view_members(members@);
    let mut files: Vec<(String, Json)> = Vec::new();
    let mut file_count: u64 = 0;
    let mut totals = Tally { errors: 0, warnings: 0, information: 0, hints: 0 };
    let mut i: usize = 0;
    proof {
        assert(all.take(0) =~= Seq::<(Seq<char>, JsonView)>::empty());
        assert(view_members(files@) =~= Seq::<(Seq<char>, JsonView)>::empty());
    }
    while i < members.len()
        invariant
            i <= members@.len(),
            all == view_members(members@),
            view_members(files@) == file_entries(all.take(i as int)),
            file_count == files@.len(),
            file_count <= i,
            totals.errors == clipped(total_of(all.take(i as int), 1)),
            totals.warnings == clipped(total_of(all.take(i as int), 2)),
            totals.information == clipped(total_of(all.take(i as int), 3)),
            totals.hints == clipped(total_of(all.take(i as int), 4)),
        decreases members@.len() - i,
    {
        let ghost seen = all.take(i as int);
        proof {
            let next = all.take(i as int + 1);
            assert(next.drop_last() =~= seen);
            assert(next.last() == (members@[i as int].0@, members@[i as int].1@));
        }
        match &members[i].1 {
            Json::Array(items) => {
                if items.len() > 0 {
                    let t = tally(items);
                    let entry = Json::object2(
                        "diagnostics",
                        members[i].1.clone(),
                        "summary",
                        summary_of(&t),
                    );
                    let ghost list = view_items(items@);
                    totals.errors = add_clipped(
                        totals.errors,
                        t.errors,
                        Ghost(total_of(seen, 1)),
                        Ghost(count_of(list, 1)),
                    );
                    totals.warnings = add_clipped(
                        totals.warnings,
                        t.warnings,
                        Ghost(total_of(seen, 2)),
                        Ghost(count_of(list, 2)),
                    );
                    totals.information = add_clipped(
                        totals.information,
                        t.information,
                        Ghost(total_of(seen, 3)),
                        Ghost(count_of(list, 3)),
                    );
                    totals.hints = add_clipped(
                        totals.hints,
                        t.hints,
                        Ghost(total_of(seen, 4)),
                        Ghost(count_of(list, 4)),
                    );
                    let ghost prior = files@;
                    let member = (members[i].0.clone(), entry);
                    proof {
                        lemma_view_members_push(prior, member);
                    }
                    files.push(member);
                    file_count = file_count + 1;
                }
            },
            _ => {},
        }
        i = i + 1;
    }
    proof {
        assert(all.take(i as int) =~= all);
    }
    let summary = Json::object4(
        "total_files",
        Json::number(file_count),
        "total_errors",
        Json::number(totals.errors),
        "total_warnings",
        Json::number(totals.warnings),
        "total_information",
        Json::number(totals.information),
    );
    let summary = match summary {
        Json::Object(mut fields) => {
            let ghost prior = fields@;
            let member = ("total_hints".to_owned(), Json::number(totals.hints));
            proof {
                lemma_view_members_push(prior, member);
            }
            fields.push(member);
            Json::Object(fields)
        },
        other => other,
    };
    proof {
        assert(summary@ =~= workspace_summary(all)) by {
            assert(summary@->Object_0 =~= workspace_summary(all)->Object_0);
        }
    }
    Json::object3(
        "workspace",
        Json::string(workspace_root),
        "files",
        Json::Object(files),
        "summary",
        summary,
    )
}

} // verus!
