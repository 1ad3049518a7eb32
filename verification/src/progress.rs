//! The table of background tasks the backend has announced and not yet
//! finished, keyed by progress token.

use vstd::prelude::*;

verus! {

/// One background task in flight.
#[derive(Debug, PartialEq, Eq)]
pub struct ProgressEntry {
    pub token: String,
    pub title: String,
    pub message: Option<String>,
    pub percentage: Option<u32>,
}

/// The mathematical value of a [`ProgressEntry`].
pub struct ProgressEntryView {
    pub token: Seq<char>,
    pub title: Seq<char>,
    pub message: Option<Seq<char>>,
    pub percentage: Option<u32>,
}

/// The text of an optional string.
pub open spec fn text_of(s: Option<String>) -> Option<Seq<char>> {
    match s {
        Some(t) => Some(t@),
        None => None,
    }
}

impl View for ProgressEntry {
    type V = ProgressEntryView;

    open spec fn view(&self) -> ProgressEntryView {
        ProgressEntryView {
            token: self.token@,
            title: self.title@,
            message: text_of(self.message),
            percentage: self.percentage,
        }
    }
}

impl Clone for ProgressEntry {
    fn clone(&self) -> (res: Self)
        ensures
            res@ == self@,
    {
        let message = match &self.message {
            Some(m) => Some(m.clone()),
            None => None,
        };
        ProgressEntry {
            token: self.token.clone(),
            title: self.title.clone(),
            message,
            percentage: self.percentage,
        }
    }
}

/// The table after a task `token` begins: its entry is set, replacing any
/// entry the token had.
pub open spec fn begun(
    table: Map<Seq<char>, ProgressEntryView>,
    token: Seq<char>,
    title: Seq<char>,
    message: Option<Seq<char>>,
    percentage: Option<u32>,
) -> Map<Seq<char>, ProgressEntryView> {
    table.insert(token, ProgressEntryView { token, title, message, percentage })
}

/// The table after a report for `token`: message and percentage of its entry
/// are replaced; a token that is not in the table changes nothing.
pub open spec fn reported(
    table: Map<Seq<char>, ProgressEntryView>,
    token: Seq<char>,
    message: Option<Seq<char>>,
    percentage: Option<u32>,
) -> Map<Seq<char>, ProgressEntryView> {
    if table.dom().contains(token) {
        table.insert(
            token,
            ProgressEntryView { token, title: table[token].title, message, percentage },
        )
    } else {
        table
    }
}

/// The table after the task `token` ends: the token is gone.
pub open spec fn ended(table: Map<Seq<char>, ProgressEntryView>, token: Seq<char>) -> Map<
    Seq<char>,
    ProgressEntryView,
> {
    table.remove(token)
}

/// Whether any task is in the table.
pub open spec fn indexing(table: Map<Seq<char>, ProgressEntryView>) -> bool {
    exists|token: Seq<char>| table.dom().contains(token)
}

/// The tasks in flight. A task is in the table from its `begin` to its `end`.
#[derive(Debug)]
pub struct ProgressState {
    active: Vec<ProgressEntry>,
}

impl ProgressState {
    #[verifier::type_invariant]
    spec fn tokens_distinct(self) -> bool {
        forall|i: int, j: int|
            0 <= i < j < self.active@.len() ==> self.active@[i].token@ != self.active@[j].token@
    }

    /// Whether some entry carries `token`.
    spec fn holds(self, token: Seq<char>) -> bool {
        exists|i: int| 0 <= i < self.active@.len() && #[trigger] self.active@[i].token@ == token
    }

    /// Position of an entry that carries `token`.
    spec fn index_of(self, token: Seq<char>) -> int {
        choose|i: int| 0 <= i < self.active@.len() && #[trigger] self.active@[i].token@ == token
    }

    /// The table: each token in flight with its entry.
    pub closed spec fn view(&self) -> Map<Seq<char>, ProgressEntryView> {
        Map::new(
            |token: Seq<char>| self.holds(token),
            |token: Seq<char>| self.active@[self.index_of(token)]@,
        )
    }

    /// An empty table.
    pub fn new() -> (state: Self)
        ensures
            state@ == Map::<Seq<char>, ProgressEntryView>::empty(),
    {
        let state = ProgressState { active: Vec::new() };
        assert(state@ =~= Map::<Seq<char>, ProgressEntryView>::empty());
        state
    }

    /// Moves the entries out, leaving the table empty.
    fn take(&mut self) -> (entries: Vec<ProgressEntry>)
        ensures
            entries@ == old(self).active@,
            final(self).active@.len() == 0,
    {
        let mut entries: Vec<ProgressEntry> = Vec::new();
        core::mem::swap(&mut self.active, &mut entries);
        entries
    }

    /// Position of the entry for `token`, if it is in the table.
    fn position(&self, token: &String) -> (found: Option<usize>)
        ensures
            match found {
                Some(i) => i < self.active@.len() && self.active@[i as int].token@ == token@,
                None => !self.holds(token@),
            },
    {
        let mut i: usize = 0;
        while i < self.active.len()
            invariant
                i <= self.active@.len(),
                forall|k: int| 0 <= k < i ==> self.active@[k].token@ != token@,
            decreases self.active@.len() - i,
        {
            if self.active[i].token == *token {
                return Some(i);
            }
            i = i + 1;
        }
        None
    }

    /// Records the start of task `token`. A token already in the table gets
    /// the new entry in place of its old one.
    pub fn begin(
        &mut self,
        token: String,
        title: String,
        message: Option<String>,
        percentage: Option<u32>,
    )
        ensures
            final(self)@ == begun(old(self)@, token@, title@, text_of(message), percentage),
            final(self)@.dom().contains(token@),
            indexing(final(self)@),
    {
        proof {
            use_type_invariant(&*self);
        }
        let found = self.position(&token);
        let entry = ProgressEntry { token, title, message, percentage };
        let ghost before = *self;
        let ghost fresh = entry@;
        match found {
            Some(i) => {
                let mut entries = self.take();
                entries.set(i, entry);
                self.active = entries;
                proof {
                    let after = *self;
                    assert forall|t: Seq<char>| after.holds(t) == (before.holds(t) || t
                        == fresh.token) by {
                        if before.holds(t) {
                            let k = before.index_of(t);
                            assert(after.active@[k].token@ == t);
                        }
                        if t == fresh.token {
                            assert(after.active@[i as int].token@ == t);
                        }
                        if after.holds(t) {
                            let k = after.index_of(t);
                            assert(before.active@[k].token@ == t);
                        }
                    }
                    assert forall|t: Seq<char>| after.holds(t) implies #[trigger] after@[t]
                        == begun(before@, fresh.token, fresh.title, fresh.message, fresh.percentage)[t] by {
                        let k = after.index_of(t);
                        if t != fresh.token {
                            assert(before.active@[k].token@ == t);
                            assert(before.index_of(t) == k);
                        }
                    }
                    assert(after@ =~= begun(
                        before@,
                        fresh.token,
                        fresh.title,
                        fresh.message,
                        fresh.percentage,
                    ));
                    assert(after@.dom().contains(fresh.token));
                }
            },
            None => {
                let mut entries = self.take();
                entries.push(entry);
                self.active = entries;
                proof {
                    let after = *self;
                    let n = before.active@.len() as int;
                    assert forall|t: Seq<char>| after.holds(t) == (before.holds(t) || t
                        == fresh.token) by {
                        if before.holds(t) {
                            let k = before.index_of(t);
                            assert(after.active@[k].token@ == t);
                        }
                        if t == fresh.token {
                            assert(after.active@[n].token@ == t);
                        }
                        if after.holds(t) {
                            let k = after.index_of(t);
                            if k < n {
                                assert(before.active@[k].token@ == t);
                            }
                        }
                    }
                    assert forall|t: Seq<char>| after.holds(t) implies #[trigger] after@[t]
                        == begun(before@, fresh.token, fresh.title, fresh.message, fresh.percentage)[t] by {
                        let k = after.index_of(t);
                        if t != fresh.token {
                            assert(before.active@[k].token@ == t);
                            assert(before.index_of(t) == k);
                        }
                    }
                    assert(after@ =~= begun(
                        before@,
                        fresh.token,
                        fresh.title,
                        fresh.message,
                        fresh.percentage,
                    ));
                    assert(after@.dom().contains(fresh.token));
                }
            },
        }
    }

    /// Records a report for task `token`: its message and percentage are
    /// replaced. A token that is not in the table changes nothing.
    pub fn report(&mut self, token: &str, message: Option<String>, percentage: Option<u32>)
        ensures
            final(self)@ == reported(old(self)@, token@, text_of(message), percentage),
            final(self)@.dom() == old(self)@.dom(),
            indexing(final(self)@) == indexing(old(self)@),
    {
        proof {
            use_type_invariant(&*self);
        }
        let wanted = token.to_owned();
        let found = self.position(&wanted);
        let ghost before = *self;
        match found {
            Some(i) => {
                let entry = ProgressEntry {
                    token: wanted,
                    title: self.active[i].title.clone(),
                    message,
                    percentage,
                };
                let ghost fresh = entry@;
                let mut entries = self.take();
                entries.set(i, entry);
                self.active = entries;
                proof {
                    let after = *self;
                    assert(before.active@[i as int].token@ == token@);
                    assert(before.holds(token@));
                    assert(before.index_of(token@) == i);
                    assert forall|t: Seq<char>| after.holds(t) == before.holds(t) by {
                        if before.holds(t) {
                            let k = before.index_of(t);
                            assert(after.active@[k].token@ == t);
                        }
                        if after.holds(t) {
                            let k = after.index_of(t);
                            assert(before.active@[k].token@ == t);
                        }
                    }
                    assert forall|t: Seq<char>| after.holds(t) implies #[trigger] after@[t]
                        == reported(before@, token@, fresh.message, fresh.percentage)[t] by {
                        let k = after.index_of(t);
                        assert(before.active@[k].token@ == t);
                        assert(before.index_of(t) == k);
                    }
                    assert(after@ =~= reported(before@, token@, fresh.message, fresh.percentage));
                    assert(after@.dom() =~= before@.dom());
                }
            },
            None => {},
        }
    }

    /// Records the end of task `token`: it leaves the table. A token that is
    /// not in the table changes nothing.
    pub fn end(&mut self, token: &str)
        ensures
            final(self)@ == ended(old(self)@, token@),
            !final(self)@.dom().contains(token@),
    {
        proof {
            use_type_invariant(&*self);
        }
        let wanted = token.to_owned();
        let found = self.position(&wanted);
        let ghost before = *self;
        match found {
            Some(i) => {
                let mut entries = self.take();
                entries.remove(i);
                self.active = entries;
                proof {
                    let after = *self;
                    let at = i as int;
                    assert forall|t: Seq<char>| after.holds(t) == (before.holds(t) && t
                        != token@) by {
                        if before.holds(t) && t != token@ {
                            let k = before.index_of(t);
                            if k < at {
                                assert(after.active@[k].token@ == t);
                            } else {
                                assert(after.active@[k - 1].token@ == t);
                            }
                        }
                        if after.holds(t) {
                            let k = after.index_of(t);
                            if k < at {
                                assert(before.active@[k].token@ == t);
                            } else {
                                assert(before.active@[k + 1].token@ == t);
                            }
                        }
                    }
                    assert forall|t: Seq<char>| after.holds(t) implies #[trigger] after@[t]
                        == before@[t] by {
                        let k = after.index_of(t);
                        if k < at {
                            assert(before.active@[k].token@ == t);
                            assert(before.index_of(t) == k);
                        } else {
                            assert(before.active@[k + 1].token@ == t);
                            assert(before.index_of(t) == k + 1);
                        }
                    }
                    assert(after@ =~= ended(before@, token@));
                }
            },
            None => {
                proof {
                    assert(before@ =~= ended(before@, token@));
                }
            },
        }
    }

    /// Whether any task is in flight: true exactly when the table is not
    /// empty.
    pub fn is_indexing(&self) -> (busy: bool)
        ensures
            busy == indexing(self@),
    {
        let busy = self.active.len() > 0;
        proof {
            if busy {
                assert(self.active@[0].token@ == self.active@[0].token@);
                assert(self.holds(self.active@[0].token@));
                assert(self@.dom().contains(self.active@[0].token@));
            }
        }
        busy
    }

    /// A copy of every entry in the table, each token once.
    pub fn active_tasks(&self) -> (tasks: Vec<ProgressEntry>)
        ensures
            forall|i: int|
                0 <= i < tasks@.len() ==> self@.dom().contains(#[trigger] tasks@[i].token@)
                    && self@[tasks@[i].token@] == tasks@[i]@,
            forall|token: Seq<char>|
                self@.dom().contains(token) ==> exists|i: int|
                    0 <= i < tasks@.len() && #[trigger] tasks@[i].token@ == token,
            forall|i: int, j: int|
                0 <= i < j < tasks@.len() ==> tasks@[i].token@ != tasks@[j].token@,
    {
        proof {
            use_type_invariant(self);
        }
        let mut tasks: Vec<ProgressEntry> = Vec::new();
        let mut i: usize = 0;
        while i < self.active.len()
            invariant
                i <= self.active@.len(),
                tasks@.len() == i,
                forall|k: int| 0 <= k < i ==> tasks@[k]@ == self.active@[k]@,
            decreases self.active@.len() - i,
        {
            tasks.push(self.active[i].clone());
            i = i + 1;
        }
        proof {
            assert forall|k: int| 0 <= k < tasks@.len() implies self@.dom().contains(
                #[trigger] tasks@[k].token@,
            ) && self@[tasks@[k].token@] == tasks@[k]@ by {
                let t = tasks@[k].token@;
                assert(tasks@[k]@ == self.active@[k]@);
                assert(self.active@[k].token@ == t);
                assert(self.holds(t));
                assert(self.index_of(t) == k);
            }
            assert forall|token: Seq<char>| self@.dom().contains(token) implies exists|i: int|
                0 <= i < tasks@.len() && #[trigger] tasks@[i].token@ == token by {
                let k = self.index_of(token);
                assert(tasks@[k]@ == self.active@[k]@);
                assert(tasks@[k].token@ == token);
            }
            assert forall|a: int, b: int| 0 <= a < b < tasks@.len() implies tasks@[a].token@
                != tasks@[b].token@ by {
                assert(tasks@[a]@ == self.active@[a]@);
                assert(tasks@[b]@ == self.active@[b]@);
            }
        }
        tasks
    }
}

/// A task that begins and then ends is no longer in the table, and the table
/// is what it would be had the task only ended.
pub proof fn lemma_begin_then_end_removes(
    table: Map<Seq<char>, ProgressEntryView>,
    token: Seq<char>,
    title: Seq<char>,
    message: Option<Seq<char>>,
    percentage: Option<u32>,
)
    ensures
        !ended(begun(table, token, title, message, percentage), token).dom().contains(token),
        ended(begun(table, token, title, message, percentage), token) == ended(table, token),
{
    assert(ended(begun(table, token, title, message, percentage), token) =~= ended(table, token));
}

/// No task is reported in flight exactly when the table is empty.
pub proof fn lemma_idle_iff_empty(table: Map<Seq<char>, ProgressEntryView>)
    ensures
        !indexing(table) <==> table == Map::<Seq<char>, ProgressEntryView>::empty(),
{
    if !indexing(table) {
        assert(table =~= Map::<Seq<char>, ProgressEntryView>::empty());
    }
}

/// A report or an end for a token that is not in the table leaves the table
/// as it was.
pub proof fn lemma_unknown_token_is_ignored(
    table: Map<Seq<char>, ProgressEntryView>,
    token: Seq<char>,
    message: Option<Seq<char>>,
    percentage: Option<u32>,
)
    requires
        !table.dom().contains(token),
    ensures
        reported(table, token, message, percentage) == table,
        ended(table, token) == table,
{
    assert(ended(table, token) =~= table);
}

/// A task is in flight from its begin, through any report, until its end.
pub proof fn lemma_in_flight_until_end(
    table: Map<Seq<char>, ProgressEntryView>,
    token: Seq<char>,
    title: Seq<char>,
    message: Option<Seq<char>>,
    percentage: Option<u32>,
    later_message: Option<Seq<char>>,
    later_percentage: Option<u32>,
)
    ensures
        indexing(begun(table, token, title, message, percentage)),
        indexing(
            reported(
                begun(table, token, title, message, percentage),
                token,
                later_message,
                later_percentage,
            ),
        ),
{
    let started = begun(table, token, title, message, percentage);
    assert(started.dom().contains(token));
    assert(reported(started, token, later_message, later_percentage).dom().contains(token));
}

} // verus!
