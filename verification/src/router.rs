//! Correlation of requests and responses: every request gets an id that no
//! other request of the session has had, and waits in the pending table
//! until its response arrives, it times out, or the session ends.

use vstd::prelude::*;
use vstd::std_specs::iter::IteratorSpec;
use std::collections::HashMap;

verus! {

broadcast use vstd::std_specs::hash::group_hash_axioms;

/// A request that has been sent and not yet answered.
#[derive(Debug, PartialEq, Eq)]
pub struct PendingRequest {
    pub id: u64,
    pub method: String,
    /// When the request was issued, in milliseconds on the caller's clock.
    pub issued_at: u64,
}

/// The mathematical value of a [`PendingRequest`].
pub struct PendingView {
    pub id: u64,
    pub method: Seq<char>,
    pub issued_at: u64,
}

impl View for PendingRequest {
    type V = PendingView;

    open spec fn view(&self) -> PendingView {
        PendingView { id: self.id, method: self.method@, issued_at: self.issued_at }
    }
}

impl Clone for PendingRequest {
    fn clone(&self) -> (copy: Self)
        ensures
            copy == *self,
    {
        PendingRequest { id: self.id, method: self.method.clone(), issued_at: self.issued_at }
    }
}

/// The state of a router: the id the next request gets, and the requests
/// that wait for a response, by id.
pub struct RouterView {
    pub next_id: u64,
    pub pending: Map<u64, PendingView>,
}

/// The first id a router gives out.
pub const FIRST_ID: u64 = 1;

/// The router of a new session.
pub open spec fn fresh() -> RouterView {
    RouterView { next_id: FIRST_ID, pending: Map::empty() }
}

/// Whether the router has an id left to give.
pub open spec fn can_issue(router: RouterView) -> bool {
    router.next_id < u64::MAX
}

/// The router after it issued a request: the request waits under the id
/// that was next, and the next id is one higher. A router without an id
/// left stays as it is.
pub open spec fn issued(router: RouterView, method: Seq<char>, now: u64) -> RouterView {
    if can_issue(router) {
        RouterView {
            next_id: (router.next_id + 1) as u64,
            pending: router.pending.insert(
                router.next_id,
                PendingView { id: router.next_id, method, issued_at: now },
            ),
        }
    } else {
        router
    }
}

/// The router after the slot of `id` was taken out, by a response or by a
/// timeout. An id that is not waiting changes nothing.
pub open spec fn resolved(router: RouterView, id: u64) -> RouterView {
    RouterView { next_id: router.next_id, pending: router.pending.remove(id) }
}

/// The router after every waiting request was failed: none waits, and the
/// ids go on where they were.
pub open spec fn drained(router: RouterView) -> RouterView {
    RouterView { next_id: router.next_id, pending: Map::empty() }
}

/// Whether a request that waits has waited `timeout_millis` or longer at
/// the time `now`.
pub open spec fn overdue(request: PendingView, now: u64, timeout_millis: u64) -> bool {
    now - request.issued_at >= timeout_millis
}

/// The requests of `pending` that are overdue at the time `now`.
pub open spec fn overdue_among(
    pending: Map<u64, PendingView>,
    now: u64,
    timeout_millis: u64,
) -> Map<u64, PendingView> {
    Map::new(
        |id: u64| pending.dom().contains(id) && overdue(pending[id], now, timeout_millis),
        |id: u64| pending[id],
    )
}

/// The router after the overdue requests were timed out: they wait no
/// longer, and the others wait on.
pub open spec fn expired(router: RouterView, now: u64, timeout_millis: u64) -> RouterView {
    RouterView {
        next_id: router.next_id,
        pending: Map::new(
            |id: u64|
                router.pending.dom().contains(id) && !overdue(
                    router.pending[id],
                    now,
                    timeout_millis,
                ),
            |id: u64| router.pending[id],
        ),
    }
}

/// Whether one of the first `upto` of `listed` has the id `id`.
spec fn listed_before(listed: Seq<PendingRequest>, upto: int, id: u64) -> bool {
    exists|k: int| 0 <= k < upto && k < listed.len() && (#[trigger] listed[k]).id == id
}

/// Whether `listed` holds every request of `pending`, each once and as it
/// waits there, and nothing else.
pub open spec fn lists_exactly(listed: Seq<PendingRequest>, pending: Map<u64, PendingView>) -> bool {
    &&& forall|i: int|
        0 <= i < listed.len() ==> pending.dom().contains((#[trigger] listed[i]).id)
            && pending[listed[i].id] == listed[i]@
    &&& forall|id: u64|
        pending.dom().contains(id) ==> exists|i: int|
            0 <= i < listed.len() && #[trigger] listed[i].id == id
    &&& forall|i: int, j: int| 0 <= i < j < listed.len() ==> listed[i].id != listed[j].id
}

/// The requests that `requests` lists, by id.
pub open spec fn listed(requests: Seq<PendingRequest>) -> Map<u64, PendingView> {
    Map::new(
        |id: u64| exists|i: int| 0 <= i < requests.len() && (#[trigger] requests[i]).id == id,
        |id: u64|
            requests[choose|i: int| 0 <= i < requests.len() && (#[trigger] requests[i]).id == id]@,
    )
}

/// A list that holds exactly the requests of a table lists that table.
pub proof fn lemma_exact_list_is_table(
    requests: Seq<PendingRequest>,
    pending: Map<u64, PendingView>,
)
    requires
        lists_exactly(requests, pending),
    ensures
        listed(requests) == pending,
{
    let table = listed(requests);
    assert forall|id: u64| table.dom().contains(id) == pending.dom().contains(id) by {
        if table.dom().contains(id) {
            let i = choose|i: int| 0 <= i < requests.len() && (#[trigger] requests[i]).id == id;
            assert(pending.dom().contains(requests[i].id));
        }
        if pending.dom().contains(id) {
            let i = choose|i: int| 0 <= i < requests.len() && #[trigger] requests[i].id == id;
            assert(requests[i].id == id);
        }
    }
    assert forall|id: u64| table.dom().contains(id) implies table[id] == pending[id] by {
        let i = choose|i: int| 0 <= i < requests.len() && (#[trigger] requests[i]).id == id;
        assert(pending[requests[i].id] == requests[i]@);
    }
    assert(table =~= pending);
}

/// What the table keeps of a request under its id.
#[derive(Debug)]
struct Slot {
    method: String,
    issued_at: u64,
}

/// The request that waits under `id` with what `slot` keeps of it.
spec fn slot_view(id: u64, slot: Slot) -> PendingView {
    PendingView { id, method: slot.method@, issued_at: slot.issued_at }
}

/// The requests that wait, by id, as `slots` keeps them.
spec fn waiting(slots: Map<u64, Slot>) -> Map<u64, PendingView> {
    Map::new(|id: u64| slots.contains_key(id), |id: u64| slot_view(id, slots[id]))
}

/// The pending table of one session and its id counter.
#[derive(Debug)]
pub struct RequestRouter {
    next_id: u64,
    slots: HashMap<u64, Slot>,
}

impl RequestRouter {
    /// The state of the router.
    pub closed spec fn view(&self) -> RouterView {
        RouterView { next_id: self.next_id, pending: waiting(self.slots@) }
    }

    /// The router of a new session: nothing waits, and no id has been given.
    pub fn new() -> (router: Self)
        ensures
            router@ == fresh(),
    {
        RequestRouter::starting_at(FIRST_ID)
    }

    /// A router that gives out `first_id` first: nothing waits.
    pub fn starting_at(first_id: u64) -> (router: Self)
        ensures
            router@ == (RouterView { next_id: first_id, pending: Map::empty() }),
    {
        let router = RequestRouter { next_id: first_id, slots: HashMap::new() };
        assert(router@.pending =~= Map::<u64, PendingView>::empty());
        router
    }

    /// Issues a request for `method` at time `now`: gives it the next id and
    /// puts it in the pending table. `None`, and no change, once the ids are
    /// used up.
    pub fn issue(&mut self, method: &str, now: u64) -> (id: Option<u64>)
        ensures
            final(self)@ == issued(old(self)@, method@, now),
            id == if can_issue(old(self)@) {
                Some(old(self)@.next_id)
            } else {
                None
            },
    {
        if self.next_id == u64::MAX {
            return None;
        }
        let id = self.next_id;
        self.slots.insert(id, Slot { method: method.to_owned(), issued_at: now });
        self.next_id = id + 1;
        assert(self@.pending =~= issued(old(self)@, method@, now).pending);
        Some(id)
    }

    /// Takes the request `id` out of the pending table, as its response or
    /// its timeout does, and returns it. `None`, and no change, for an id
    /// that is not waiting: a response that comes after a timeout, or twice,
    /// is dropped.
    pub fn resolve(&mut self, id: u64) -> (slot: Option<PendingRequest>)
        ensures
            final(self)@ == resolved(old(self)@, id),
            match slot {
                Some(request) => old(self)@.pending.dom().contains(id) && request@ == old(
                    self,
                )@.pending[id] && request.id == id,
                None => !old(self)@.pending.dom().contains(id),
            },
    {
        let taken = self.slots.remove(&id);
        assert(self@.pending =~= resolved(old(self)@, id).pending);
        match taken {
            Some(slot) => Some(PendingRequest { id, method: slot.method, issued_at: slot.issued_at }),
            None => None,
        }
    }

    /// Every request that waits, each once.
    fn listing(&self) -> (all: Vec<PendingRequest>)
        ensures
            lists_exactly(all@, self@.pending),
    {
        let mut all: Vec<PendingRequest> = Vec::new();
        for pair in it: self.slots.iter()
            invariant
                all@.len() == it.index(),
                forall|k: int|
                    0 <= k < all@.len() ==> (#[trigger] all@[k]).id == *it.seq()[k].0 && all@[k]@
                        == slot_view(*it.seq()[k].0, *it.seq()[k].1),
        {
            all.push(
                PendingRequest {
                    id: *pair.0,
                    method: pair.1.method.clone(),
                    issued_at: pair.1.issued_at,
                },
            );
        }
        proof {
            let walked = self.slots.iter().remaining();
            let pending = self@.pending;
            assert(all@.len() == walked.len());
            assert forall|i: int| 0 <= i < all@.len() implies pending.dom().contains(
                (#[trigger] all@[i]).id,
            ) && pending[all@[i].id] == all@[i]@ by {
                assert(self.slots@.contains_key(*walked[i].0));
                assert(self.slots@[*walked[i].0] == *walked[i].1);
            }
            assert forall|id: u64| pending.dom().contains(id) implies exists|i: int|
                0 <= i < all@.len() && #[trigger] all@[i].id == id by {
                assert(self.slots@.contains_key(id));
                let wanted = (&id, &self.slots@[id]);
                assert(walked.contains(wanted));
                let i = choose|i: int| 0 <= i < walked.len() && walked[i] == wanted;
                assert(all@[i].id == id);
            }
            assert forall|i: int, j: int| 0 <= i < j < all@.len() implies all@[i].id
                != all@[j].id by {
                if all@[i].id == all@[j].id {
                    assert(self.slots@[*walked[i].0] == *walked[i].1);
                    assert(self.slots@[*walked[j].0] == *walked[j].1);
                    assert(walked[i] == walked[j]);
                }
            }
        }
        all
    }

    /// Times out the requests that have waited `timeout_millis` or longer at
    /// the time `now`: takes them out of the pending table and returns them,
    /// each once, for the caller to fail. A response that arrives later for
    /// one of them is dropped.
    pub fn expire(&mut self, now: u64, timeout_millis: u64) -> (timed_out: Vec<PendingRequest>)
        ensures
            final(self)@ == expired(old(self)@, now, timeout_millis),
            lists_exactly(timed_out@, overdue_among(old(self)@.pending, now, timeout_millis)),
    {
        let all = self.listing();
        let ghost before = old(self)@.pending;
        let mut gone: Vec<PendingRequest> = Vec::new();
        let mut i: usize = 0;
        while i < all.len()
            invariant
                i <= all@.len(),
                self.next_id == old(self).next_id,
                before == old(self)@.pending,
                lists_exactly(all@, before),
                forall|id: u64|
                    self@.pending.dom().contains(id) <==> before.dom().contains(id) && !(overdue(
                        before[id],
                        now,
                        timeout_millis,
                    ) && listed_before(all@, i as int, id)),
                forall|id: u64|
                    self@.pending.dom().contains(id) ==> #[trigger] self@.pending[id]
                        == before[id],
                forall|j: int|
                    0 <= j < gone@.len() ==> listed_before(all@, i as int, (#[trigger] gone@[j]).id)
                        && before.dom().contains(gone@[j].id) && before[gone@[j].id] == gone@[j]@
                        && overdue(before[gone@[j].id], now, timeout_millis),
                forall|k: int|
                    0 <= k < i && overdue(before[(#[trigger] all@[k]).id], now, timeout_millis)
                        ==> exists|j: int| 0 <= j < gone@.len() && gone@[j].id == all@[k].id,
                forall|a: int, b: int| 0 <= a < b < gone@.len() ==> gone@[a].id != gone@[b].id,
            decreases all@.len() - i,
        {
            let ghost here = self@.pending;
            let ghost gone_before = gone@;
            let id = all[i].id;
            let issued_at = all[i].issued_at;
            proof {
                assert(before.dom().contains(all@[i as int].id));
                assert(before[id] == all@[i as int]@);
                assert(!listed_before(all@, i as int, id)) by {
                    if listed_before(all@, i as int, id) {
                        let k = choose|k: int| 0 <= k < i && (#[trigger] all@[k]).id == id;
                        assert(all@[k].id != all@[i as int].id);
                    }
                }
            }
            if now >= issued_at && now - issued_at >= timeout_millis {
                match self.resolve(id) {
                    Some(request) => {
                        gone.push(request);
                    },
                    None => {},
                }
                proof {
                    assert(gone@.len() == gone_before.len() + 1);
                    assert(gone@[gone_before.len() as int].id == id);
                }
            }
            proof {
                assert(listed_before(all@, i + 1, id)) by {
                    assert(all@[i as int].id == id);
                }
                assert forall|other: u64| listed_before(all@, i + 1, other) <==> listed_before(
                    all@,
                    i as int,
                    other,
                ) || other == id by {
                    if listed_before(all@, i + 1, other) {
                        let k = choose|k: int| 0 <= k < i + 1 && (#[trigger] all@[k]).id == other;
                        if k < i {
                            assert(all@[k].id == other);
                        }
                    }
                    if listed_before(all@, i as int, other) {
                        let k = choose|k: int| 0 <= k < i && (#[trigger] all@[k]).id == other;
                        assert(all@[k].id == other);
                    }
                }
                assert forall|k: int|
                    0 <= k < i + 1 && overdue(
                        before[(#[trigger] all@[k]).id],
                        now,
                        timeout_millis,
                    ) implies exists|j: int| 0 <= j < gone@.len() && gone@[j].id == all@[k].id by {
                    if k < i {
                        let j = choose|j: int|
                            0 <= j < gone_before.len() && gone_before[j].id == all@[k].id;
                        assert(gone@[j].id == all@[k].id);
                    } else {
                        assert(gone@[gone_before.len() as int].id == all@[k].id);
                    }
                }
                assert forall|a: int, b: int| 0 <= a < b < gone@.len() implies gone@[a].id
                    != gone@[b].id by {
                    if b == gone_before.len() {
                        assert(listed_before(all@, i as int, gone_before[a].id));
                    }
                }
            }
            i = i + 1;
        }
        proof {
            let late = overdue_among(before, now, timeout_millis);
            assert forall|id: u64| before.dom().contains(id) implies listed_before(
                all@,
                all@.len() as int,
                id,
            ) by {
                let k = choose|k: int| 0 <= k < all@.len() && #[trigger] all@[k].id == id;
                assert(all@[k].id == id);
            }
            let goal = expired(old(self)@, now, timeout_millis).pending;
            assert(i == all@.len());
            assert forall|id: u64| self@.pending.dom().contains(id) == goal.dom().contains(
                id,
            ) by {
                if before.dom().contains(id) {
                    assert(listed_before(all@, all@.len() as int, id));
                }
            }
            assert forall|id: u64| self@.pending.dom().contains(id) implies self@.pending[id]
                == goal[id] by {
                assert(self@.pending[id] == before[id]);
                assert(goal.dom().contains(id));
                assert(goal[id] == before[id]);
            }
            assert(self@.pending =~= goal);
            assert forall|id: u64| late.dom().contains(id) implies exists|j: int|
                0 <= j < gone@.len() && #[trigger] gone@[j].id == id by {
                let k = choose|k: int| 0 <= k < all@.len() && #[trigger] all@[k].id == id;
                assert(overdue(before[all@[k].id], now, timeout_millis));
                let j = choose|j: int| 0 <= j < gone@.len() && gone@[j].id == all@[k].id;
                assert(gone@[j].id == id);
            }
        }
        gone
    }

    /// Empties the pending table, as the end of the session does, and
    /// returns every request that was waiting, each once, so that each can
    /// be failed.
    pub fn fail_all(&mut self) -> (failed: Vec<PendingRequest>)
        ensures
            final(self)@ == drained(old(self)@),
            lists_exactly(failed@, old(self)@.pending),
    {
        let failed = self.listing();
        self.slots.clear();
        assert(self@.pending =~= Map::<u64, PendingView>::empty());
        failed
    }

    /// Whether the request `id` waits and has waited `timeout_millis` or
    /// longer at the time `now`.
    pub fn is_overdue(&self, id: u64, now: u64, timeout_millis: u64) -> (late: bool)
        ensures
            late == overdue_among(self@.pending, now, timeout_millis).dom().contains(id),
    {
        match self.slots.get(&id) {
            Some(slot) => now >= slot.issued_at && now - slot.issued_at >= timeout_millis,
            None => false,
        }
    }

    /// Whether the request `id` waits for its response.
    pub fn is_pending(&self, id: u64) -> (waiting: bool)
        ensures
            waiting == self@.pending.dom().contains(id),
    {
        self.slots.contains_key(&id)
    }

    /// Whether any request waits for a response.
    pub fn has_pending(&self) -> (any: bool)
        ensures
            any == exists|id: u64| self@.pending.dom().contains(id),
    {
        let none = self.slots.is_empty();
        proof {
            if none {
                assert(self@.pending =~= Map::<u64, PendingView>::empty());
            } else {
                let id = choose|id: u64| self.slots@.dom().contains(id);
                assert(self.slots@.contains_key(id));
                assert(self@.pending.dom().contains(id));
            }
        }
        !none
    }

    /// The id that the next request gets.
    pub fn next_id(&self) -> (id: u64)
        ensures
            id == self@.next_id,
    {
        self.next_id
    }
}

/// One thing that happens to a router.
pub enum RouterEvent {
    /// A request is issued.
    Issue { method: Seq<char>, now: u64 },
    /// The slot of an id is taken out, by a response or a timeout.
    Resolve { id: u64 },
    /// The overdue requests are timed out.
    Expire { now: u64, timeout_millis: u64 },
    /// Every waiting request is failed.
    FailAll,
}

/// The router after `event`.
pub open spec fn after_event(router: RouterView, event: RouterEvent) -> RouterView {
    match event {
        RouterEvent::Issue { method, now } => issued(router, method, now),
        RouterEvent::Resolve { id } => resolved(router, id),
        RouterEvent::Expire { now, timeout_millis } => expired(router, now, timeout_millis),
        RouterEvent::FailAll => drained(router),
    }
}

/// The id that `event` gives out when it happens to `router`, if it gives
/// one.
pub open spec fn id_given(router: RouterView, event: RouterEvent) -> Option<u64> {
    match event {
        RouterEvent::Issue { .. } => if can_issue(router) {
            Some(router.next_id)
        } else {
            None
        },
        _ => None,
    }
}

/// The router after the first `upto` of `events`, starting from `router`.
pub open spec fn after_events(router: RouterView, events: Seq<RouterEvent>, upto: int) -> RouterView
    decreases upto,
{
    if upto <= 0 || upto > events.len() {
        router
    } else {
        after_event(after_events(router, events, upto - 1), events[upto - 1])
    }
}

/// Whether every waiting request waits under its own id, and that id has
/// been given out: it is below the next one.
pub open spec fn well_numbered(router: RouterView) -> bool {
    forall|id: u64| #[trigger]
        router.pending.dom().contains(id) ==> id < router.next_id && router.pending[id].id == id
}

/// A new router is well numbered, and every event keeps a router so.
pub proof fn lemma_events_keep_numbering(router: RouterView, event: RouterEvent)
    requires
        well_numbered(router),
    ensures
        well_numbered(after_event(router, event)),
        well_numbered(fresh()),
{
    let next = after_event(router, event);
    assert forall|id: u64| #[trigger] next.pending.dom().contains(id) implies id < next.next_id
        && next.pending[id].id == id by {
        if router.pending.dom().contains(id) {
            assert(router.pending[id].id == id);
        }
    }
}

/// The id counter never goes back.
proof fn lemma_next_id_grows(router: RouterView, events: Seq<RouterEvent>, from: int, upto: int)
    requires
        0 <= from <= upto <= events.len(),
    ensures
        after_events(router, events, from).next_id <= after_events(router, events, upto).next_id,
    decreases upto - from,
{
    if from < upto {
        lemma_next_id_grows(router, events, from, upto - 1);
    }
}

/// Within one session ids strictly increase, and so none is used twice:
/// whatever happens in between, a request issued later gets a higher id
/// than one issued earlier.
pub proof fn lemma_ids_strictly_increase(
    router: RouterView,
    events: Seq<RouterEvent>,
    earlier: int,
    later: int,
)
    requires
        0 <= earlier < later < events.len(),
        id_given(after_events(router, events, earlier), events[earlier]) is Some,
        id_given(after_events(router, events, later), events[later]) is Some,
    ensures
        id_given(after_events(router, events, earlier), events[earlier])->Some_0 < id_given(
            after_events(router, events, later),
            events[later],
        )->Some_0,
{
    lemma_next_id_grows(router, events, earlier + 1, later);
}

/// An id that was given out is not given out again, and while its request
/// waits no event touches its slot but its own resolution, its timeout or
/// the end of the session.
pub proof fn lemma_slot_is_untouched(router: RouterView, event: RouterEvent, id: u64)
    requires
        router.pending.dom().contains(id),
        well_numbered(router),
        event != (RouterEvent::Resolve { id }),
        event != RouterEvent::FailAll,
        event matches RouterEvent::Expire { now, timeout_millis } ==> !overdue(
            router.pending[id],
            now,
            timeout_millis,
        ),
    ensures
        after_event(router, event).pending.dom().contains(id),
        after_event(router, event).pending[id] == router.pending[id],
        id_given(router, event) != Some(id),
{
}

/// Responses may come in any order: resolving other requests first, in
/// whatever order, leaves the slot of `id` as it was issued, so its response
/// still finds its own request.
pub proof fn lemma_resolution_order_is_free(router: RouterView, others: Seq<u64>, id: u64)
    requires
        router.pending.dom().contains(id),
        forall|k: int| 0 <= k < others.len() ==> others[k] != id,
    ensures
        after_events(router, Seq::new(others.len(), |k: int| RouterEvent::Resolve { id: others[k] }), others.len() as int).pending.dom().contains(id),
        after_events(router, Seq::new(others.len(), |k: int| RouterEvent::Resolve { id: others[k] }), others.len() as int).pending[id] == router.pending[id],
{
    let events = Seq::new(others.len(), |k: int| RouterEvent::Resolve { id: others[k] });
    lemma_resolves_keep(router, events, id, others.len() as int);
}

proof fn lemma_resolves_keep(router: RouterView, events: Seq<RouterEvent>, id: u64, upto: int)
    requires
        router.pending.dom().contains(id),
        0 <= upto <= events.len(),
        forall|k: int|
            0 <= k < events.len() ==> (#[trigger] events[k]) is Resolve && events[k]->Resolve_id
                != id,
    ensures
        after_events(router, events, upto).pending.dom().contains(id),
        after_events(router, events, upto).pending[id] == router.pending[id],
    decreases upto,
{
    if upto > 0 {
        lemma_resolves_keep(router, events, id, upto - 1);
        assert(events[upto - 1] is Resolve);
    }
}

} // verus!
