//! The store that owns the threads of the process, and what is proved of its writes.

use vstd::prelude::*;
use crate::threads::{ThreadState, ThreadView};
use crate::types::{
    optional_session, views, MessageView, SessionPointers, SessionView, ThreadMessage,
};

verus! {

/// The mathematical content of a [`ThreadStore`]: the threads by identifier, and the
/// identifiers in the order in which they were first stored.
pub struct ThreadsView {
    pub threads: Map<Seq<char>, ThreadView>,
    pub order: Seq<Seq<char>>,
}

impl ThreadsView {
    /// `order` lists each stored identifier once and nothing else.
    pub open spec fn valid(self) -> bool {
        &&& self.order.no_duplicates()
        &&& forall|id: Seq<char>| self.threads.contains_key(id) <==> self.order.contains(id)
    }

    /// The store without threads.
    pub open spec fn empty() -> ThreadsView {
        ThreadsView { threads: Map::empty(), order: Seq::empty() }
    }

    /// The store with `thread` under `id`, in place of what was stored there before.
    pub open spec fn put(self, id: Seq<char>, thread: ThreadView) -> ThreadsView {
        ThreadsView {
            threads: self.threads.insert(id, thread),
            order: if self.threads.contains_key(id) {
                self.order
            } else {
                self.order.push(id)
            },
        }
    }

    /// The store without `id`.
    pub open spec fn without(self, id: Seq<char>) -> ThreadsView {
        ThreadsView {
            threads: self.threads.remove(id),
            order: self.order.remove_value(id),
        }
    }

    /// The store after `message` was appended to thread `id`; unchanged if there is no
    /// such thread.
    pub open spec fn append(self, id: Seq<char>, message: MessageView) -> ThreadsView {
        if self.threads.contains_key(id) {
            ThreadsView {
                threads: self.threads.insert(id, self.threads[id].with_message(message)),
                order: self.order,
            }
        } else {
            self
        }
    }

    /// Whether a turn that read thread `id` when it held `expected` messages may still
    /// be written: the thread exists and nothing was appended to it since.
    pub open spec fn accepts_turn(self, id: Seq<char>, expected: nat) -> bool {
        self.threads.contains_key(id) && self.threads[id].messages.len() == expected
    }

    /// The store after the turn was written, where it may be; unchanged otherwise.
    pub open spec fn commit(
        self,
        id: Seq<char>,
        expected: nat,
        reply: MessageView,
        session: Option<SessionView>,
    ) -> ThreadsView {
        if self.accepts_turn(id, expected) {
            ThreadsView {
                threads: self.threads.insert(id, self.threads[id].with_turn(reply, session)),
                order: self.order,
            }
        } else {
            self
        }
    }
}

/// A write to one thread: an append by a caller, or the write of a turn that read the
/// thread when it held `expected` messages.
pub enum ThreadOp {
    Append { message: MessageView },
    Commit { expected: nat, reply: MessageView, session: Option<SessionView> },
}

impl ThreadsView {
    /// The store after `op` was applied to thread `id`.
    pub open spec fn apply(self, id: Seq<char>, op: ThreadOp) -> ThreadsView {
        match op {
            ThreadOp::Append { message } => self.append(id, message),
            ThreadOp::Commit { expected, reply, session } => self.commit(
                id,
                expected,
                reply,
                session,
            ),
        }
    }

    /// The store after `ops` were applied to thread `id`, one after the other.
    pub open spec fn apply_all(self, id: Seq<char>, ops: Seq<ThreadOp>) -> ThreadsView
        decreases ops.len(),
    {
        if ops.len() == 0 {
            self
        } else {
            self.apply_all(id, ops.drop_last()).apply(id, ops.last())
        }
    }
}

/// Storing, removing, appending and writing a turn each leave a valid store valid.
pub proof fn lemma_store_stays_valid(
    store: ThreadsView,
    id: Seq<char>,
    thread: ThreadView,
    op: ThreadOp,
)
    requires
        store.valid(),
    ensures
        store.put(id, thread).valid(),
        store.without(id).valid(),
        store.apply(id, op).valid(),
{
    let put = store.put(id, thread);
    if store.threads.contains_key(id) {
        assert(put.order == store.order);
    } else {
        assert forall|other: Seq<char>| put.threads.contains_key(other) <==> put.order.contains(
            other,
        ) by {
            if put.order.contains(other) {
                let j = choose|j: int| 0 <= j < put.order.len() && put.order[j] == other;
                if j < store.order.len() {
                    assert(store.order[j] == other);
                }
            }
            if other == id {
                assert(put.order[store.order.len() as int] == id);
            } else if store.order.contains(other) {
                let j = choose|j: int| 0 <= j < store.order.len() && store.order[j] == other;
                assert(put.order[j] == other);
            }
        }
    }
    let gone = store.without(id);
    store.order.index_of_first_ensures(id);
    match store.order.index_of_first(id) {
        Some(i) => {
            assert forall|other: Seq<char>| gone.threads.contains_key(other)
                <==> gone.order.contains(other) by {
                if gone.order.contains(other) {
                    let j = choose|j: int| 0 <= j < gone.order.len() && gone.order[j] == other;
                    if j < i {
                        assert(store.order[j] == other);
                    } else {
                        assert(store.order[j + 1] == other);
                    }
                }
                if other != id && store.order.contains(other) {
                    let j = choose|j: int| 0 <= j < store.order.len() && store.order[j] == other;
                    if j < i {
                        assert(gone.order[j] == other);
                    } else {
                        assert(gone.order[j - 1] == other);
                    }
                }
            }
        },
        None => {
            assert(gone.threads =~= store.threads);
        },
    }
}

/// Writes to a thread only ever add to the end of it: whatever appends and turns are
/// applied to thread `id`, in whatever order, the thread is still there afterwards, the
/// messages it held before stand unchanged at its beginning, and no other thread is
/// touched.
pub proof fn lemma_writes_only_append(store: ThreadsView, id: Seq<char>, ops: Seq<ThreadOp>)
    requires
        store.threads.contains_key(id),
    ensures
        store.apply_all(id, ops).threads.contains_key(id),
        store.threads[id].messages.is_prefix_of(store.apply_all(id, ops).threads[id].messages),
        store.apply_all(id, ops).order == store.order,
        store.apply_all(id, ops).threads.remove(id) == store.threads.remove(id),
    decreases ops.len(),
{
    if ops.len() > 0 {
        let mid = store.apply_all(id, ops.drop_last());
        lemma_writes_only_append(store, id, ops.drop_last());
        let end = mid.apply(id, ops.last());
        assert(mid.threads[id].messages.is_prefix_of(end.threads[id].messages));
        assert(end.threads.remove(id) =~= mid.threads.remove(id));
    } else {
        assert(store.threads.remove(id) =~= store.threads.remove(id));
    }
}

/// An append is never lost: where the `i`-th of the writes `ops` to thread `id` is an
/// append, its message stands in the thread once all of `ops` are applied, at the place
/// that was the end of the thread when the append was applied. This holds whatever the
/// other writes are, appends or turns, written or refused.
pub proof fn lemma_append_is_never_lost(
    store: ThreadsView,
    id: Seq<char>,
    ops: Seq<ThreadOp>,
    i: int,
)
    requires
        store.threads.contains_key(id),
        0 <= i < ops.len(),
        ops[i] is Append,
    ensures
        ({
            let at = store.apply_all(id, ops.take(i)).threads[id].messages.len() as int;
            let end = store.apply_all(id, ops).threads[id].messages;
            &&& store.threads[id].messages.len() <= at < end.len()
            &&& end[at] == ops[i]->message
        }),
    decreases ops.len(),
{
    let before = store.apply_all(id, ops.take(i));
    lemma_writes_only_append(store, id, ops.take(i));
    let rest = ops.drop_last();
    let mid = store.apply_all(id, rest);
    lemma_writes_only_append(store, id, rest);
    let end = mid.apply(id, ops.last());
    assert(mid.threads[id].messages.is_prefix_of(end.threads[id].messages));
    if i == ops.len() - 1 {
        assert(ops.take(i) =~= rest);
    } else {
        assert(rest.take(i) =~= ops.take(i));
        lemma_append_is_never_lost(store, id, rest, i);
    }
}

/// How an attempt to write a turn ended.
#[derive(Clone, Copy, Debug, PartialEq, Eq, Structural)]
pub enum TurnWrite {
    /// The reply was appended and the session pointers were set.
    Applied,
    /// The thread is gone.
    Missing,
    /// The thread was appended to after the turn had read it; nothing was written.
    Stale,
}

struct ThreadEntry {
    id: String,
    state: ThreadState,
}

spec fn entry_ids(entries: Seq<ThreadEntry>) -> Seq<Seq<char>> {
    entries.map_values(|e: ThreadEntry| e.id@)
}

spec fn slot_of(entries: Seq<ThreadEntry>, id: Seq<char>) -> int {
    entry_ids(entries).index_of(id)
}

spec fn entry_map(entries: Seq<ThreadEntry>) -> Map<Seq<char>, ThreadView> {
    Map::new(
        |id: Seq<char>| entry_ids(entries).contains(id),
        |id: Seq<char>| entries[slot_of(entries, id)].state@,
    )
}

proof fn lemma_entry_at(entries: Seq<ThreadEntry>, i: int)
    requires
        entry_ids(entries).no_duplicates(),
        0 <= i < entries.len(),
    ensures
        entry_map(entries).contains_key(entries[i].id@),
        entry_map(entries)[entries[i].id@] == entries[i].state@,
        slot_of(entries, entries[i].id@) == i,
{
    let ids = entry_ids(entries);
    assert(ids[i] == entries[i].id@);
    let j = slot_of(entries, entries[i].id@);
    assert(0 <= j < entries.len() && ids[j] == ids[i]);
}

proof fn lemma_entry_replaced(before: Seq<ThreadEntry>, after: Seq<ThreadEntry>, i: int)
    requires
        entry_ids(before).no_duplicates(),
        0 <= i < before.len(),
        after.len() == before.len(),
        after[i].id@ == before[i].id@,
        forall|j: int| 0 <= j < before.len() && j != i ==> after[j] == before[j],
    ensures
        entry_ids(after) == entry_ids(before),
        entry_map(after) == entry_map(before).insert(before[i].id@, after[i].state@),
{
    assert(entry_ids(after) =~= entry_ids(before));
    let target = entry_map(before).insert(before[i].id@, after[i].state@);
    assert forall|id: Seq<char>| entry_map(after).contains_key(id) implies #[trigger] entry_map(
        after,
    )[id] == target[id] by {
        let j = entry_ids(after).index_of(id);
        lemma_entry_at(after, j);
        lemma_entry_at(before, j);
        assert(entry_ids(before)[j] == id);
        assert(entry_ids(before)[i] == before[i].id@);
    }
    assert(entry_map(after) =~= target);
}

proof fn lemma_entry_pushed(before: Seq<ThreadEntry>, entry: ThreadEntry)
    requires
        entry_ids(before).no_duplicates(),
        !entry_ids(before).contains(entry.id@),
    ensures
        entry_ids(before.push(entry)) == entry_ids(before).push(entry.id@),
        entry_ids(before.push(entry)).no_duplicates(),
        entry_map(before.push(entry)) == entry_map(before).insert(entry.id@, entry.state@),
{
    let after = before.push(entry);
    assert(entry_ids(after) =~= entry_ids(before).push(entry.id@));
    let target = entry_map(before).insert(entry.id@, entry.state@);
    assert forall|id: Seq<char>| entry_map(after).contains_key(id) implies #[trigger] entry_map(
        after,
    )[id] == target[id] by {
        let j = entry_ids(after).index_of(id);
        lemma_entry_at(after, j);
        if j < before.len() {
            lemma_entry_at(before, j);
        }
    }
    assert forall|id: Seq<char>| target.contains_key(id) implies entry_map(after).contains_key(
        id,
    ) by {
        if id == entry.id@ {
            assert(entry_ids(after)[before.len() as int] == id);
        } else {
            let j = entry_ids(before).index_of(id);
            assert(entry_ids(after)[j] == id);
        }
    }
    assert(entry_map(after) =~= target);
}

proof fn lemma_entry_removed(before: Seq<ThreadEntry>, i: int)
    requires
        entry_ids(before).no_duplicates(),
        0 <= i < before.len(),
    ensures
        entry_ids(before.remove(i)) == entry_ids(before).remove_value(before[i].id@),
        entry_ids(before.remove(i)).no_duplicates(),
        entry_map(before.remove(i)) == entry_map(before).remove(before[i].id@),
{
    let after = before.remove(i);
    let ids = entry_ids(before);
    let gone = before[i].id@;
    assert(ids[i] == gone);
    ids.index_of_first_ensures(gone);
    assert(entry_ids(after) =~= ids.remove(i));
    assert(!entry_ids(after).contains(gone)) by {
        if entry_ids(after).contains(gone) {
            let j = choose|j: int| 0 <= j < after.len() && entry_ids(after)[j] == gone;
            if j < i {
                assert(ids[j] == gone);
            } else {
                assert(ids[j + 1] == gone);
            }
        }
    }
    let target = entry_map(before).remove(gone);
    assert forall|id: Seq<char>| entry_map(after).contains_key(id) implies target.contains_key(id)
        && #[trigger] entry_map(after)[id] == target[id] by {
        let j = entry_ids(after).index_of(id);
        lemma_entry_at(after, j);
        if j < i {
            lemma_entry_at(before, j);
        } else {
            lemma_entry_at(before, j + 1);
        }
    }
    assert forall|id: Seq<char>| target.contains_key(id) implies entry_map(after).contains_key(
        id,
    ) by {
        let j = ids.index_of(id);
        assert(ids[j] == id);
        if j < i {
            assert(entry_ids(after)[j] == id);
        } else {
            assert(entry_ids(after)[j - 1] == id);
        }
    }
    assert(entry_map(after) =~= target);
}

/// The threads of the process, each under its identifier.
pub struct ThreadStore {
    entries: Vec<ThreadEntry>,
}

impl View for ThreadStore {
    type V = ThreadsView;

    closed spec fn view(&self) -> ThreadsView {
        ThreadsView { threads: entry_map(self.entries@), order: entry_ids(self.entries@) }
    }
}

impl ThreadStore {
    #[verifier::type_invariant]
    spec fn well_formed(self) -> bool {
        entry_ids(self.entries@).no_duplicates()
    }

    /// A store without threads.
    pub fn new() -> (store: ThreadStore)
        ensures
            store@ == ThreadsView::empty(),
            store@.valid(),
    {
        let store = ThreadStore { entries: Vec::new() };
        assert(store@.order =~= Seq::empty());
        assert(store@.threads =~= Map::empty());
        store
    }

    fn find(&self, id: &str) -> (at: Option<usize>)
        ensures
            self@.valid(),
            match at {
                Some(i) => i < self.entries.len() && self.entries[i as int].id@ == id@
                    && self@.threads.contains_key(id@),
                None => !self@.threads.contains_key(id@),
            },
    {
        proof {
            use_type_invariant(self);
        }
        let key = id.to_owned();
        let ghost ids = entry_ids(self.entries@);
        let mut i: usize = 0;
        while i < self.entries.len()
            invariant
                i <= self.entries.len(),
                key@ == id@,
                ids == entry_ids(self.entries@),
                ids.no_duplicates(),
                forall|j: int| 0 <= j < i ==> ids[j] != id@,
            decreases self.entries.len() - i,
        {
            if self.entries[i].id == key {
                assert(ids[i as int] == id@);
                return Some(i);
            }
            i += 1;
        }
        None
    }

    /// How many threads the store holds.
    pub fn len(&self) -> (n: usize)
        ensures
            n == self@.order.len(),
            n == self@.threads.len(),
    {
        proof {
            use_type_invariant(self);
            let ids = entry_ids(self.entries@);
            ids.unique_seq_to_set();
            assert(ids.to_set() =~= self@.threads.dom());
        }
        self.entries.len()
    }

    /// A copy of thread `id`, if the store holds it.
    pub fn get(&self, id: &str) -> (found: Option<ThreadState>)
        ensures
            match found {
                Some(thread) => self@.threads.contains_key(id@) && thread@ == self@.threads[id@],
                None => !self@.threads.contains_key(id@),
            },
    {
        proof {
            use_type_invariant(self);
        }
        match self.find(id) {
            Some(i) => {
                proof {
                    lemma_entry_at(self.entries@, i as int);
                }
                Some(self.entries[i].state.clone())
            },
            None => None,
        }
    }

    /// The threads with their identifiers, in the order in which they were first stored.
    pub fn list(&self) -> (all: Vec<(String, ThreadState)>)
        ensures
            self@.valid(),
            all.len() == self@.order.len(),
            forall|i: int|
                0 <= i < all.len() ==> {
                    &&& (#[trigger] all[i]).0@ == self@.order[i]
                    &&& all[i].1@ == self@.threads[self@.order[i]]
                },
    {
        proof {
            use_type_invariant(self);
        }
        let mut all: Vec<(String, ThreadState)> = Vec::new();
        let mut i: usize = 0;
        while i < self.entries.len()
            invariant
                i <= self.entries.len(),
                all.len() == i,
                entry_ids(self.entries@).no_duplicates(),
                forall|j: int|
                    0 <= j < i ==> {
                        &&& (#[trigger] all[j]).0@ == self.entries[j].id@
                        &&& all[j].1@ == self.entries[j].state@
                    },
            decreases self.entries.len() - i,
        {
            all.push((self.entries[i].id.clone(), self.entries[i].state.clone()));
            i += 1;
        }
        proof {
            assert forall|j: int| 0 <= j < all.len() implies {
                &&& (#[trigger] all[j]).0@ == self@.order[j]
                &&& all[j].1@ == self@.threads[self@.order[j]]
            } by {
                lemma_entry_at(self.entries@, j);
            }
        }
        all
    }

    /// Stores `state` under `id`, in place of the thread that was stored there before.
    pub fn put(&mut self, id: String, state: ThreadState)
        ensures
            final(self)@ == old(self)@.put(id@, state@),
    {
        let mut entries: Vec<ThreadEntry> = Vec::new();
        match self.find(id.as_str()) {
            Some(i) => {
                std::mem::swap(&mut entries, &mut self.entries);
                let ghost before = entries@;
                entries[i].state = state;
                proof {
                    lemma_entry_replaced(before, entries@, i as int);
                }
                self.entries = entries;
            },
            None => {
                std::mem::swap(&mut entries, &mut self.entries);
                let entry = ThreadEntry { id, state };
                proof {
                    lemma_entry_pushed(entries@, entry);
                }
                entries.push(entry);
                self.entries = entries;
            },
        }
    }

    /// Removes thread `id` for good. Tells whether there was such a thread.
    pub fn remove(&mut self, id: &str) -> (found: bool)
        ensures
            found == old(self)@.threads.contains_key(id@),
            final(self)@ == old(self)@.without(id@),
    {
        match self.find(id) {
            Some(i) => {
                let mut entries: Vec<ThreadEntry> = Vec::new();
                std::mem::swap(&mut entries, &mut self.entries);
                proof {
                    lemma_entry_removed(entries@, i as int);
                }
                entries.remove(i);
                self.entries = entries;
                true
            },
            None => {
                proof {
                    let ids = entry_ids(self.entries@);
                    ids.index_of_first_ensures(id@);
                    assert(self@.threads.remove(id@) =~= self@.threads);
                }
                false
            },
        }
    }

    /// Appends `message` to thread `id`, in place. Tells whether the thread exists.
    pub fn append(&mut self, id: &str, message: ThreadMessage) -> (found: bool)
        ensures
            found == old(self)@.threads.contains_key(id@),
            final(self)@ == old(self)@.append(id@, message@),
    {
        match self.find(id) {
            Some(i) => {
                let mut entries: Vec<ThreadEntry> = Vec::new();
                std::mem::swap(&mut entries, &mut self.entries);
                let ghost before = entries@;
                entries[i].state.messages.push(message);
                proof {
                    lemma_entry_at(before, i as int);
                    lemma_entry_replaced(before, entries@, i as int);
                    assert(views(entries@[i as int].state.messages@) =~= views(
                        before[i as int].state.messages@,
                    ).push(message@));
                }
                self.entries = entries;
                true
            },
            None => false,
        }
    }

    /// Writes the outcome of a turn that read thread `id` when it held `expected`
    /// messages: appends `reply` and, if the turn brought session pointers, sets them.
    /// Nothing is written if the thread is gone or was appended to since the read.
    pub fn commit(
        &mut self,
        id: &str,
        expected: usize,
        reply: ThreadMessage,
        session: Option<SessionPointers>,
    ) -> (outcome: TurnWrite)
        ensures
            final(self)@ == old(self)@.commit(
                id@,
                expected as nat,
                reply@,
                optional_session(session),
            ),
            outcome == if !old(self)@.threads.contains_key(id@) {
                TurnWrite::Missing
            } else if old(self)@.threads[id@].messages.len() != expected {
                TurnWrite::Stale
            } else {
                TurnWrite::Applied
            },
    {
        match self.find(id) {
            Some(i) => {
                proof {
                    use_type_invariant(&*self);
                    lemma_entry_at(self.entries@, i as int);
                }
                if self.entries[i].state.messages.len() != expected {
                    return TurnWrite::Stale;
                }
                let mut entries: Vec<ThreadEntry> = Vec::new();
                std::mem::swap(&mut entries, &mut self.entries);
                let ghost before = entries@;
                entries[i].state.messages.push(reply);
                if session.is_some() {
                    entries[i].state.session = session;
                }
                proof {
                    lemma_entry_replaced(before, entries@, i as int);
                    assert(views(entries@[i as int].state.messages@) =~= views(
                        before[i as int].state.messages@,
                    ).push(reply@));
                }
                self.entries = entries;
                TurnWrite::Applied
            },
            None => TurnWrite::Missing,
        }
    }
}

} // verus!
