//! The session registry: which session identifiers are live, and the handle
//! behind each.
//!
//! A registry maps each identifier to at most one handle. It is a plain value;
//! callers that share one between tasks guard it with a lock of their own
//! and hold that lock only while one of these operations runs.
//!
//! The entries are kept in a list under the invariant that no identifier
//! occurs twice, so that every operation, taking a handle out included, is
//! proved against the map the list stands for. With the handful of sessions
//! a user has open, scanning the list costs nothing that matters.

use vstd::prelude::*;

verus! {

struct Entry<H> {
    id: String,
    handle: H,
}

/// Whether some entry carries `id`.
spec fn holds<H>(entries: Seq<Entry<H>>, id: Seq<char>) -> bool {
    exists|i: int| 0 <= i < entries.len() && #[trigger] entries[i].id@ == id
}

/// The index of an entry that carries `id`.
spec fn index_of<H>(entries: Seq<Entry<H>>, id: Seq<char>) -> int {
    choose|i: int| 0 <= i < entries.len() && #[trigger] entries[i].id@ == id
}

/// No identifier occurs twice.
spec fn distinct_ids<H>(entries: Seq<Entry<H>>) -> bool {
    forall|i: int, j: int|
        0 <= i < entries.len() && 0 <= j < entries.len() && i != j ==> #[trigger] entries[i].id@
            != #[trigger] entries[j].id@
}

/// The map that a list of entries with distinct identifiers stands for.
spec fn as_map<H>(entries: Seq<Entry<H>>) -> Map<Seq<char>, H> {
    Map::new(
        |id: Seq<char>| holds(entries, id),
        |id: Seq<char>| entries[index_of(entries, id)].handle,
    )
}

/// Under distinct identifiers the entry at `i` is the one its identifier maps to.
proof fn lemma_entry_in_map<H>(entries: Seq<Entry<H>>, i: int)
    requires
        distinct_ids(entries),
        0 <= i < entries.len(),
    ensures
        as_map(entries).contains_key(entries[i].id@),
        as_map(entries)[entries[i].id@] == entries[i].handle,
{
    let id = entries[i].id@;
    assert(holds(entries, id));
    let k = index_of(entries, id);
    assert(entries[k].id@ == id);
    assert(k == i);
}

/// Appending an entry under a new identifier inserts it into the map.
proof fn lemma_push_entry<H>(entries: Seq<Entry<H>>, entry: Entry<H>)
    requires
        distinct_ids(entries),
        !holds(entries, entry.id@),
    ensures
        distinct_ids(entries.push(entry)),
        as_map(entries.push(entry)) == as_map(entries).insert(entry.id@, entry.handle),
{
    let grown = entries.push(entry);
    assert forall|i: int, j: int|
        0 <= i < grown.len() && 0 <= j < grown.len() && i != j implies #[trigger] grown[i].id@
        != #[trigger] grown[j].id@ by {
        if i < entries.len() && j < entries.len() {
            assert(entries[i].id@ != entries[j].id@);
        } else if i < entries.len() {
            assert(entries[i].id@ != entry.id@);
        } else {
            assert(entries[j].id@ != entry.id@);
        }
    }
    let target = as_map(entries).insert(entry.id@, entry.handle);
    assert forall|id: Seq<char>| as_map(grown).contains_key(id) == target.contains_key(id) by {
        if holds(grown, id) {
            let k = index_of(grown, id);
            if k < entries.len() {
                assert(entries[k].id@ == id);
            }
        }
        if holds(entries, id) {
            let k = index_of(entries, id);
            assert(grown[k].id@ == id);
        }
        if id == entry.id@ {
            assert(grown[entries.len() as int].id@ == id);
        }
    }
    assert forall|id: Seq<char>| as_map(grown).contains_key(id) implies as_map(grown)[id]
        == target[id] by {
        let k = index_of(grown, id);
        lemma_entry_in_map(grown, k);
        if k < entries.len() {
            lemma_entry_in_map(entries, k);
        }
    }
    assert(as_map(grown) =~= target);
}

/// Taking the entry at `i` out removes its identifier from the map.
proof fn lemma_remove_entry<H>(entries: Seq<Entry<H>>, i: int)
    requires
        distinct_ids(entries),
        0 <= i < entries.len(),
    ensures
        distinct_ids(entries.remove(i)),
        !holds(entries.remove(i), entries[i].id@),
        as_map(entries.remove(i)) == as_map(entries).remove(entries[i].id@),
{
    let shrunk = entries.remove(i);
    let gone = entries[i].id@;
    assert forall|a: int| 0 <= a < shrunk.len() implies #[trigger] shrunk[a] == entries[if a < i {
        a
    } else {
        a + 1
    }] by {}
    assert forall|a: int, b: int|
        0 <= a < shrunk.len() && 0 <= b < shrunk.len() && a != b implies #[trigger] shrunk[a].id@
        != #[trigger] shrunk[b].id@ by {
        let a0 = if a < i { a } else { a + 1 };
        let b0 = if b < i { b } else { b + 1 };
        assert(entries[a0].id@ != entries[b0].id@);
    }
    if holds(shrunk, gone) {
        let k = index_of(shrunk, gone);
        let k0 = if k < i { k } else { k + 1 };
        assert(entries[k0].id@ == entries[i].id@);
    }
    let target = as_map(entries).remove(gone);
    assert forall|id: Seq<char>| as_map(shrunk).contains_key(id) == target.contains_key(id) by {
        if holds(shrunk, id) {
            let k = index_of(shrunk, id);
            let k0 = if k < i { k } else { k + 1 };
            assert(entries[k0].id@ == id);
        }
        if holds(entries, id) && id != gone {
            let k = index_of(entries, id);
            let k1 = if k < i { k } else { k - 1 };
            assert(shrunk[k1].id@ == id);
        }
    }
    assert forall|id: Seq<char>| as_map(shrunk).contains_key(id) implies as_map(shrunk)[id]
        == target[id] by {
        let k = index_of(shrunk, id);
        let k0 = if k < i { k } else { k + 1 };
        lemma_entry_in_map(shrunk, k);
        lemma_entry_in_map(entries, k0);
    }
    assert(as_map(shrunk) =~= target);
}

/// The sessions after an attempt to create one under `id`: an identifier that
/// is taken keeps its session.
pub open spec fn after_create<H>(sessions: Map<Seq<char>, H>, id: Seq<char>, handle: H) -> Map<
    Seq<char>,
    H,
> {
    if sessions.contains_key(id) {
        sessions
    } else {
        sessions.insert(id, handle)
    }
}

/// Creating a session under an identifier that is not registered and then
/// looking the identifier up finds the handle that was registered.
pub proof fn lemma_create_then_lookup<H>(sessions: Map<Seq<char>, H>, id: Seq<char>, handle: H)
    requires
        !sessions.contains_key(id),
    ensures
        after_create(sessions, id, handle).contains_key(id),
        after_create(sessions, id, handle)[id] == handle,
{
}

/// Creating a session under an identifier that is already registered changes
/// nothing: the session registered first stays, and no other entry moves.
pub proof fn lemma_create_is_idempotent<H>(
    sessions: Map<Seq<char>, H>,
    id: Seq<char>,
    first: H,
    second: H,
)
    ensures
        after_create(after_create(sessions, id, first), id, second) == after_create(
            sessions,
            id,
            first,
        ),
{
}

/// Once a session is removed, its identifier is no longer found, and every
/// other session is found as before.
pub proof fn lemma_remove_then_lookup<H>(sessions: Map<Seq<char>, H>, id: Seq<char>)
    ensures
        !sessions.remove(id).contains_key(id),
        forall|other: Seq<char>|
            other != id ==> sessions.remove(id).contains_key(other) == sessions.contains_key(other),
        forall|other: Seq<char>|
            other != id && sessions.contains_key(other) ==> sessions.remove(id)[other]
                == sessions[other],
{
}

/// Sessions by identifier.
pub struct SessionRegistry<H> {
    entries: Vec<Entry<H>>,
}

impl<H> View for SessionRegistry<H> {
    type V = Map<Seq<char>, H>;

    closed spec fn view(&self) -> Map<Seq<char>, H> {
        as_map(self.entries@)
    }
}

impl<H> SessionRegistry<H> {
    #[verifier::type_invariant]
    spec fn well_formed(self) -> bool {
        distinct_ids(self.entries@)
    }

    /// A registry without sessions.
    pub fn new() -> (registry: Self)
        ensures
            registry@ == Map::<Seq<char>, H>::empty(),
    {
        let registry = SessionRegistry { entries: Vec::new() };
        assert(registry@ =~= Map::<Seq<char>, H>::empty());
        registry
    }

    fn position(&self, id: &str) -> (found: Option<usize>)
        ensures
            match found {
                Some(i) => i < self.entries@.len() && self.entries@[i as int].id@ == id@,
                None => !holds(self.entries@, id@),
            },
    {
        let wanted = id.to_owned();
        let mut i: usize = 0;
        while i < self.entries.len()
            invariant
                i <= self.entries.len(),
                wanted@ == id@,
                forall|j: int| 0 <= j < i ==> self.entries@[j].id@ != id@,
            decreases self.entries.len() - i,
        {
            if self.entries[i].id == wanted {
                return Some(i);
            }
            i += 1;
        }
        None
    }

    /// Whether a session is registered under `id`.
    pub fn contains(&self, id: &str) -> (present: bool)
        ensures
            present == self@.contains_key(id@),
    {
        self.position(id).is_some()
    }

    /// The handle registered under `id`.
    pub fn lookup(&self, id: &str) -> (handle: Option<&H>)
        ensures
            match handle {
                Some(h) => self@.contains_key(id@) && *h == self@[id@],
                None => !self@.contains_key(id@),
            },
    {
        proof {
            use_type_invariant(self);
        }
        match self.position(id) {
            Some(i) => {
                proof {
                    lemma_entry_in_map(self.entries@, i as int);
                }
                Some(&self.entries[i].handle)
            },
            None => None,
        }
    }

    /// Registers `handle` under `id` unless the identifier is taken. A taken
    /// identifier keeps its session, and the handle that was offered comes
    /// back to the caller.
    pub fn create(&mut self, id: String, handle: H) -> (refused: Option<H>)
        ensures
            final(self)@ == after_create(old(self)@, id@, handle),
            refused == if old(self)@.contains_key(id@) {
                Some(handle)
            } else {
                None
            },
    {
        proof {
            use_type_invariant(&*self);
        }
        if self.position(id.as_str()).is_some() {
            return Some(handle);
        }
        let mut entries: Vec<Entry<H>> = Vec::new();
        std::mem::swap(&mut entries, &mut self.entries);
        let entry = Entry { id, handle };
        proof {
            lemma_push_entry(entries@, entry);
        }
        entries.push(entry);
        self.entries = entries;
        None
    }

    /// Registers `handle` under `id`, in place of what was registered there,
    /// and returns the handle it displaced.
    pub fn replace(&mut self, id: String, handle: H) -> (displaced: Option<H>)
        ensures
            final(self)@ == old(self)@.insert(id@, handle),
            displaced == if old(self)@.contains_key(id@) {
                Some(old(self)@[id@])
            } else {
                None
            },
    {
        let displaced = self.remove(id.as_str());
        let refused = self.create(id, handle);
        assert(refused is None);
        assert(self@ =~= old(self)@.insert(id@, handle));
        displaced
    }

    /// Unregisters `id` and returns the handle that was registered under it.
    pub fn remove(&mut self, id: &str) -> (removed: Option<H>)
        ensures
            final(self)@ == old(self)@.remove(id@),
            removed == if old(self)@.contains_key(id@) {
                Some(old(self)@[id@])
            } else {
                None
            },
    {
        proof {
            use_type_invariant(&*self);
        }
        match self.position(id) {
            Some(i) => {
                let mut entries: Vec<Entry<H>> = Vec::new();
                std::mem::swap(&mut entries, &mut self.entries);
                proof {
                    lemma_entry_in_map(entries@, i as int);
                    lemma_remove_entry(entries@, i as int);
                }
                let entry = entries.remove(i);
                self.entries = entries;
                Some(entry.handle)
            },
            None => {
                assert(self@ =~= old(self)@.remove(id@));
                None
            },
        }
    }
}

} // verus!
