//! The list of saved connection profiles and the edits made to it.
//!
//! The list is kept in memory; reading it from and writing it to a
//! configuration file is left to the caller.

use crate::models::{Connection, ConnectionView};
use vstd::prelude::*;

verus! {

/// The models of a list of profiles, in order.
pub open spec fn profile_views(list: Seq<Connection>) -> Seq<ConnectionView> {
    Seq::new(list.len(), |i: int| list[i]@)
}

/// The index of the first profile in `list` whose identifier is `id`.
pub open spec fn first_with_id(list: Seq<ConnectionView>, id: Seq<char>) -> Option<int>
    decreases list.len(),
{
    if list.len() == 0 {
        None
    } else if list[0].id == id {
        Some(0)
    } else {
        match first_with_id(list.drop_first(), id) {
            Some(i) => Some(i + 1),
            None => None,
        }
    }
}

/// `first_with_id` finds the least index that carries `id`, and finds none
/// only if no profile carries it.
pub proof fn lemma_first_with_id(list: Seq<ConnectionView>, id: Seq<char>)
    ensures
        match first_with_id(list, id) {
            Some(i) => {
                &&& 0 <= i < list.len()
                &&& list[i].id == id
                &&& forall|j: int| 0 <= j < i ==> list[j].id != id
            },
            None => forall|j: int| 0 <= j < list.len() ==> list[j].id != id,
        },
    decreases list.len(),
{
    if list.len() > 0 && list[0].id != id {
        let rest = list.drop_first();
        lemma_first_with_id(rest, id);
        assert(forall|j: int| 0 <= j < rest.len() ==> rest[j] == list[j + 1]);
        match first_with_id(rest, id) {
            Some(i) => {
                assert forall|j: int| 0 <= j < i + 1 implies list[j].id != id by {
                    if j > 0 {
                        assert(rest[j - 1].id != id);
                    }
                }
            },
            None => {
                assert forall|j: int| 0 <= j < list.len() implies list[j].id != id by {
                    if j > 0 {
                        assert(rest[j - 1].id != id);
                    }
                }
            },
        }
    }
}

/// The saved connection profiles, in the order in which they were added.
pub struct ConnectionStorage {
    connections: Vec<Connection>,
}

impl View for ConnectionStorage {
    type V = Seq<ConnectionView>;

    closed spec fn view(&self) -> Seq<ConnectionView> {
        profile_views(self.connections@)
    }
}

impl ConnectionStorage {
    /// An empty list, as found where nothing was saved yet.
    pub fn new() -> (storage: Self)
        ensures
            storage@ == Seq::<ConnectionView>::empty(),
    {
        ConnectionStorage { connections: Vec::new() }
    }

    /// A copy of the whole list.
    pub fn load_connections(&self) -> (list: Vec<Connection>)
        ensures
            profile_views(list@) == self@,
    {
        let mut list: Vec<Connection> = Vec::new();
        let mut i: usize = 0;
        while i < self.connections.len()
            invariant
                i <= self.connections.len(),
                list@.len() == i,
                forall|j: int| 0 <= j < i ==> list@[j]@ == self.connections@[j]@,
            decreases self.connections.len() - i,
        {
            list.push(self.connections[i].clone());
            i += 1;
        }
        assert(profile_views(list@) =~= self@);
        list
    }

    /// Replaces the whole list.
    pub fn save_connections(&mut self, connections: Vec<Connection>)
        ensures
            final(self)@ == profile_views(connections@),
    {
        self.connections = connections;
    }

    /// Appends a profile.
    pub fn add_connection(&mut self, connection: Connection)
        ensures
            final(self)@ == old(self)@.push(connection@),
    {
        self.connections.push(connection);
        assert(self@ =~= old(self)@.push(connection@));
    }

    /// Removes every profile whose identifier is `id`.
    pub fn remove_connection(&mut self, id: &str)
        ensures
            final(self)@ == old(self)@.filter(|c: ConnectionView| c.id != id@),
    {
        let wanted = id.to_owned();
        let ghost keep = |c: ConnectionView| c.id != id@;
        let ghost before = self@;
        let mut kept: Vec<Connection> = Vec::new();
        let mut rest: Vec<Connection> = Vec::new();
        std::mem::swap(&mut rest, &mut self.connections);
        proof {
            reveal(Seq::filter);
            assert(before.take(0).filter(keep) =~= Seq::<ConnectionView>::empty());
        }
        let total = rest.len();
        let mut i: usize = 0;
        while i < total
            invariant
                i <= total,
                total == rest.len(),
                wanted@ == id@,
                before == profile_views(rest@),
                keep == (|c: ConnectionView| c.id != id@),
                profile_views(kept@) == before.take(i as int).filter(keep),
            decreases total - i,
        {
            proof {
                reveal(Seq::filter);
                assert(before.take(i + 1).drop_last() =~= before.take(i as int));
                assert(before.take(i + 1).last() == rest@[i as int]@);
            }
            if rest[i].id != wanted {
                let ghost earlier = kept@;
                kept.push(rest[i].clone());
                assert(profile_views(kept@) =~= profile_views(earlier).push(rest@[i as int]@));
            }
            i += 1;
        }
        assert(before.take(total as int) =~= before);
        self.connections = kept;
    }

    /// Replaces the first profile that carries the identifier of `connection`
    /// and says whether there was one; without one the list stays as it is.
    pub fn update_connection(&mut self, connection: Connection) -> (changed: bool)
        ensures
            match first_with_id(old(self)@, connection@.id) {
                Some(i) => changed && final(self)@ == old(self)@.update(i, connection@),
                None => !changed && final(self)@ == old(self)@,
            },
    {
        let mut i: usize = 0;
        while i < self.connections.len()
            invariant
                i <= self.connections.len(),
                self.connections == old(self).connections,
                forall|j: int| 0 <= j < i ==> self@[j].id != connection@.id,
            decreases self.connections.len() - i,
        {
            if self.connections[i].id == connection.id {
                let ghost model = connection@;
                proof {
                    lemma_first_with_id(self@, model.id);
                    assert(self@[i as int].id == model.id);
                }
                self.connections.set(i, connection);
                assert(self@ =~= old(self)@.update(i as int, model));
                return true;
            }
            i += 1;
        }
        proof {
            lemma_first_with_id(self@, connection@.id);
        }
        false
    }

    /// A copy of the first profile whose identifier is `id`.
    pub fn get_connection(&self, id: &str) -> (found: Option<Connection>)
        ensures
            match first_with_id(self@, id@) {
                Some(i) => found matches Some(c) && c@ == self@[i],
                None => found is None,
            },
    {
        let wanted = id.to_owned();
        let mut i: usize = 0;
        while i < self.connections.len()
            invariant
                i <= self.connections.len(),
                wanted@ == id@,
                forall|j: int| 0 <= j < i ==> self@[j].id != id@,
            decreases self.connections.len() - i,
        {
            if self.connections[i].id == wanted {
                proof {
                    lemma_first_with_id(self@, id@);
                    assert(self@[i as int].id == id@);
                }
                return Some(self.connections[i].clone());
            }
            i += 1;
        }
        proof {
            lemma_first_with_id(self@, id@);
        }
        None
    }
}

} // verus!
