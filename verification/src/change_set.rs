use vstd::prelude::*;
use crate::account::ObjectID;
use crate::state::{State, TableTypeInfo};
use crate::keyed_map::KeyedMap;

verus! {

/// A change to one entry of a table.
#[derive(Debug)]
pub enum Op<T> {
    /// The entry is created with this value.
    New(T),
    /// The entry's value becomes this one.
    Modify(T),
    /// The entry is removed.
    Delete,
}

/// The changes to a single table: the operation on each changed key, and by
/// how much the table's size grows (negative where more entries are deleted
/// than inserted).
#[derive(Debug)]
pub struct TableChange {
    pub entries: KeyedMap<Vec<u8>, Op<State>>,
    pub size_increment: i64,
}

impl TableChange {
    pub open spec fn wf(&self) -> bool {
        self.entries.wf()
    }
}

impl Default for TableChange {
    /// No change: no entry touched, no growth.
    fn default() -> (c: TableChange)
        ensures
            c.wf(),
            c.entries@ == Map::<Seq<u8>, Op<State>>::empty(),
            c.size_increment == 0,
    {
        TableChange { entries: KeyedMap::new(), size_increment: 0 }
    }
}

/// The changes to the global state: the tables created with the type of
/// their keys, the tables removed, and the changes to each table.
#[derive(Debug)]
pub struct StateChangeSet {
    pub new_tables: KeyedMap<ObjectID, TableTypeInfo>,
    /// The removed tables, as the keys of this map.
    pub removed_tables: KeyedMap<ObjectID, ()>,
    pub changes: KeyedMap<ObjectID, TableChange>,
}

/// The changes of a table: those recorded, or no change where none is.
pub open spec fn table_change_or_empty(changes: Map<ObjectID, TableChange>, id: ObjectID) -> (Map<Seq<u8>, Op<State>>, i64) {
    if changes.contains_key(id) {
        (changes[id].entries@, changes[id].size_increment)
    } else {
        (Map::empty(), 0)
    }
}

impl StateChangeSet {
    pub open spec fn wf(&self) -> bool {
        &&& self.new_tables.wf()
        &&& self.removed_tables.wf()
        &&& self.changes.wf()
        &&& forall|id: ObjectID| #[trigger] self.changes@.contains_key(id) ==> self.changes@[id].wf()
    }

    /// The changes of the table `object_id`, which are first recorded as no
    /// change if there are none yet.
    pub fn get_or_insert_table_change(&mut self, object_id: ObjectID) -> (r: &mut TableChange)
        requires
            old(self).wf(),
        ensures
            r.wf(),
            (r.entries@, r.size_increment) == table_change_or_empty(old(self).changes@, object_id),
            final(r).wf() ==> final(self).wf(),
            final(self).changes@ == old(self).changes@.insert(object_id, *final(r)),
            final(self).new_tables == old(self).new_tables,
            final(self).removed_tables == old(self).removed_tables,
    {
        self.changes.get_or_insert_with(object_id, TableChange::default())
    }

    /// Records `op` on the entry `key` of the table `handle`, in place of any
    /// operation recorded on that entry before.
    pub fn add_op(&mut self, handle: ObjectID, key: Vec<u8>, op: Op<State>)
        requires
            old(self).wf(),
        ensures
            final(self).wf(),
            final(self).changes@.dom() == old(self).changes@.dom().insert(handle),
            forall|id: ObjectID| id != handle && #[trigger] old(self).changes@.contains_key(id)
                ==> final(self).changes@[id] == old(self).changes@[id],
            final(self).changes@[handle].entries@
                == table_change_or_empty(old(self).changes@, handle).0.insert(key@, op),
            final(self).changes@[handle].size_increment == table_change_or_empty(old(self).changes@, handle).1,
            final(self).new_tables == old(self).new_tables,
            final(self).removed_tables == old(self).removed_tables,
    {
        let ghost key_view = key@;
        let table_change = self.get_or_insert_table_change(handle);
        table_change.entries.insert(key, op);
        proof {
            assert(final(self).changes@.dom() =~= old(self).changes@.dom().insert(handle));
        }
    }
}

impl Default for StateChangeSet {
    /// No change at all.
    fn default() -> (s: StateChangeSet)
        ensures
            s.wf(),
            s.new_tables@ == Map::<ObjectID, TableTypeInfo>::empty(),
            s.removed_tables@ == Map::<ObjectID, ()>::empty(),
            s.changes@ == Map::<ObjectID, TableChange>::empty(),
    {
        StateChangeSet { new_tables: KeyedMap::new(), removed_tables: KeyedMap::new(), changes: KeyedMap::new() }
    }
}

/// A dump of the state: for each table, the set of its entries' updates.
#[derive(Debug)]
pub struct StateSet<U> {
    pub state_sets: KeyedMap<ObjectID, U>,
}

impl<U> StateSet<U> {
    pub open spec fn wf(&self) -> bool {
        self.state_sets.wf()
    }

    pub fn new() -> (s: StateSet<U>)
        ensures
            s.wf(),
            s.state_sets@ == Map::<ObjectID, U>::empty(),
    {
        StateSet { state_sets: KeyedMap::new() }
    }

    /// Records the updates `v` of the table `k`; returns the updates recorded
    /// for it before, if any.
    pub fn insert(&mut self, k: ObjectID, v: U) -> (r: Option<U>)
        requires
            old(self).wf(),
        ensures
            final(self).wf(),
            final(self).state_sets@ == old(self).state_sets@.insert(k, v),
            match r {
                Some(prev) => old(self).state_sets@.contains_key(k) && old(self).state_sets@[k] == prev,
                None => !old(self).state_sets@.contains_key(k),
            },
    {
        self.state_sets.insert(k, v)
    }
}

} // verus!
