//! The store as a mathematical value: a finite map from identifiers to
//! records, and the counter that issues the identifiers.

use vstd::prelude::*;
use crate::todo::TodoData;

verus! {

/// The abstract state of a store.
pub struct StoreModel {
    pub records: Map<nat, TodoData>,
    pub next_id: nat,
}

/// The largest identifier among `seed`, or 0 when there is none.
pub open spec fn highest_id(seed: Seq<TodoData>) -> nat
    decreases seed.len(),
{
    if seed.len() == 0 {
        0
    } else if seed.last().id > highest_id(seed.drop_last()) {
        seed.last().id
    } else {
        highest_id(seed.drop_last())
    }
}

/// The records of `seed` by identifier. Where two share one, the later stays.
pub open spec fn seed_records(seed: Seq<TodoData>) -> Map<nat, TodoData>
    decreases seed.len(),
{
    if seed.len() == 0 {
        Map::empty()
    } else {
        seed_records(seed.drop_last()).insert(seed.last().id, seed.last())
    }
}

impl StoreModel {
    /// Every record sits under its own identifier, and the counter is above
    /// every identifier in use.
    pub open spec fn wf(self) -> bool {
        &&& self.records.dom().finite()
        &&& forall|id: nat| #[trigger]
            self.records.contains_key(id) ==> self.records[id].id == id && id < self.next_id
    }

    /// The store that starts from `seed`: the counter is one above the highest
    /// identifier in it.
    pub open spec fn seeded(seed: Seq<TodoData>) -> StoreModel {
        StoreModel { records: seed_records(seed), next_id: highest_id(seed) + 1 }
    }

    pub open spec fn contains(self, id: nat) -> bool {
        self.records.contains_key(id)
    }

    /// The record under `id`, if there is one.
    pub open spec fn get(self, id: nat) -> Option<TodoData> {
        if self.records.contains_key(id) {
            Some(self.records[id])
        } else {
            None
        }
    }

    /// The record that creating one titled `title` gives.
    pub open spec fn created(self, title: Seq<char>) -> TodoData {
        TodoData { id: self.next_id, title, completed: false }
    }

    /// The store after a record titled `title` has been created.
    pub open spec fn create(self, title: Seq<char>) -> StoreModel {
        StoreModel {
            records: self.records.insert(self.next_id, self.created(title)),
            next_id: self.next_id + 1,
        }
    }

    /// The record under `id` with the supplied fields replaced. A field that
    /// is `None` keeps its value.
    pub open spec fn patched(
        self,
        id: nat,
        title: Option<Seq<char>>,
        completed: Option<bool>,
    ) -> TodoData {
        let current = self.records[id];
        TodoData {
            id: current.id,
            title: match title {
                Some(t) => t,
                None => current.title,
            },
            completed: match completed {
                Some(c) => c,
                None => current.completed,
            },
        }
    }

    /// The store after an update of `id`. Without a record under `id` nothing
    /// changes.
    pub open spec fn update(
        self,
        id: nat,
        title: Option<Seq<char>>,
        completed: Option<bool>,
    ) -> StoreModel {
        if self.records.contains_key(id) {
            StoreModel {
                records: self.records.insert(id, self.patched(id, title, completed)),
                next_id: self.next_id,
            }
        } else {
            self
        }
    }

    /// The store after the record under `id` has been deleted. Without a
    /// record under `id` nothing changes. The counter never goes back.
    pub open spec fn delete(self, id: nat) -> StoreModel {
        if self.records.contains_key(id) {
            StoreModel { records: self.records.remove(id), next_id: self.next_id }
        } else {
            self
        }
    }

    /// `listing` holds each record of the store exactly once, in some order.
    pub open spec fn is_listing(self, listing: Seq<TodoData>) -> bool {
        &&& listing.len() == self.records.len()
        &&& forall|i: int|
            0 <= i < listing.len() ==> self.records.contains_key(#[trigger] listing[i].id)
                && self.records[listing[i].id] == listing[i]
        &&& forall|i: int, j: int|
            0 <= i < j < listing.len() ==> (#[trigger] listing[i]).id != (#[trigger] listing[j]).id
        &&& forall|id: nat| #[trigger]
            self.records.contains_key(id) ==> exists|i: int|
                0 <= i < listing.len() && #[trigger] listing[i] == self.records[id]
    }
}

} // verus!
