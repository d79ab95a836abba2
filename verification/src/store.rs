//! The store: the records by identifier and the counter that issues
//! identifiers. Every change goes through one of its operations.

use std::collections::HashMap;
use vstd::prelude::*;
use vstd::std_specs::iter::IteratorSpec;
use crate::message::{not_found_message, not_found_text};
use crate::model::{highest_id, seed_records, StoreModel};
use crate::todo::{todo_views, Todo, TodoData};

verus! {

/// Why a store operation did not find its record.
#[derive(Debug, PartialEq, Eq)]
pub enum StoreError {
    /// No record has the identifier that was asked for.
    NotFound(u32),
}

impl StoreError {
    /// The identifier that the failed operation asked for.
    pub open spec fn id(self) -> nat {
        match self {
            StoreError::NotFound(id) => id as nat,
        }
    }

    /// The message that reports the error, with the identifier in it.
    pub fn message(&self) -> (message: String)
        ensures
            message@ == not_found_text(self.id()),
    {
        match self {
            StoreError::NotFound(id) => not_found_message(*id),
        }
    }
}

/// The records of a task list and the counter for the next identifier.
///
/// An operation that changes the store takes it by `&mut`, so it has the
/// store to itself from its first step to its last: callers on several
/// threads share a store behind a lock, and each operation is then one
/// indivisible step of the store's history.
pub struct Store {
    todos: HashMap<u32, Todo>,
    next_id: u64,
}

/// The records of a hash map under their identifiers as naturals.
pub closed spec fn records_of(todos: Map<u32, Todo>) -> Map<nat, TodoData> {
    Map::new(
        |id: nat| id <= u32::MAX && todos.contains_key(id as u32),
        |id: nat| todos[id as u32]@,
    )
}

impl View for Store {
    type V = StoreModel;

    closed spec fn view(&self) -> StoreModel {
        StoreModel { records: records_of(self.todos@), next_id: self.next_id as nat }
    }
}

impl Store {
    #[verifier::type_invariant]
    spec fn inv(self) -> bool {
        &&& self.next_id <= u32::MAX + 1
        &&& forall|k: u32| #[trigger]
            self.todos@.contains_key(k) ==> self.todos@[k].id == k && k < self.next_id
    }

    /// A store that holds `seed`. Where two records of `seed` share an
    /// identifier, the later one stays.
    pub fn new(seed: Vec<Todo>) -> (store: Store)
        ensures
            store@ == StoreModel::seeded(todo_views(seed@)),
            store@.wf(),
    {
        broadcast use vstd::std_specs::hash::group_hash_axioms;

        let mut todos: HashMap<u32, Todo> = HashMap::new();
        let mut highest: u32 = 0;
        let mut i: usize = 0;
        assert(todo_views(seed@).take(0) =~= Seq::<TodoData>::empty());
        assert(records_of(todos@) =~= seed_records(todo_views(seed@).take(0)));
        while i < seed.len()
            invariant
                i <= seed.len(),
                records_of(todos@) == seed_records(todo_views(seed@).take(i as int)),
                highest == highest_id(todo_views(seed@).take(i as int)),
                forall|k: u32| #[trigger]
                    todos@.contains_key(k) ==> todos@[k].id == k && k <= highest,
            decreases seed.len() - i,
        {
            let todo = seed[i].clone();
            proof {
                let views = todo_views(seed@);
                assert(views.take(i + 1).drop_last() =~= views.take(i as int));
                assert(views.take(i + 1).last() == todo@);
                assert(records_of(todos@.insert(todo.id, todo)) =~= records_of(todos@).insert(
                    todo.id as nat,
                    todo@,
                ));
            }
            if todo.id > highest {
                highest = todo.id;
            }
            todos.insert(todo.id, todo);
            i += 1;
        }
        assert(todo_views(seed@).take(i as int) =~= todo_views(seed@));
        let store = Store { todos, next_id: highest as u64 + 1 };
        proof {
            lemma_records_finite(store.todos@);
        }
        store
    }

    /// Whether the counter can still issue an identifier.
    pub fn has_free_id(&self) -> (free: bool)
        ensures
            free == (self@.next_id <= u32::MAX),
    {
        self.next_id <= u32::MAX as u64
    }

    /// Creates a record titled `title` under the next identifier and returns
    /// a copy of it. The counter advances by one.
    pub fn create(&mut self, title: String) -> (todo: Todo)
        requires
            old(self)@.next_id <= u32::MAX,
        ensures
            final(self)@ == old(self)@.create(title@),
            todo@ == old(self)@.created(title@),
            final(self)@.wf(),
    {
        broadcast use vstd::std_specs::hash::group_hash_axioms;

        proof {
            use_type_invariant(&*self);
        }
        let id = self.next_id as u32;
        let todo = Todo { id, title, completed: false };
        let stored = todo.clone();
        let mut todos = HashMap::new();
        std::mem::swap(&mut todos, &mut self.todos);
        proof {
            assert(records_of(todos@.insert(id, stored)) =~= records_of(todos@).insert(
                id as nat,
                stored@,
            ));
            lemma_records_finite(todos@.insert(id, stored));
        }
        todos.insert(id, stored);
        self.next_id = self.next_id + 1;
        self.todos = todos;
        todo
    }

    /// A copy of every record, each once, in no particular order. The store
    /// does not change.
    pub fn list_all(&self) -> (listing: Vec<Todo>)
        ensures
            self@.is_listing(todo_views(listing@)),
            self@.wf(),
    {
        broadcast use vstd::std_specs::hash::group_hash_axioms;

        proof {
            use_type_invariant(self);
            lemma_records_finite(self.todos@);
        }
        let mut listing: Vec<Todo> = Vec::new();
        for entry in it: self.todos.iter()
            invariant
                listing@.len() == it.index(),
                forall|i: int| 0 <= i < it.index() ==> listing@[i] == *(#[trigger] it.seq()[i]).1,
        {
            let (_, todo) = entry;
            listing.push(todo.clone());
        }
        proof {
            let entries = self.todos.iter().remaining();
            let views = todo_views(listing@);
            assert(entries.len() == listing@.len());
            assert forall|i: int| 0 <= i < views.len() implies self@.records.contains_key(
                #[trigger] views[i].id,
            ) && self@.records[views[i].id] == views[i] by {
                let k = *entries[i].0;
                assert(self.todos@.contains_key(k));
                assert(views[i] == self.todos@[k]@);
                assert((k as nat) as u32 == k);
            }
            assert forall|i: int, j: int| 0 <= i < j < views.len() implies (#[trigger] views[i]).id
                != (#[trigger] views[j]).id by {
                let ki = *entries[i].0;
                let kj = *entries[j].0;
                assert(self.todos@.contains_key(ki));
                assert(self.todos@.contains_key(kj));
                if ki == kj {
                    assert(entries[i] == entries[j]);
                }
            }
            assert forall|id: nat| #[trigger] self@.records.contains_key(id) implies exists|i: int|
                0 <= i < views.len() && #[trigger] views[i] == self@.records[id] by {
                let k = id as u32;
                assert(self.todos@.contains_key(k));
                assert(entries.contains((&k, &self.todos@[k])));
                let i = choose|i: int| 0 <= i < entries.len() && entries[i] == (&k, &self.todos@[k]);
                assert(views[i] == self@.records[id]);
            }
        }
        listing
    }

    /// A copy of the record under `id`. The store does not change.
    pub fn get(&self, id: u32) -> (found: Result<Todo, StoreError>)
        ensures
            match found {
                Ok(todo) => self@.get(id as nat) == Some(todo@),
                Err(e) => !self@.contains(id as nat) && e == StoreError::NotFound(id),
            },
            self@.wf(),
    {
        broadcast use vstd::std_specs::hash::group_hash_axioms;

        proof {
            use_type_invariant(self);
            lemma_records_finite(self.todos@);
        }
        match self.todos.get(&id) {
            Some(todo) => Ok(todo.clone()),
            None => Err(StoreError::NotFound(id)),
        }
    }

    /// Replaces the supplied fields of the record under `id` and returns a
    /// copy of the record as it then is. A field that is `None` keeps its
    /// value. Without a record under `id` nothing changes.
    pub fn update(&mut self, id: u32, title: Option<String>, completed: Option<bool>) -> (updated:
        Result<Todo, StoreError>)
        ensures
            final(self)@ == old(self)@.update(id as nat, title_view(title), completed),
            match updated {
                Ok(todo) => old(self)@.contains(id as nat) && todo@ == old(self)@.patched(
                    id as nat,
                    title_view(title),
                    completed,
                ),
                Err(e) => !old(self)@.contains(id as nat) && e == StoreError::NotFound(id),
            },
            final(self)@.wf(),
    {
        broadcast use vstd::std_specs::hash::group_hash_axioms;

        proof {
            use_type_invariant(&*self);
            lemma_records_finite(self.todos@);
        }
        let patched = match self.todos.get(&id) {
            Some(current) => Todo {
                id: current.id,
                title: match title {
                    Some(t) => t,
                    None => current.title.clone(),
                },
                completed: match completed {
                    Some(c) => c,
                    None => current.completed,
                },
            },
            None => {
                return Err(StoreError::NotFound(id));
            },
        };
        let stored = patched.clone();
        let mut todos = HashMap::new();
        std::mem::swap(&mut todos, &mut self.todos);
        proof {
            assert(records_of(todos@.insert(id, stored)) =~= records_of(todos@).insert(
                id as nat,
                stored@,
            ));
            lemma_records_finite(todos@.insert(id, stored));
        }
        todos.insert(id, stored);
        self.todos = todos;
        Ok(patched)
    }

    /// Removes the record under `id`. Without a record under `id` nothing
    /// changes. The identifier is not issued again.
    pub fn delete(&mut self, id: u32) -> (deleted: Result<(), StoreError>)
        ensures
            final(self)@ == old(self)@.delete(id as nat),
            match deleted {
                Ok(_) => old(self)@.contains(id as nat),
                Err(e) => !old(self)@.contains(id as nat) && e == StoreError::NotFound(id),
            },
            final(self)@.wf(),
    {
        broadcast use vstd::std_specs::hash::group_hash_axioms;

        proof {
            use_type_invariant(&*self);
            lemma_records_finite(self.todos@);
        }
        let mut todos = HashMap::new();
        std::mem::swap(&mut todos, &mut self.todos);
        proof {
            assert(records_of(todos@.remove(id)) =~= records_of(todos@).remove(id as nat));
            lemma_records_finite(todos@.remove(id));
        }
        let removed = todos.remove(&id);
        self.todos = todos;
        proof {
            if removed is Some {
                assert(old(self).todos@.contains_key((id as nat) as u32));
            } else {
                assert(old(self).todos@.remove(id) =~= old(self).todos@);
            }
        }
        match removed {
            Some(_) => Ok(()),
            None => Err(StoreError::NotFound(id)),
        }
    }
}

/// The title of an update as a mathematical value.
pub open spec fn title_view(title: Option<String>) -> Option<Seq<char>> {
    match title {
        Some(t) => Some(t@),
        None => None,
    }
}

/// The records of a finite hash map are finitely many.
proof fn lemma_records_finite(todos: Map<u32, Todo>)
    requires
        todos.dom().finite(),
    ensures
        records_of(todos).dom().finite(),
        records_of(todos).len() == todos.len(),
{
    let ids = todos.dom().map(|k: u32| k as nat);
    todos.dom().lemma_map_finite(|k: u32| k as nat);
    assert(records_of(todos).dom() =~= ids) by {
        assert forall|id: nat| records_of(todos).dom().contains(id) implies ids.contains(id) by {
            assert(todos.dom().contains(id as u32));
            assert((id as u32) as nat == id);
        }
    }
    vstd::set_lib::lemma_map_size(todos.dom(), ids, |k: u32| k as nat);
}

} // verus!
