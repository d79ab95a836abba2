//! What holds of the store over whole histories of operations, and of its
//! operations taken together.

use vstd::prelude::*;
use crate::model::StoreModel;
use crate::todo::TodoData;

verus! {

/// An operation that may change the store.
pub enum Op {
    Create { title: Seq<char> },
    Update { id: nat, new_title: Option<Seq<char>>, new_completed: Option<bool> },
    Delete { id: nat },
}

impl StoreModel {
    /// The store after `op`.
    pub open spec fn apply(self, op: Op) -> StoreModel {
        match op {
            Op::Create { title } => self.create(title),
            Op::Update { id, new_title, new_completed } => self.update(id, new_title, new_completed),
            Op::Delete { id } => self.delete(id),
        }
    }

    /// The store after the operations of `ops`, one after the other.
    pub open spec fn run(self, ops: Seq<Op>) -> StoreModel
        decreases ops.len(),
    {
        if ops.len() == 0 {
            self
        } else {
            self.run(ops.drop_last()).apply(ops.last())
        }
    }

    /// The identifier that the operation at `k` of `ops` is given if it
    /// creates a record: the counter of the store that the operations before
    /// it have left.
    pub open spec fn id_issued_at(self, ops: Seq<Op>, k: int) -> nat {
        self.run(ops.take(k)).next_id
    }
}

/// A store that starts from seed records is well formed.
pub proof fn lemma_seeded_wf(seed: Seq<TodoData>)
    ensures
        StoreModel::seeded(seed).wf(),
    decreases seed.len(),
{
    if seed.len() > 0 {
        lemma_seeded_wf(seed.drop_last());
    }
}

/// Every operation keeps a well-formed store well formed: each record stays
/// under its own identifier, below the counter.
pub proof fn lemma_apply_wf(store: StoreModel, op: Op)
    requires
        store.wf(),
    ensures
        store.apply(op).wf(),
{
}

/// A well-formed store stays well formed over any history.
pub proof fn lemma_run_wf(store: StoreModel, ops: Seq<Op>)
    requires
        store.wf(),
    ensures
        store.run(ops).wf(),
    decreases ops.len(),
{
    if ops.len() > 0 {
        lemma_run_wf(store, ops.drop_last());
        lemma_apply_wf(store.run(ops.drop_last()), ops.last());
    }
}

/// The counter never goes back: after more of a history it is at least what
/// it was after less of it.
pub proof fn lemma_counter_never_decreases(store: StoreModel, ops: Seq<Op>, i: int, j: int)
    requires
        0 <= i <= j <= ops.len(),
    ensures
        store.id_issued_at(ops, i) <= store.id_issued_at(ops, j),
    decreases j - i,
{
    if i < j {
        lemma_counter_never_decreases(store, ops, i, j - 1);
        assert(ops.take(j).drop_last() =~= ops.take(j - 1));
    }
}

/// The identifiers that the creations of a history return are strictly
/// increasing, whatever else happens between them. So no two creations ever
/// return the same identifier.
pub proof fn lemma_created_ids_increase(store: StoreModel, ops: Seq<Op>, i: int, j: int)
    requires
        0 <= i < j < ops.len(),
        ops[i] is Create,
        ops[j] is Create,
    ensures
        store.id_issued_at(ops, i) < store.id_issued_at(ops, j),
{
    assert(ops.take(i + 1).drop_last() =~= ops.take(i));
    assert(store.id_issued_at(ops, i + 1) == store.id_issued_at(ops, i) + 1);
    lemma_counter_never_decreases(store, ops, i + 1, j);
}

/// The identifier that a creation returns belonged to no record at any
/// earlier point of the history: an identifier is never issued again, also
/// after its record has been deleted.
pub proof fn lemma_created_id_is_fresh(store: StoreModel, ops: Seq<Op>, j: int, k: int)
    requires
        store.wf(),
        0 <= j <= k < ops.len(),
        ops[k] is Create,
    ensures
        !store.run(ops.take(j)).contains(store.id_issued_at(ops, k)),
{
    lemma_run_wf(store, ops.take(j));
    lemma_counter_never_decreases(store, ops, j, k);
}

/// Reading a record right after its creation gives the record that the
/// creation returned.
pub proof fn lemma_get_after_create(store: StoreModel, title: Seq<char>)
    ensures
        store.create(title).get(store.created(title).id) == Some(store.created(title)),
{
}

/// Creating a record leaves every record that was there as it was.
pub proof fn lemma_create_keeps_others(store: StoreModel, title: Seq<char>, id: nat)
    requires
        store.wf(),
        store.contains(id),
    ensures
        store.create(title).get(id) == store.get(id),
{
}

/// An update changes the fields that it supplies and no other: the
/// identifier stays, a title that is not supplied stays, and so does a
/// completion state that is not supplied.
pub proof fn lemma_update_changes_supplied_fields_only(
    store: StoreModel,
    id: nat,
    title: Option<Seq<char>>,
    completed: Option<bool>,
)
    requires
        store.contains(id),
    ensures
        store.update(id, title, completed).get(id) == Some(store.patched(id, title, completed)),
        store.patched(id, title, completed).id == store.records[id].id,
        store.patched(id, title, completed).title == match title {
            Some(t) => t,
            None => store.records[id].title,
        },
        store.patched(id, title, completed).completed == match completed {
            Some(c) => c,
            None => store.records[id].completed,
        },
{
}

/// An update leaves every other record, and the counter, as they were.
pub proof fn lemma_update_keeps_others(
    store: StoreModel,
    id: nat,
    title: Option<Seq<char>>,
    completed: Option<bool>,
    other: nat,
)
    requires
        other != id,
    ensures
        store.update(id, title, completed).get(other) == store.get(other),
        store.update(id, title, completed).next_id == store.next_id,
{
}

/// After a record has been deleted, reading it finds nothing, and deleting it
/// once more finds nothing and changes nothing.
pub proof fn lemma_deleted_is_absent(store: StoreModel, id: nat)
    ensures
        store.delete(id).get(id) is None,
        !store.delete(id).contains(id),
        store.delete(id).delete(id) == store.delete(id),
{
}

/// A deletion leaves every other record, and the counter, as they were.
pub proof fn lemma_delete_keeps_others(store: StoreModel, id: nat, other: nat)
    requires
        other != id,
    ensures
        store.delete(id).get(other) == store.get(other),
        store.delete(id).next_id == store.next_id,
{
}

/// A listing holds the record under each identifier of the store at exactly
/// one place.
pub proof fn lemma_listing_holds_each_once(store: StoreModel, listing: Seq<TodoData>, id: nat)
    requires
        store.is_listing(listing),
        store.contains(id),
    ensures
        exists|i: int| 0 <= i < listing.len() && #[trigger] listing[i] == store.records[id],
        forall|i: int, j: int|
            0 <= i < listing.len() && 0 <= j < listing.len() && (#[trigger] listing[i]).id == id
                && (#[trigger] listing[j]).id == id ==> i == j,
{
    assert forall|i: int, j: int|
        0 <= i < listing.len() && 0 <= j < listing.len() && (#[trigger] listing[i]).id == id && (
        #[trigger] listing[j]).id == id implies i == j by {
        if i < j {
            assert(listing[i].id != listing[j].id);
        }
        if j < i {
            assert(listing[j].id != listing[i].id);
        }
    }
}

/// A listing holds no record under an identifier that the store does not
/// have.
pub proof fn lemma_listing_holds_no_other(store: StoreModel, listing: Seq<TodoData>, id: nat)
    requires
        store.is_listing(listing),
        !store.contains(id),
    ensures
        forall|i: int| 0 <= i < listing.len() ==> (#[trigger] listing[i]).id != id,
{
}

/// A listing taken after a creation holds the new record exactly once.
pub proof fn lemma_listing_after_create(
    store: StoreModel,
    title: Seq<char>,
    listing: Seq<TodoData>,
)
    requires
        store.create(title).is_listing(listing),
    ensures
        exists|i: int| 0 <= i < listing.len() && #[trigger] listing[i] == store.created(title),
        forall|i: int, j: int|
            0 <= i < listing.len() && 0 <= j < listing.len() && (#[trigger] listing[i]).id
                == store.created(title).id && (#[trigger] listing[j]).id == store.created(
                title,
            ).id ==> i == j,
{
    lemma_listing_holds_each_once(store.create(title), listing, store.next_id);
}

/// A listing taken after a deletion does not hold the deleted record.
pub proof fn lemma_listing_after_delete(store: StoreModel, id: nat, listing: Seq<TodoData>)
    requires
        store.delete(id).is_listing(listing),
    ensures
        forall|i: int| 0 <= i < listing.len() ==> (#[trigger] listing[i]).id != id,
{
    lemma_listing_holds_no_other(store.delete(id), listing, id);
}

} // verus!
