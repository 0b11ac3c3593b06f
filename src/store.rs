use vstd::prelude::*;
use crate::session::{Action, ActionModel, Event, EventModel, store_effect};
use crate::todo::{Todo, TodoRow, rows_of};

verus! {

/// A failure of the record store.
#[derive(Debug)]
pub struct StoreError {
    pub message: String,
}

/// The record store as a value: its rows in ascending identifier order, and
/// the identifier that the next insertion receives.
pub struct StoreModel {
    pub rows: Seq<TodoRow>,
    pub next_id: int,
}

/// Identifiers ascend strictly along `rows`, so none occurs twice.
pub open spec fn ascending_ids(rows: Seq<TodoRow>) -> bool {
    forall|i: int, j: int| 0 <= i < j < rows.len() ==> #[trigger] rows[i].id < #[trigger] rows[j].id
}

/// Holds of every row but the one with identifier `id`.
pub open spec fn other_than(id: u32) -> spec_fn(TodoRow) -> bool {
    |r: TodoRow| r.id != id
}

impl StoreModel {
    /// Identifiers are unique, ascending, and all below the next one to be assigned,
    /// so that none is ever handed out twice.
    pub open spec fn wf(self) -> bool {
        &&& 1 <= self.next_id <= u32::MAX as int + 1
        &&& ascending_ids(self.rows)
        &&& forall|i: int| 0 <= i < self.rows.len() ==> #[trigger] self.rows[i].id < self.next_id
    }

    pub open spec fn empty() -> StoreModel {
        StoreModel { rows: Seq::empty(), next_id: 1 }
    }

    /// Whether another identifier can still be assigned.
    pub open spec fn has_room(self) -> bool {
        self.next_id <= u32::MAX as int
    }

    /// A new row with the given text, not completed, under a fresh identifier.
    pub open spec fn insert(self, text: Seq<char>) -> StoreModel {
        StoreModel {
            rows: self.rows.push(TodoRow { id: self.next_id as u32, text: text, is_completed: false }),
            next_id: self.next_id + 1,
        }
    }

    /// Every row, ascending by identifier.
    pub open spec fn list_all(self) -> Seq<TodoRow> {
        self.rows
    }

    /// The row with `row.id`, if any, takes the text and the flag of `row`.
    pub open spec fn update(self, row: TodoRow) -> StoreModel {
        StoreModel {
            rows: self.rows.map_values(|r: TodoRow| if r.id == row.id { row } else { r }),
            next_id: self.next_id,
        }
    }

    /// The row with identifier `id`, if any, is gone.
    pub open spec fn delete(self, id: u32) -> StoreModel {
        StoreModel { rows: self.rows.filter(other_than(id)), next_id: self.next_id }
    }

    pub open spec fn contains_id(self, id: u32) -> bool {
        exists|i: int| 0 <= i < self.rows.len() && #[trigger] self.rows[i].id == id
    }
}

/// Keeping only what a predicate holds of, where it holds of everything, keeps everything.
pub proof fn lemma_filter_keeps_all(rows: Seq<TodoRow>, keep: spec_fn(TodoRow) -> bool)
    requires
        forall|k: int| 0 <= k < rows.len() ==> keep(#[trigger] rows[k]),
    ensures
        rows.filter(keep) == rows,
    decreases rows.len(),
{
    reveal_with_fuel(Seq::<_>::filter, 1);
    if rows.len() > 0 {
        let init = rows.drop_last();
        assert forall|k: int| 0 <= k < init.len() implies keep(#[trigger] init[k]) by {
            assert(init[k] == rows[k]);
        }
        lemma_filter_keeps_all(init, keep);
        assert(keep(rows[rows.len() - 1]));
        assert(init.push(rows.last()) =~= rows);
    }
}

impl StoreModel {
    /// Inserting into a store with room keeps it well formed.
    pub proof fn lemma_insert_wf(self, text: Seq<char>)
        requires
            self.wf(),
            self.has_room(),
        ensures
            self.insert(text).wf(),
    {
        let n = self.insert(text);
        assert forall|i: int, j: int| 0 <= i < j < n.rows.len() implies #[trigger] n.rows[i].id
            < #[trigger] n.rows[j].id by {
            if j == n.rows.len() - 1 {
                assert(n.rows[i] == self.rows[i]);
            } else {
                assert(n.rows[i] == self.rows[i] && n.rows[j] == self.rows[j]);
            }
        }
        assert forall|i: int| 0 <= i < n.rows.len() implies #[trigger] n.rows[i].id < n.next_id by {
            if i < self.rows.len() {
                assert(n.rows[i] == self.rows[i]);
            }
        }
    }

    /// Deleting the identifier of the row at position `k` removes that row alone.
    pub proof fn lemma_delete_at(self, k: int)
        requires
            self.wf(),
            0 <= k < self.rows.len(),
        ensures
            self.delete(self.rows[k].id).rows == self.rows.remove(k),
    {
        broadcast use Seq::filter_distributes_over_add;
        let id = self.rows[k].id;
        let before = self.rows.subrange(0, k);
        let at = self.rows.subrange(k, k + 1);
        let after = self.rows.subrange(k + 1, self.rows.len() as int);
        assert(self.rows =~= before + at + after);
        assert forall|i: int| 0 <= i < before.len() implies other_than(id)(#[trigger] before[i]) by {
            assert(self.rows[i].id < self.rows[k].id);
        }
        assert forall|i: int| 0 <= i < after.len() implies other_than(id)(#[trigger] after[i]) by {
            assert(self.rows[k].id < self.rows[k + 1 + i].id);
        }
        lemma_filter_keeps_all(before, other_than(id));
        lemma_filter_keeps_all(after, other_than(id));
        reveal_with_fuel(Seq::<_>::filter, 2);
        assert(at.filter(other_than(id)) =~= Seq::<TodoRow>::empty()) by {
            assert(at.drop_last() =~= Seq::<TodoRow>::empty());
        }
        assert((before + at + after).filter(other_than(id)) == before.filter(other_than(id))
            + at.filter(other_than(id)) + after.filter(other_than(id)));
        assert(self.rows.remove(k) =~= before + after);
    }

    /// Updating the row at position `k` by a row with the same identifier replaces
    /// that row alone, and keeps the store well formed.
    pub proof fn lemma_update_at(self, k: int, row: TodoRow)
        requires
            self.wf(),
            0 <= k < self.rows.len(),
            self.rows[k].id == row.id,
        ensures
            self.update(row).rows == self.rows.update(k, row),
            self.update(row).next_id == self.next_id,
            self.update(row).wf(),
    {
        assert forall|i: int| 0 <= i < self.rows.len() && i != k implies #[trigger] self.rows[i].id
            != row.id by {
            if i < k {
                assert(self.rows[i].id < self.rows[k].id);
            } else {
                assert(self.rows[k].id < self.rows[i].id);
            }
        }
        assert(self.update(row).rows =~= self.rows.update(k, row));
        let n = self.update(row);
        assert forall|i: int, j: int| 0 <= i < j < n.rows.len() implies #[trigger] n.rows[i].id
            < #[trigger] n.rows[j].id by {
            assert(self.rows[i].id < self.rows[j].id);
        }
        assert forall|i: int| 0 <= i < n.rows.len() implies #[trigger] n.rows[i].id < n.next_id by {
            assert(self.rows[i].id < self.next_id);
        }
    }
}

/// A record store kept in memory.
pub struct MemoryStore {
    pub rows: Vec<Todo>,
    pub next_id: u64,
}

impl View for MemoryStore {
    type V = StoreModel;

    open spec fn view(&self) -> StoreModel {
        StoreModel { rows: rows_of(self.rows@), next_id: self.next_id as int }
    }
}

impl MemoryStore {
    pub open spec fn wf(&self) -> bool {
        self@.wf()
    }

    /// An empty store.
    pub fn new() -> (r: MemoryStore)
        ensures
            r.wf(),
            r@ == StoreModel::empty(),
    {
        let r = MemoryStore { rows: Vec::new(), next_id: 1 };
        assert(r@.rows =~= Seq::<TodoRow>::empty());
        r
    }

    /// Appends a row with `text`, not completed; fails only when no identifier is left.
    pub fn insert(&mut self, text: String) -> (r: Result<(), StoreError>)
        requires
            old(self).wf(),
        ensures
            final(self).wf(),
            old(self)@.has_room() ==> r is Ok && final(self)@ == old(self)@.insert(text@),
            !old(self)@.has_room() ==> r is Err && final(self)@ == old(self)@,
    {
        if self.next_id > u32::MAX as u64 {
            return Err(StoreError { message: "no identifier is left".to_string() });
        }
        let t = Todo::new(self.next_id as u32, text);
        let ghost before = self@;
        self.rows.push(t);
        self.next_id = self.next_id + 1;
        assert(self@.rows =~= before.insert(text@).rows);
        Ok(())
    }

    /// Every row, ascending by identifier.
    pub fn list_all(&self) -> (r: Vec<Todo>)
        ensures
            rows_of(r@) == self@.list_all(),
    {
        crate::todo::duplicate_all(&self.rows)
    }

    /// Overwrites text and flag of the row with `todo.id`; does nothing if there is none.
    pub fn update(&mut self, todo: &Todo)
        requires
            old(self).wf(),
        ensures
            final(self).wf(),
            final(self)@ == old(self)@.update(todo@),
    {
        let ghost before = self@;
        let mut i: usize = 0;
        while i < self.rows.len()
            invariant
                self@ == before,
                before.wf(),
                i <= self.rows.len(),
                forall|k: int| 0 <= k < i ==> #[trigger] before.rows[k].id != todo.id,
            ensures
                i <= self.rows.len(),
                i < self.rows.len() ==> before.rows[i as int].id == todo.id,
                forall|k: int| 0 <= k < i ==> #[trigger] before.rows[k].id != todo.id,
            decreases self.rows.len() - i,
        {
            if self.rows[i].id == todo.id {
                break;
            }
            i = i + 1;
        }
        if i < self.rows.len() {
            let t = todo.duplicate();
            self.rows.set(i, t);
            assert forall|k: int| 0 <= k < before.rows.len() && k != i implies
                #[trigger] before.rows[k].id != todo.id by {
                if k > i {
                    assert(before.rows[i as int].id < before.rows[k].id);
                }
            }
            assert(self@.rows =~= before.update(todo@).rows);
        } else {
            assert(before.update(todo@).rows =~= before.rows);
        }
    }

    /// Removes the row with identifier `id`; does nothing if there is none.
    pub fn delete(&mut self, id: u32)
        requires
            old(self).wf(),
        ensures
            final(self).wf(),
            final(self)@ == old(self)@.delete(id),
    {
        let ghost before = self@;
        let mut out: Vec<Todo> = Vec::new();
        let mut i: usize = 0;
        while i < self.rows.len()
            invariant
                self@ == before,
                before.wf(),
                i <= self.rows.len(),
                rows_of(out@) == before.rows.subrange(0, i as int).filter(other_than(id)),
                ascending_ids(rows_of(out@)),
                forall|k: int| 0 <= k < out@.len() ==> #[trigger] out@[k].id < before.next_id,
                i < self.rows.len() ==> forall|k: int|
                    0 <= k < out@.len() ==> #[trigger] out@[k].id < before.rows[i as int].id,
            decreases self.rows.len() - i,
        {
            let ghost prefix = before.rows.subrange(0, i as int);
            proof {
                reveal_with_fuel(Seq::<_>::filter, 1);
                assert(before.rows[i as int] == self.rows@[i as int]@);
                assert(before.rows.subrange(0, i + 1).drop_last() =~= prefix);
                assert(before.rows.subrange(0, i + 1).last() == before.rows[i as int]);
            }
            if self.rows[i].id != id {
                let t = self.rows[i].duplicate();
                assert(rows_of(out@.push(t)) =~= rows_of(out@).push(t@));
                out.push(t);
                assert(other_than(id)(before.rows[i as int]));
                assert(rows_of(out@) == before.rows.subrange(0, i + 1).filter(other_than(id)));
            } else {
                assert(!other_than(id)(before.rows[i as int]));
                assert(rows_of(out@) == before.rows.subrange(0, i + 1).filter(other_than(id)));
            }
            i = i + 1;
            if i < self.rows.len() {
                assert(before.rows[i - 1] .id < before.rows[i as int].id);
            }
        }
        assert(before.rows.subrange(0, self.rows.len() as int) =~= before.rows);
        self.rows = out;
    }
    /// Carries out the store's part of an action and reports the outcome as an
    /// event; an action that does not concern the store gives `None`.
    pub fn perform(&mut self, action: &Action) -> (r: Option<Event>)
        requires
            old(self).wf(),
        ensures
            final(self).wf(),
            match action@ {
                ActionModel::Insert(_) => if old(self)@.has_room() {
                    &&& final(self)@ == store_effect(old(self)@, action@)
                    &&& r matches Some(e) && e@ == EventModel::StoreDone
                } else {
                    &&& final(self)@ == old(self)@
                    &&& r matches Some(e) && e@ is StoreFailed
                },
                ActionModel::Update(_) | ActionModel::Delete(_) => {
                    &&& final(self)@ == store_effect(old(self)@, action@)
                    &&& r matches Some(e) && e@ == EventModel::StoreDone
                },
                ActionModel::FetchAll => {
                    &&& final(self)@ == old(self)@
                    &&& r matches Some(e) && e@ == EventModel::Fetched(old(self)@.list_all())
                },
                _ => final(self)@ == old(self)@ && r is None,
            },
    {
        match action {
            Action::Insert { text } => match self.insert(text.clone()) {
                Ok(()) => Some(Event::StoreDone),
                Err(e) => Some(Event::StoreFailed(e)),
            },
            Action::Update { todo } => {
                self.update(todo);
                Some(Event::StoreDone)
            },
            Action::Delete { id } => {
                self.delete(*id);
                Some(Event::StoreDone)
            },
            Action::FetchAll => Some(Event::Fetched(self.list_all())),
            _ => None,
        }
    }
}

} // verus!
