use vstd::prelude::*;
use crate::session::{EventModel, Phase, SessionModel, initial, next, store_effect, ActionModel};
use crate::store::{StoreModel, ascending_ids, other_than, lemma_filter_keeps_all};

verus! {

/// Adding a todo from a fresh session against an empty store: the session asks
/// for the text, inserts exactly that text, returns to the main menu, and the
/// store then lists one record with that text, not completed.
pub proof fn add_to_empty_store_lists_one(text: Seq<char>)
    ensures
        ({
            let (s1, a1) = next(initial(), EventModel::Chosen(1));
            let (s2, a2) = next(s1, EventModel::Entered(text));
            let (s3, a3) = next(s2, EventModel::StoreDone);
            let listed = store_effect(StoreModel::empty(), a2).list_all();
            &&& a1 == ActionModel::PromptNewTodo
            &&& a2 == ActionModel::Insert(text)
            &&& a3 == ActionModel::ShowMainMenu
            &&& s3.phase == Phase::MainMenu
            &&& listed.len() == 1
            &&& listed[0].text == text
            &&& !listed[0].is_completed
        }),
{
}

/// Toggling the selected todo twice through the session writes the flipped
/// record to the store the first time and the record as it first was the second time,
/// so the store ends as it began.
pub proof fn toggle_twice_restores(s: SessionModel, m: StoreModel, k: int)
    requires
        s.wf(),
        s.phase == Phase::ChoosingOperation,
        m.wf(),
        0 <= k < m.rows.len(),
        m.rows[k] == s.selected(),
    ensures
        ({
            let (s1, a1) = next(s, EventModel::Chosen(0));
            let m1 = store_effect(m, a1);
            let (s2, a2) = next(s1, EventModel::StoreDone);
            let (s3, a3) = next(s2, EventModel::Chosen(s.cursor));
            let (s4, a4) = next(s3, EventModel::Chosen(0));
            let m2 = store_effect(m1, a4);
            &&& m1.list_all() == m.list_all().update(k, s.selected().toggled())
            &&& m1.list_all()[k].is_completed == !s.selected().is_completed
            &&& m2.list_all()[k].is_completed == s.selected().is_completed
            &&& m2 == m
        }),
{
    let (s1, a1) = next(s, EventModel::Chosen(0));
    let flipped = s.selected().toggled();
    assert(a1 == ActionModel::Update(flipped));
    m.lemma_update_at(k, flipped);
    let m1 = store_effect(m, a1);
    let (s2, a2) = next(s1, EventModel::StoreDone);
    let (s3, a3) = next(s2, EventModel::Chosen(s.cursor));
    assert(s3.selected() == flipped);
    let (s4, a4) = next(s3, EventModel::Chosen(0));
    assert(flipped.toggled() == s.selected());
    assert(a4 == ActionModel::Update(s.selected()));
    m1.lemma_update_at(k, s.selected());
    assert(m1.rows.update(k, s.selected()) =~= m.rows);
}

/// After deleting an identifier the store lists no record with it, and keeps
/// every other record; deleting an identifier that is not there changes nothing.
pub proof fn delete_removes_only_that_id(m: StoreModel, id: u32)
    requires
        m.wf(),
    ensures
        forall|k: int|
            0 <= k < m.delete(id).list_all().len() ==> #[trigger] m.delete(id).list_all()[k].id
                != id,
        forall|k: int|
            0 <= k < m.rows.len() && m.rows[k].id != id ==> m.delete(id).list_all().contains(
                #[trigger] m.rows[k],
            ),
        !m.contains_id(id) ==> m.delete(id) == m,
{
    broadcast use vstd::seq_lib::group_filter_ensures;
    assert forall|k: int| 0 <= k < m.delete(id).list_all().len() implies #[trigger] m.delete(
        id,
    ).list_all()[k].id != id by {
        assert(other_than(id)(m.rows.filter(other_than(id))[k]));
    }
    assert forall|k: int| 0 <= k < m.rows.len() && m.rows[k].id != id implies m.delete(
        id,
    ).list_all().contains(#[trigger] m.rows[k]) by {
        assert(other_than(id)(m.rows[k]));
    }
    if !m.contains_id(id) {
        assert forall|k: int| 0 <= k < m.rows.len() implies other_than(id)(#[trigger] m.rows[k]) by {
            assert(m.rows[k].id != id);
        }
        lemma_filter_keeps_all(m.rows, other_than(id));
    }
}

/// Editing the selected todo: a cancel sends nothing to the store and keeps the
/// cached list; a confirmed text is written to the store, where the next listing
/// shows it.
pub proof fn edit_cancel_or_confirm(s: SessionModel, m: StoreModel, k: int, text: Seq<char>)
    requires
        s.wf(),
        s.phase == Phase::EditingText,
        m.wf(),
        0 <= k < m.rows.len(),
        m.rows[k] == s.selected(),
    ensures
        ({
            let (c, ca) = next(s, EventModel::Cancelled);
            &&& store_effect(m, ca) == m
            &&& c.todos == s.todos
            &&& c.phase == Phase::ChoosingTodo
        }),
        ({
            let (e, ea) = next(s, EventModel::Entered(text));
            let listed = store_effect(m, ea).list_all();
            &&& listed == m.list_all().update(k, s.selected().with_text(text))
            &&& listed[k].text == text
            &&& e.todos[s.cursor].text == text
        }),
{
    m.lemma_update_at(k, s.selected().with_text(text));
}

/// Inserts each text in turn.
pub open spec fn insert_all(m: StoreModel, texts: Seq<Seq<char>>) -> StoreModel
    decreases texts.len(),
{
    if texts.len() == 0 {
        m
    } else {
        insert_all(m, texts.drop_last()).insert(texts.last())
    }
}

/// After inserting N texts into an empty store, it lists exactly N records, in
/// insertion order, with strictly ascending (hence distinct) identifiers.
pub proof fn inserts_list_in_order(texts: Seq<Seq<char>>)
    requires
        texts.len() <= u32::MAX,
    ensures
        ({
            let m = insert_all(StoreModel::empty(), texts);
            &&& m.wf()
            &&& m.list_all().len() == texts.len()
            &&& ascending_ids(m.list_all())
            &&& forall|k: int|
                0 <= k < texts.len() ==> (#[trigger] m.list_all()[k]).text == texts[k]
                    && !m.list_all()[k].is_completed
        }),
    decreases texts.len(),
{
    let m = insert_all(StoreModel::empty(), texts);
    if texts.len() > 0 {
        let init = texts.drop_last();
        inserts_list_in_order(init);
        let p = insert_all(StoreModel::empty(), init);
        lemma_next_id_counts(init);
        p.lemma_insert_wf(texts.last());
        assert forall|k: int| 0 <= k < texts.len() implies (#[trigger] m.list_all()[k]).text
            == texts[k] && !m.list_all()[k].is_completed by {
            if k < init.len() {
                assert(m.list_all()[k] == p.list_all()[k]);
                assert(init[k] == texts[k]);
            }
        }
    } else {
        assert(ascending_ids(m.list_all()));
    }
}

/// The next identifier after N insertions into an empty store is N + 1.
proof fn lemma_next_id_counts(texts: Seq<Seq<char>>)
    ensures
        insert_all(StoreModel::empty(), texts).next_id == texts.len() + 1,
    decreases texts.len(),
{
    if texts.len() > 0 {
        lemma_next_id_counts(texts.drop_last());
    }
}

/// While the cached list matches the store, an operation on the selected todo,
/// once the store has carried it out, leaves the cached list matching the store
/// again: changes made in place to the cache and the store agree. (A deletion
/// reaches the cache only once the store reports it done.)
pub proof fn cache_stays_in_sync(s: SessionModel, m: StoreModel, e: EventModel)
    requires
        s.wf(),
        m.wf(),
        s.phase == Phase::ChoosingOperation || s.phase == Phase::EditingText,
        s.todos == m.list_all(),
    ensures
        ({
            let (s1, a1) = next(s, e);
            let m1 = store_effect(m, a1);
            let (s2, a2) = next(s1, EventModel::StoreDone);
            &&& (s1.phase == Phase::SavingChange || s1.phase == Phase::Deleting) ==> {
                &&& s2.phase == Phase::ChoosingTodo
                &&& s2.todos == m1.list_all()
            }
            &&& s1.phase != Phase::Finished && s1.phase != Phase::Deleting ==> s1.todos
                == m1.list_all()
        }),
{
    let (s1, a1) = next(s, e);
    let k = s.cursor;
    if s1.phase == Phase::SavingChange {
        let row = s1.todos[k];
        assert(a1 == ActionModel::Update(row));
        m.lemma_update_at(k, row);
    } else if s1.phase == Phase::Deleting {
        m.lemma_delete_at(k);
    }
}

} // verus!
