use vstd::prelude::*;

use crate::error::FormError;
use crate::forms::{
    delete_error, fetch_error, insert_after_update, items_newest_first, kept_rows, later,
    lists_row, readable, rows_newest_first, FormListItem, RowView,
};

verus! {

/// What the `forms` table holds under one identifier.
pub ghost struct Stored {
    pub data: Seq<char>,
    pub updated_at: Seq<char>,
}

/// The `forms` table: its primary key maps each identifier to one row.
pub type Table = Map<Seq<char>, Stored>;

/// Rows touched by `UPDATE forms SET data, updated_at WHERE uuid = id`.
pub open spec fn update_count(t: Table, id: Seq<char>) -> nat {
    if t.contains_key(id) {
        1
    } else {
        0
    }
}

/// The table after `UPDATE forms SET data, updated_at WHERE uuid = id`.
pub open spec fn after_update(t: Table, id: Seq<char>, data: Seq<char>, now: Seq<char>) -> Table {
    if t.contains_key(id) {
        t.insert(id, Stored { data, updated_at: now })
    } else {
        t
    }
}

/// The table after `INSERT INTO forms`; `None` where the key is taken.
pub open spec fn after_insert(t: Table, id: Seq<char>, data: Seq<char>, now: Seq<char>) -> Option<
    Table,
> {
    if t.contains_key(id) {
        None
    } else {
        Some(t.insert(id, Stored { data, updated_at: now }))
    }
}

/// A save as it is carried out: the update, then the insert where the
/// update touched no row. `None` where a statement fails.
pub open spec fn after_save(t: Table, id: Seq<char>, data: Seq<char>, now: Seq<char>) -> Option<
    Table,
> {
    let u = after_update(t, id, data, now);
    if insert_after_update(update_count(t, id)) {
        after_insert(u, id, data, now)
    } else {
        Some(u)
    }
}

/// `SELECT data FROM forms WHERE uuid = id`.
pub open spec fn select_data(t: Table, id: Seq<char>) -> Option<Seq<char>> {
    if t.contains_key(id) {
        Some(t[id].data)
    } else {
        None
    }
}

/// Rows removed by `DELETE FROM forms WHERE uuid = id`.
pub open spec fn delete_count(t: Table, id: Seq<char>) -> nat {
    if t.contains_key(id) {
        1
    } else {
        0
    }
}

/// The table after `DELETE FROM forms WHERE uuid = id`.
pub open spec fn after_delete(t: Table, id: Seq<char>) -> Table {
    t.remove(id)
}

/// Whether `rows` is what the listing query returns on `t`: each row of the
/// table once, most recently updated first.
pub open spec fn is_listing(t: Table, rows: Seq<RowView>) -> bool {
    &&& rows_newest_first(rows)
    &&& forall|i: int|
        0 <= i < rows.len() ==> t.contains_key(#[trigger] rows[i].uuid) && t[rows[i].uuid]
            == (Stored { data: rows[i].data, updated_at: rows[i].updated_at })
    &&& forall|k: Seq<char>| t.contains_key(k) ==> exists|i: int| 0 <= i < rows.len() && #[trigger] rows[i].uuid == k
    &&& forall|i: int, j: int| 0 <= i < j < rows.len() ==> #[trigger] rows[i].uuid != #[trigger] rows[j].uuid
}

/// A save, update then insert, never runs into the primary key and leaves
/// exactly one row under the identifier, holding the new data and time.
pub proof fn lemma_save_upserts(t: Table, id: Seq<char>, data: Seq<char>, now: Seq<char>)
    ensures
        after_save(t, id, data, now) == Some(t.insert(id, Stored { data, updated_at: now })),
{
}

/// A saved form reads back with the text it was saved with, and that read
/// succeeds exactly where the text is JSON.
pub proof fn lemma_saved_form_reads_back(t: Table, id: Seq<char>, data: Seq<char>, now: Seq<char>)
    ensures
        after_save(t, id, data, now) is Some,
        select_data(after_save(t, id, data, now)->Some_0, id) == Some(data),
        fetch_error(select_data(after_save(t, id, data, now)->Some_0, id)) is None
            <==> crate::json::json_accepts(data),
{
    lemma_save_upserts(t, id, data, now);
}

/// Saving twice under one identifier leaves one row with the second data,
/// as if only the second save had happened.
pub proof fn lemma_save_twice(
    t: Table,
    id: Seq<char>,
    first: Seq<char>,
    first_now: Seq<char>,
    second: Seq<char>,
    second_now: Seq<char>,
)
    ensures
        ({
            let t1 = after_save(t, id, first, first_now)->Some_0;
            &&& after_save(t1, id, second, second_now) == after_save(t, id, second, second_now)
            &&& select_data(after_save(t1, id, second, second_now)->Some_0, id) == Some(second)
            &&& after_save(t1, id, second, second_now)->Some_0.dom() == t.dom().insert(id)
        }),
{
    lemma_save_upserts(t, id, first, first_now);
    let t1 = t.insert(id, Stored { data: first, updated_at: first_now });
    lemma_save_upserts(t1, id, second, second_now);
    lemma_save_upserts(t, id, second, second_now);
    assert(t1.insert(id, Stored { data: second, updated_at: second_now }) =~= t.insert(
        id,
        Stored { data: second, updated_at: second_now },
    ));
    assert(t.insert(id, Stored { data: second, updated_at: second_now }).dom() =~= t.dom().insert(
        id,
    ));
}

/// Once a form is deleted, fetching it is not found.
pub proof fn lemma_deleted_form_not_found(t: Table, id: Seq<char>)
    ensures
        fetch_error(select_data(after_delete(t, id), id)) == Some(FormError::FormNotFound),
{
}

/// Deleting an identifier that the table does not hold is not found, and
/// leaves the table as it was.
pub proof fn lemma_delete_unknown_not_found(t: Table, id: Seq<char>)
    requires
        !t.contains_key(id),
    ensures
        delete_error(delete_count(t, id)) == Some(FormError::FormNotFound),
        after_delete(t, id) == t,
{
    assert(t.remove(id) =~= t);
}

/// The rows kept by a listing come from the listed rows and are readable,
/// and every readable row is kept.
pub proof fn lemma_kept_rows(rows: Seq<RowView>)
    ensures
        forall|k: int|
            0 <= k < kept_rows(rows).len() ==> readable(#[trigger] kept_rows(rows)[k])
                && rows.contains(kept_rows(rows)[k]),
        forall|i: int| 0 <= i < rows.len() && readable(#[trigger] rows[i]) ==> kept_rows(rows).contains(rows[i]),
    decreases rows.len(),
{
    if rows.len() > 0 {
        let front = rows.drop_last();
        lemma_kept_rows(front);
        let kept = kept_rows(rows);
        assert forall|k: int| 0 <= k < kept.len() implies readable(#[trigger] kept[k]) && rows.contains(kept[k]) by {
            if k < kept_rows(front).len() {
                assert(kept[k] == kept_rows(front)[k]);
                let w = choose|w: int| 0 <= w < front.len() && front[w] == kept[k];
                assert(rows[w] == kept[k]);
            } else {
                assert(rows[rows.len() - 1] == kept[k]);
            }
        }
        assert forall|i: int| 0 <= i < rows.len() && readable(#[trigger] rows[i]) implies kept.contains(rows[i]) by {
            if i < front.len() {
                assert(front[i] == rows[i]);
                let w = choose|w: int| 0 <= w < kept_rows(front).len() && kept_rows(front)[w] == front[i];
                assert(kept[w] == rows[i]);
            } else {
                assert(kept[kept.len() - 1] == rows[i]);
            }
        }
    }
}

/// A listing leaves out a row whose text is not JSON: no listed form
/// carries its identifier.
pub proof fn lemma_unreadable_rows_left_out(rows: Seq<RowView>, items: Seq<FormListItem>, bad: int)
    requires
        forall|i: int, j: int| 0 <= i < j < rows.len() ==> #[trigger] rows[i].uuid != #[trigger] rows[j].uuid,
        0 <= bad < rows.len(),
        !readable(rows[bad]),
        items.len() == kept_rows(rows).len(),
        forall|k: int| 0 <= k < items.len() ==> lists_row(#[trigger] items[k], kept_rows(rows)[k]),
    ensures
        forall|k: int| 0 <= k < items.len() ==> (#[trigger] items[k]).uuid@ != rows[bad].uuid,
{
    lemma_kept_rows(rows);
    assert forall|k: int| 0 <= k < items.len() implies (#[trigger] items[k]).uuid@ != rows[bad].uuid by {
        assert(lists_row(items[k], kept_rows(rows)[k]));
        let w = choose|w: int| 0 <= w < rows.len() && rows[w] == kept_rows(rows)[k];
        if w < bad {
            assert(rows[w].uuid != rows[bad].uuid);
        } else if w > bad {
            assert(rows[bad].uuid != rows[w].uuid);
        }
    }
}

/// Saving A, then B, then A again at a later time than B lists A before B,
/// and both are listed where their data is JSON.
pub proof fn lemma_updated_form_listed_first(
    t: Table,
    a: Seq<char>,
    a_first: Seq<char>,
    a_first_now: Seq<char>,
    b: Seq<char>,
    b_data: Seq<char>,
    b_now: Seq<char>,
    a_second: Seq<char>,
    a_second_now: Seq<char>,
    rows: Seq<RowView>,
    items: Seq<FormListItem>,
)
    requires
        a != b,
        later(a_second_now, b_now),
        is_listing(
            after_save(
                after_save(after_save(t, a, a_first, a_first_now)->Some_0, b, b_data, b_now)->Some_0,
                a,
                a_second,
                a_second_now,
            )->Some_0,
            rows,
        ),
        items.len() == kept_rows(rows).len(),
        forall|k: int| 0 <= k < items.len() ==> lists_row(#[trigger] items[k], kept_rows(rows)[k]),
        rows_newest_first(rows) ==> items_newest_first(items),
    ensures
        forall|i: int, j: int|
            0 <= i < items.len() && 0 <= j < items.len() && (#[trigger] items[i]).uuid@ == a
                && (#[trigger] items[j]).uuid@ == b ==> i < j,
        crate::json::json_accepts(a_second) ==> exists|i: int|
            0 <= i < items.len() && (#[trigger] items[i]).uuid@ == a,
        crate::json::json_accepts(b_data) ==> exists|j: int|
            0 <= j < items.len() && (#[trigger] items[j]).uuid@ == b,
{
    lemma_save_upserts(t, a, a_first, a_first_now);
    let t1 = t.insert(a, Stored { data: a_first, updated_at: a_first_now });
    lemma_save_upserts(t1, b, b_data, b_now);
    let t2 = t1.insert(b, Stored { data: b_data, updated_at: b_now });
    lemma_save_upserts(t2, a, a_second, a_second_now);
    let t3 = t2.insert(a, Stored { data: a_second, updated_at: a_second_now });
    assert(t3[a] == Stored { data: a_second, updated_at: a_second_now });
    assert(t3[b] == Stored { data: b_data, updated_at: b_now });
    lemma_kept_rows(rows);
    let kept = kept_rows(rows);
    assert forall|i: int, j: int|
        0 <= i < items.len() && 0 <= j < items.len() && (#[trigger] items[i]).uuid@ == a
            && (#[trigger] items[j]).uuid@ == b implies i < j by {
        assert(lists_row(items[i], kept[i]));
        assert(lists_row(items[j], kept[j]));
        let wi = choose|w: int| 0 <= w < rows.len() && rows[w] == kept[i];
        let wj = choose|w: int| 0 <= w < rows.len() && rows[w] == kept[j];
        assert(t3.contains_key(rows[wi].uuid));
        assert(t3.contains_key(rows[wj].uuid));
        assert(items[i].updated_at@ == a_second_now);
        assert(items[j].updated_at@ == b_now);
        if j < i {
            assert(!later(items[i].updated_at@, items[j].updated_at@));
        }
    }
    if crate::json::json_accepts(a_second) {
        let w = choose|w: int| 0 <= w < rows.len() && #[trigger] rows[w].uuid == a;
        assert(t3.contains_key(rows[w].uuid));
        assert(readable(rows[w]));
        let k = choose|k: int| 0 <= k < kept.len() && kept[k] == rows[w];
        assert(lists_row(items[k], kept[k]));
    }
    if crate::json::json_accepts(b_data) {
        assert(t3.contains_key(b));
        let w = choose|w: int| 0 <= w < rows.len() && #[trigger] rows[w].uuid == b;
        assert(t3.contains_key(rows[w].uuid));
        assert(readable(rows[w]));
        let k = choose|k: int| 0 <= k < kept.len() && kept[k] == rows[w];
        assert(lists_row(items[k], kept[k]));
    }
}

} // verus!
