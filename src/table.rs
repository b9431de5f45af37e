//! A mathematical model of the `animes` table and of the statements the
//! routes run against it, and the laws the service keeps over that model.
use vstd::prelude::*;
use crate::handler::{delete_code, fetch_code, merged_description, merged_title, DbError};
use crate::model::{AnimeModel, AnimeRow, text_or_empty};

verus! {

/// Ids compare by their characters' code points, shorter first on a tie.
pub open spec fn id_less(a: Seq<char>, b: Seq<char>) -> bool
    decreases a.len(),
{
    if b.len() == 0 {
        false
    } else if a.len() == 0 {
        true
    } else if a[0] != b[0] {
        (a[0] as u32) < (b[0] as u32)
    } else {
        id_less(a.drop_first(), b.drop_first())
    }
}

/// The rows of the table in ascending id order, with ids and titles unique.
pub open spec fn table_wf(t: Seq<AnimeRow>) -> bool {
    &&& forall|i: int, j: int| 0 <= i < j < t.len() ==> id_less(#[trigger] t[i].id, #[trigger] t[j].id)
    &&& forall|i: int, j: int| 0 <= i < t.len() && 0 <= j < t.len() && i != j ==> #[trigger] t[i].id != #[trigger] t[j].id
    &&& forall|i: int, j: int| 0 <= i < t.len() && 0 <= j < t.len() && i != j ==> #[trigger] t[i].title != #[trigger] t[j].title
}

pub open spec fn has_id(t: Seq<AnimeRow>, id: Seq<char>) -> bool {
    exists|i: int| 0 <= i < t.len() && #[trigger] t[i].id == id
}

pub open spec fn has_title(t: Seq<AnimeRow>, title: Seq<char>) -> bool {
    exists|i: int| 0 <= i < t.len() && #[trigger] t[i].title == title
}

/// Another row than the one with `id` already holds `title`.
pub open spec fn title_taken_by_other(t: Seq<AnimeRow>, id: Seq<char>, title: Seq<char>) -> bool {
    exists|i: int| 0 <= i < t.len() && t[i].id != id && #[trigger] t[i].title == title
}

/// The position of the row with `id`, where there is one.
pub open spec fn index_of_id(t: Seq<AnimeRow>, id: Seq<char>) -> int {
    choose|i: int| 0 <= i < t.len() && #[trigger] t[i].id == id
}

/// `SELECT * FROM animes WHERE id = ?`
pub open spec fn select_by_id(t: Seq<AnimeRow>, id: Seq<char>) -> Option<AnimeRow> {
    if has_id(t, id) {
        Some(t[index_of_id(t, id)])
    } else {
        None
    }
}

/// `SELECT * FROM animes ORDER BY id LIMIT ? OFFSET ?`
pub open spec fn select_page(t: Seq<AnimeRow>, limit: int, offset: int) -> Seq<AnimeRow> {
    if offset >= t.len() {
        Seq::empty()
    } else if offset + limit >= t.len() {
        t.subrange(offset, t.len() as int)
    } else {
        t.subrange(offset, offset + limit)
    }
}

/// Where a row with `id` goes: after every row with a smaller id.
pub open spec fn insert_position(t: Seq<AnimeRow>, id: Seq<char>) -> int
    decreases t.len(),
{
    if t.len() == 0 {
        0
    } else {
        insert_position(t.drop_last(), id) + if id_less(t.last().id, id) { 1int } else { 0int }
    }
}

/// `INSERT INTO animes (id, title, description)`, with both timestamps set
/// to `now`; `None` where a unique key is violated.
pub open spec fn insert_row(
    t: Seq<AnimeRow>,
    id: Seq<char>,
    title: Seq<char>,
    description: Seq<char>,
    now: i64,
) -> Option<Seq<AnimeRow>> {
    if has_id(t, id) || has_title(t, title) {
        None
    } else {
        Some(
            t.insert(
                insert_position(t, id),
                AnimeRow {
                    id,
                    title,
                    description: Some(description),
                    created_at: Some(now),
                    updated_at: Some(now),
                },
            ),
        )
    }
}

/// `UPDATE animes SET title = ?, description = ?, updated_at = now WHERE id = ?`:
/// the new table and the count of rows changed; `None` where the title is
/// held by another row.
pub open spec fn update_row(
    t: Seq<AnimeRow>,
    id: Seq<char>,
    title: Seq<char>,
    description: Seq<char>,
    now: i64,
) -> Option<(Seq<AnimeRow>, nat)> {
    if !has_id(t, id) {
        Some((t, 0))
    } else if title_taken_by_other(t, id, title) {
        None
    } else {
        let i = index_of_id(t, id);
        Some(
            (
                t.update(
                    i,
                    AnimeRow { title, description: Some(description), updated_at: Some(now), ..t[i] },
                ),
                1,
            ),
        )
    }
}

/// `DELETE FROM animes WHERE id = ?`: the new table and the count of rows
/// removed.
pub open spec fn delete_row(t: Seq<AnimeRow>, id: Seq<char>) -> (Seq<AnimeRow>, nat) {
    if has_id(t, id) {
        (t.remove(index_of_id(t, id)), 1)
    } else {
        (t, 0)
    }
}

/// Storage answered a lookup as the model says: the row, or no row.
pub open spec fn answers_lookup(row: Option<AnimeRow>, fetched: Result<AnimeModel, DbError>) -> bool {
    match row {
        Some(r) => fetched matches Ok(a) && a@ == r,
        None => fetched matches Err(DbError::RowNotFound),
    }
}

proof fn lemma_insert_position_bounds(t: Seq<AnimeRow>, id: Seq<char>)
    ensures
        0 <= insert_position(t, id) <= t.len(),
    decreases t.len(),
{
    if t.len() > 0 {
        lemma_insert_position_bounds(t.drop_last(), id);
    }
}

/// A creation under an unused id and an unused title succeeds; the record
/// read back under that id holds the given title and description; and a
/// second creation with the same title is refused, whatever its id.
pub proof fn lemma_create_then_duplicate(
    t: Seq<AnimeRow>,
    id: Seq<char>,
    title: Seq<char>,
    description: Seq<char>,
    now: i64,
    other_id: Seq<char>,
    other_description: Seq<char>,
    later: i64,
)
    requires
        table_wf(t),
        !has_id(t, id),
        !has_title(t, title),
    ensures
        insert_row(t, id, title, description, now) is Some,
        ({
            let t1 = insert_row(t, id, title, description, now).unwrap();
            &&& select_by_id(t1, id) matches Some(r) && r.title == title && r.description == Some(description)
            &&& insert_row(t1, other_id, title, other_description, later) is None
        }),
{
    lemma_insert_position_bounds(t, id);
    let p = insert_position(t, id);
    let t1 = insert_row(t, id, title, description, now).unwrap();
    assert(t1[p].id == id);
    assert(has_id(t1, id));
    let i = index_of_id(t1, id);
    if i != p {
        if i < p {
            assert(t1[i] == t[i]);
        } else {
            assert(t1[i] == t[i - 1]);
        }
    }
    assert(t1[p].title == title);
    assert(has_title(t1, title));
}

/// A lookup of an id that no row holds finds nothing, however many rows the
/// table holds, and is answered with not found.
pub proof fn lemma_missing_id_not_found(t: Seq<AnimeRow>, id: Seq<char>, fetched: Result<AnimeModel, DbError>)
    requires
        !has_id(t, id),
        answers_lookup(select_by_id(t, id), fetched),
    ensures
        select_by_id(t, id) is None,
        fetch_code(fetched) == 404,
{
}

/// A page holds `limit` rows from `offset` on, as many as there are, in
/// ascending id order.
pub proof fn lemma_page_in_id_order(t: Seq<AnimeRow>, limit: int, offset: int)
    requires
        table_wf(t),
        0 <= limit,
        0 <= offset,
    ensures
        select_page(t, limit, offset).len() == if offset >= t.len() {
            0
        } else if offset + limit >= t.len() {
            t.len() - offset
        } else {
            limit
        },
        forall|i: int| 0 <= i < select_page(t, limit, offset).len() ==> #[trigger] select_page(t, limit, offset)[i] == t[offset + i],
        forall|i: int, j: int|
            0 <= i < j < select_page(t, limit, offset).len() ==> id_less(
                #[trigger] select_page(t, limit, offset)[i].id,
                #[trigger] select_page(t, limit, offset)[j].id,
            ),
{
    let s = select_page(t, limit, offset);
    assert forall|i: int, j: int| 0 <= i < j < s.len() implies id_less(#[trigger] s[i].id, #[trigger] s[j].id) by {
        assert(s[i] == t[offset + i]);
        assert(s[j] == t[offset + j]);
    }
}

/// A partial update changes only what it is given: without a title the
/// title stays, without a description the description's text stays, and in
/// every case the update time becomes `now`.
pub proof fn lemma_partial_update(
    t: Seq<AnimeRow>,
    id: Seq<char>,
    new_title: Option<Seq<char>>,
    new_description: Option<Seq<char>>,
    now: i64,
)
    requires
        table_wf(t),
        has_id(t, id),
        new_title matches Some(nt) ==> !title_taken_by_other(t, id, nt),
    ensures
        ({
            let old_row = select_by_id(t, id).unwrap();
            let title = merged_title(old_row, new_title);
            let description = merged_description(old_row, new_description);
            &&& update_row(t, id, title, description, now) matches Some((t1, n)) && {
                &&& n == 1
                &&& select_by_id(t1, id) matches Some(r) && {
                    &&& r.title == title
                    &&& text_or_empty(r.description) == description
                    &&& r.updated_at == Some(now)
                    &&& old_row.updated_at matches Some(u) ==> (u < now ==> r.updated_at.unwrap() > u)
                    &&& r.created_at == old_row.created_at
                    &&& new_title is None ==> r.title == old_row.title
                    &&& new_description is None ==> text_or_empty(r.description) == text_or_empty(old_row.description)
                }
            }
        }),
{
    let i0 = index_of_id(t, id);
    let old_row = t[i0];
    let title = merged_title(old_row, new_title);
    let description = merged_description(old_row, new_description);
    if new_title is None {
        if title_taken_by_other(t, id, title) {
            let k = choose|k: int| 0 <= k < t.len() && t[k].id != id && #[trigger] t[k].title == title;
            assert(t[k].title == t[i0].title);
        }
    }
    assert(!title_taken_by_other(t, id, title));
    let t1 = update_row(t, id, title, description, now).unwrap().0;
    assert(t1[i0].id == id);
    assert(has_id(t1, id));
    let j = index_of_id(t1, id);
    if j != i0 {
        assert(t1[j] == t[j]);
    }
}

/// Deleting a stored id removes one row; deleting it again removes none.
/// The first is answered with no content, the second with not found.
pub proof fn lemma_delete_twice(t: Seq<AnimeRow>, id: Seq<char>)
    requires
        table_wf(t),
        has_id(t, id),
    ensures
        delete_row(t, id).1 == 1,
        delete_row(t, id).0.len() == t.len() - 1,
        !has_id(delete_row(t, id).0, id),
        forall|k: int| 0 <= k < delete_row(t, id).0.len() ==> #[trigger] delete_row(t, id).0[k].id != id,
        delete_row(delete_row(t, id).0, id).1 == 0,
        delete_code(delete_row(t, id).1 as u64) == 204,
        delete_code(delete_row(delete_row(t, id).0, id).1 as u64) == 404,
{
    let i0 = index_of_id(t, id);
    let t1 = delete_row(t, id).0;
    if has_id(t1, id) {
        let k = choose|k: int| 0 <= k < t1.len() && #[trigger] t1[k].id == id;
        if k < i0 {
            assert(t1[k] == t[k]);
        } else {
            assert(t1[k] == t[k + 1]);
        }
    }
}

} // verus!
