//! The users table as a mathematical object: a sequence of rows in the
//! order in which they were inserted, and what each kind of statement
//! selects from it or makes of it.

use crate::models::UserView;
use vstd::prelude::*;

verus! {

/// The rows whose id is `id`, in table order.
pub open spec fn rows_with_id(rows: Seq<UserView>, id: Seq<char>) -> Seq<UserView> {
    rows.filter(|row: UserView| row.id == id)
}

/// The rows whose username is `username`, in table order.
pub open spec fn rows_with_username(rows: Seq<UserView>, username: Seq<char>) -> Seq<UserView> {
    rows.filter(|row: UserView| row.username == username)
}

/// The table after every row with the id `id` took the name `username`.
pub open spec fn rows_renamed(rows: Seq<UserView>, id: Seq<char>, username: Seq<char>) -> Seq<
    UserView,
> {
    rows.map_values(
        |row: UserView|
            if row.id == id {
                UserView { id, username }
            } else {
                row
            },
    )
}

/// The table after every row with the id `id` was deleted.
pub open spec fn rows_without_id(rows: Seq<UserView>, id: Seq<char>) -> Seq<UserView> {
    rows.filter(|row: UserView| row.id != id)
}

/// Whether some row has the id `id`.
pub open spec fn has_id(rows: Seq<UserView>, id: Seq<char>) -> bool {
    exists|i: int| 0 <= i < rows.len() && (#[trigger] rows[i]).id == id
}

/// The primary key: no two rows share an id.
pub open spec fn unique_ids(rows: Seq<UserView>) -> bool {
    forall|i: int, j: int|
        0 <= i < j < rows.len() ==> (#[trigger] rows[i]).id != (#[trigger] rows[j]).id
}

/// The first of `rows`, if there is one.
pub open spec fn first_row(rows: Seq<UserView>) -> Option<UserView> {
    if rows.len() > 0 {
        Some(rows[0])
    } else {
        None
    }
}

/// The user stored under `id`, if any.
pub open spec fn user_with_id(rows: Seq<UserView>, id: Seq<char>) -> Option<UserView> {
    first_row(rows_with_id(rows, id))
}

/// The first user named `username`, if any.
pub open spec fn user_with_username(rows: Seq<UserView>, username: Seq<char>) -> Option<
    UserView,
> {
    first_row(rows_with_username(rows, username))
}

/// A row has the id `id` exactly when selecting by that id yields something.
pub proof fn lemma_has_id_selects(rows: Seq<UserView>, id: Seq<char>)
    ensures
        has_id(rows, id) <==> rows_with_id(rows, id).len() > 0,
        has_id(rows, id) <==> user_with_id(rows, id) is Some,
        user_with_id(rows, id) matches Some(user) ==> user.id == id && rows.contains(user),
{
    let pred = |row: UserView| row.id == id;
    let found = rows.filter(pred);
    broadcast use {Seq::lemma_filter_pred, Seq::lemma_filter_contains};
    if has_id(rows, id) {
        let i = choose|i: int| 0 <= i < rows.len() && (#[trigger] rows[i]).id == id;
        assert(pred(rows[i]));
        assert(found.contains(rows[i]));
    }
    if found.len() > 0 {
        assert(pred(found[0]));
        assert(found.contains(found[0]));
        rows.lemma_filter_contains_rev(pred, found[0]);
        let i = choose|i: int| 0 <= i < rows.len() && rows[i] == found[0];
        assert(rows[i].id == id);
    }
}

/// With unique ids, a row of the table is the one that its id selects.
pub proof fn lemma_unique_id_selects_row(rows: Seq<UserView>, i: int)
    requires
        unique_ids(rows),
        0 <= i < rows.len(),
    ensures
        rows_with_id(rows, rows[i].id) == seq![rows[i]],
        user_with_id(rows, rows[i].id) == Some(rows[i]),
    decreases rows.len(),
{
    let id = rows[i].id;
    let pred = |row: UserView| row.id == id;
    let front = rows.drop_last();
    assert(rows =~= front.push(rows.last()));
    front.lemma_filter_push(rows.last(), pred);
    if i == rows.len() - 1 {
        lemma_absent_id_selects_nothing(front, id);
        assert(rows.filter(pred) =~= seq![rows[i]]);
    } else {
        assert(front[i] == rows[i]);
        lemma_unique_id_selects_row(front, i);
        assert(!pred(rows.last()));
    }
}

/// Selecting by an id that no row has yields nothing.
pub proof fn lemma_absent_id_selects_nothing(rows: Seq<UserView>, id: Seq<char>)
    requires
        forall|i: int| 0 <= i < rows.len() ==> (#[trigger] rows[i]).id != id,
    ensures
        rows_with_id(rows, id) == Seq::<UserView>::empty(),
        rows_without_id(rows, id) == rows,
    decreases rows.len(),
{
    let same = |row: UserView| row.id == id;
    let other = |row: UserView| row.id != id;
    if rows.len() == 0 {
        reveal(Seq::filter);
        assert(rows.filter(same) =~= Seq::<UserView>::empty());
        assert(rows.filter(other) =~= rows);
    } else {
        let front = rows.drop_last();
        assert(rows =~= front.push(rows.last()));
        front.lemma_filter_push(rows.last(), same);
        front.lemma_filter_push(rows.last(), other);
        assert forall|i: int| 0 <= i < front.len() implies (#[trigger] front[i]).id != id by {
            assert(front[i] == rows[i]);
        }
        lemma_absent_id_selects_nothing(front, id);
        assert(!same(rows.last()));
        assert(other(rows.last()));
    }
}

/// What selecting by id yields once one more row stands at the table's end.
pub proof fn lemma_rows_with_id_push(rows: Seq<UserView>, row: UserView, id: Seq<char>)
    ensures
        rows_with_id(rows.push(row), id) == if row.id == id {
            rows_with_id(rows, id).push(row)
        } else {
            rows_with_id(rows, id)
        },
        rows_without_id(rows.push(row), id) == if row.id != id {
            rows_without_id(rows, id).push(row)
        } else {
            rows_without_id(rows, id)
        },
{
    rows.lemma_filter_push(row, |row: UserView| row.id == id);
    rows.lemma_filter_push(row, |row: UserView| row.id != id);
}

/// What selecting by username yields once one more row stands at the
/// table's end.
pub proof fn lemma_rows_with_username_push(
    rows: Seq<UserView>,
    row: UserView,
    username: Seq<char>,
)
    ensures
        rows_with_username(rows.push(row), username) == if row.username == username {
            rows_with_username(rows, username).push(row)
        } else {
            rows_with_username(rows, username)
        },
{
    rows.lemma_filter_push(row, |row: UserView| row.username == username);
}

/// Nothing is selected from an empty table, and nothing is left to delete.
pub proof fn lemma_rows_of_empty(id: Seq<char>, username: Seq<char>)
    ensures
        rows_with_id(Seq::empty(), id) == Seq::<UserView>::empty(),
        rows_without_id(Seq::empty(), id) == Seq::<UserView>::empty(),
        rows_with_username(Seq::empty(), username) == Seq::<UserView>::empty(),
{
    reveal(Seq::filter);
}

/// Deleting by id leaves exactly the rows with another id, and keeps the
/// primary key.
pub proof fn lemma_rows_without_id(rows: Seq<UserView>, id: Seq<char>)
    ensures
        !has_id(rows_without_id(rows, id), id),
        forall|k: int|
            0 <= k < rows_without_id(rows, id).len() ==> rows.contains(
                #[trigger] rows_without_id(rows, id)[k],
            ),
        forall|i: int|
            0 <= i < rows.len() && rows[i].id != id ==> rows_without_id(rows, id).contains(
                #[trigger] rows[i],
            ),
        unique_ids(rows) ==> unique_ids(rows_without_id(rows, id)),
    decreases rows.len(),
{
    let kept = rows_without_id(rows, id);
    if rows.len() == 0 {
        lemma_rows_of_empty(id, id);
    } else {
        let front = rows.drop_last();
        let last = rows.last();
        let front_kept = rows_without_id(front, id);
        assert(rows =~= front.push(last));
        lemma_rows_with_id_push(front, last, id);
        lemma_rows_without_id(front, id);
        assert forall|k: int| 0 <= k < kept.len() implies rows.contains(#[trigger] kept[k]) by {
            if k < front_kept.len() {
                assert(kept[k] == front_kept[k]);
                assert(front.contains(front_kept[k]));
                let i = choose|i: int| 0 <= i < front.len() && front[i] == front_kept[k];
                assert(rows[i] == kept[k]);
            } else {
                assert(kept[k] == last);
                assert(rows[rows.len() - 1] == last);
            }
        }
        assert forall|i: int| 0 <= i < rows.len() && rows[i].id != id implies kept.contains(
            #[trigger] rows[i],
        ) by {
            if i < front.len() {
                assert(front[i] == rows[i]);
                assert(front_kept.contains(front[i]));
                let k = choose|k: int| 0 <= k < front_kept.len() && front_kept[k] == front[i];
                assert(kept[k] == rows[i]);
            } else {
                assert(kept[kept.len() - 1] == rows[i]);
            }
        }
        if has_id(kept, id) {
            let k = choose|k: int| 0 <= k < kept.len() && (#[trigger] kept[k]).id == id;
            if k < front_kept.len() {
                assert(front_kept[k].id == id);
            }
            assert(false);
        }
        if unique_ids(rows) {
            assert forall|a: int, b: int| 0 <= a < b < front.len() implies (#[trigger] front[a]).id
                != (#[trigger] front[b]).id by {
                assert(front[a] == rows[a] && front[b] == rows[b]);
            }
            assert forall|a: int, b: int| 0 <= a < b < kept.len() implies (#[trigger] kept[a]).id
                != (#[trigger] kept[b]).id by {
                if b < front_kept.len() {
                    assert(kept[a] == front_kept[a] && kept[b] == front_kept[b]);
                } else {
                    assert(kept[b] == last);
                    assert(kept[a] == front_kept[a]);
                    assert(front.contains(front_kept[a]));
                    let i = choose|i: int| 0 <= i < front.len() && front[i] == front_kept[a];
                    assert(rows[i] == kept[a]);
                    assert(rows[rows.len() - 1] == last);
                }
            }
        }
    }
}

/// The first user of a name is a row of the table and has that name; and
/// where there is none, no row has the name.
pub proof fn lemma_username_selects(rows: Seq<UserView>, username: Seq<char>)
    ensures
        match user_with_username(rows, username) {
            Some(user) => user.username == username && rows.contains(user),
            None => rows_with_username(rows, username) == Seq::<UserView>::empty()
                && forall|i: int| 0 <= i < rows.len() ==> (#[trigger] rows[i]).username != username,
        },
{
    let pred = |row: UserView| row.username == username;
    let found = rows.filter(pred);
    broadcast use {Seq::lemma_filter_pred, Seq::lemma_filter_contains};
    if found.len() > 0 {
        assert(pred(found[0]));
        assert(found.contains(found[0]));
        rows.lemma_filter_contains_rev(pred, found[0]);
    } else {
        assert(found =~= Seq::<UserView>::empty());
        assert forall|i: int| 0 <= i < rows.len() implies (#[trigger] rows[i]).username
            != username by {
            if rows[i].username == username {
                assert(pred(rows[i]));
                assert(found.contains(rows[i]));
            }
        }
    }
}

/// After a rename, the id selects rows that all are the renamed user, and
/// selects some if it did before.
pub proof fn lemma_renamed_user_is_selected(
    rows: Seq<UserView>,
    id: Seq<char>,
    username: Seq<char>,
)
    requires
        has_id(rows, id),
    ensures
        user_with_id(rows_renamed(rows, id, username), id) == Some(UserView { id, username }),
{
    let renamed = rows_renamed(rows, id, username);
    let pred = |row: UserView| row.id == id;
    let found = renamed.filter(pred);
    broadcast use {Seq::lemma_filter_pred, Seq::lemma_filter_contains};
    let i = choose|i: int| 0 <= i < rows.len() && (#[trigger] rows[i]).id == id;
    assert(renamed[i] == UserView { id, username });
    assert(pred(renamed[i]));
    assert(found.contains(renamed[i]));
    assert(pred(found[0]));
    assert(found.contains(found[0]));
    renamed.lemma_filter_contains_rev(pred, found[0]);
    let k = choose|k: int| 0 <= k < renamed.len() && renamed[k] == found[0];
    assert(renamed[k].id == id);
    if rows[k].id != id {
        assert(renamed[k] == rows[k]);
    }
}

/// A rename changes no id and no row's place, so it keeps the primary key.
pub proof fn lemma_renamed_keeps_ids(
    rows: Seq<UserView>,
    id: Seq<char>,
    username: Seq<char>,
)
    ensures
        rows_renamed(rows, id, username).len() == rows.len(),
        forall|i: int|
            0 <= i < rows.len() ==> (#[trigger] rows_renamed(rows, id, username)[i]).id
                == rows[i].id,
        forall|i: int|
            0 <= i < rows.len() && rows[i].id != id ==> (#[trigger] rows_renamed(
                rows,
                id,
                username,
            )[i]) == rows[i],
        unique_ids(rows) ==> unique_ids(rows_renamed(rows, id, username)),
{
    let renamed = rows_renamed(rows, id, username);
    if unique_ids(rows) {
        assert forall|a: int, b: int| 0 <= a < b < renamed.len() implies (#[trigger] renamed[a]).id
            != (#[trigger] renamed[b]).id by {
            assert(renamed[a].id == rows[a].id && renamed[b].id == rows[b].id);
        }
    }
}

/// Renaming or deleting the rows of one id changes nothing in what
/// another id selects.
pub proof fn lemma_other_id_selects_same(
    rows: Seq<UserView>,
    id: Seq<char>,
    username: Seq<char>,
    other: Seq<char>,
)
    requires
        other != id,
    ensures
        rows_with_id(rows_renamed(rows, id, username), other) == rows_with_id(rows, other),
        rows_with_id(rows_without_id(rows, id), other) == rows_with_id(rows, other),
    decreases rows.len(),
{
    if rows.len() == 0 {
        lemma_rows_of_empty(id, id);
        assert(rows_renamed(rows, id, username) =~= rows);
        assert(rows =~= Seq::<UserView>::empty());
    } else {
        let front = rows.drop_last();
        let last = rows.last();
        assert(rows =~= front.push(last));
        lemma_other_id_selects_same(front, id, username, other);
        lemma_rows_with_id_push(front, last, id);
        lemma_rows_with_id_push(front, last, other);

        let renamed_last = rows_renamed(rows, id, username).last();
        assert(rows_renamed(rows, id, username) =~= rows_renamed(front, id, username).push(
            renamed_last,
        ));
        lemma_rows_with_id_push(rows_renamed(front, id, username), renamed_last, other);

        if last.id != id {
            lemma_rows_with_id_push(rows_without_id(front, id), last, other);
        }
    }
}

} // verus!
