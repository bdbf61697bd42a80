//! What holds of the directory over more than one request: how the answers
//! of one request bear on the next.
//!
//! Every statement here is about the handlers' answers as functions of the
//! table ([`listing`], [`fetching`], [`creating`], [`updating`],
//! [`deleting`]), which are what the handlers' contracts promise.

use crate::controllers::user_controller::{creating, deleting, fetching, listing, updating};
use crate::database::{effect, valid_rows};
use crate::error::ErrorView;
use crate::models::UserView;
use crate::protocol::{OperationView, OutcomeView};
use crate::response::{BodyView, ResponseView, StatusCode};
use crate::table::{
    has_id, lemma_absent_id_selects_nothing, lemma_has_id_selects, lemma_other_id_selects_same,
    lemma_renamed_keeps_ids, lemma_renamed_user_is_selected, lemma_rows_with_id_push,
    lemma_rows_with_username_push, lemma_rows_without_id, lemma_unique_id_selects_row,
    lemma_username_selects, rows_with_username, rows_without_id, unique_ids, user_with_username,
};
use vstd::prelude::*;

verus! {

/// Round trip: the user that a create answers with, whether new or found,
/// is what fetching its id answers with right afterwards.
pub proof fn lemma_created_user_is_fetched(
    rows: Seq<UserView>,
    username: Seq<char>,
    id: Seq<char>,
)
    requires
        valid_rows(rows),
    ensures
        creating(rows, username, id).0 matches Ok(response) ==> {
            &&& response.body matches BodyView::User(user)
            &&& fetching(creating(rows, username, id).1, user.id) == ResponseView::user(
                StatusCode::Okay,
                user,
            )
        },
{
    lemma_username_selects(rows, username);
    match user_with_username(rows, username) {
        Some(existing) => {
            let i = choose|i: int| 0 <= i < rows.len() && rows[i] == existing;
            lemma_unique_id_selects_row(rows, i);
        },
        None => {
            if !has_id(rows, id) {
                let user = UserView { id, username };
                lemma_absent_id_selects_nothing(rows, id);
                lemma_rows_with_id_push(rows, user, id);
            }
        },
    }
}

/// Create is idempotent by username: a second create of the same name
/// stores nothing and answers 200 with the user that the first one
/// answered with, so with the same id. Where the first create stored the
/// user, the statuses are 201 and then 200.
pub proof fn lemma_create_twice_yields_same_user(
    rows: Seq<UserView>,
    username: Seq<char>,
    first_id: Seq<char>,
    second_id: Seq<char>,
)
    ensures
        creating(rows, username, first_id).0 matches Ok(first) ==> {
            let stored = creating(rows, username, first_id).1;
            &&& first.status == StatusCode::Okay || first.status == StatusCode::Created
            &&& creating(stored, username, second_id) == (
                Ok::<ResponseView, ErrorView>(
                    ResponseView { status: StatusCode::Okay, body: first.body },
                ),
                stored,
            )
        },
        user_with_username(rows, username) is None && !has_id(rows, first_id) ==> {
            &&& creating(rows, username, first_id).0 matches Ok(first)
            &&& first.status == StatusCode::Created
        },
{
    lemma_username_selects(rows, username);
    if user_with_username(rows, username) is None && !has_id(rows, first_id) {
        let user = UserView { id: first_id, username };
        lemma_rows_with_username_push(rows, user, username);
    }
}

/// An update of an existing user answers 200 with the user as sent, id and
/// name, and fetching the id afterwards answers with the same. Users with
/// another id stay as they were, each in its place.
pub proof fn lemma_updated_user_is_fetched(rows: Seq<UserView>, user: UserView)
    requires
        has_id(rows, user.id),
    ensures
        updating(rows, user.id, user).0 == ResponseView::user(StatusCode::Okay, user),
        fetching(updating(rows, user.id, user).1, user.id) == ResponseView::user(
            StatusCode::Okay,
            user,
        ),
        updating(rows, user.id, user).1.len() == rows.len(),
        forall|i: int|
            0 <= i < rows.len() && rows[i].id != user.id ==> (#[trigger] updating(
                rows,
                user.id,
                user,
            ).1[i]) == rows[i],
        valid_rows(rows) ==> valid_rows(updating(rows, user.id, user).1),
{
    lemma_renamed_user_is_selected(rows, user.id, user.username);
    lemma_renamed_keeps_ids(rows, user.id, user.username);
}

/// An update whose path id is not the id in its body answers 400 and
/// leaves the table as it is, whichever of the two ids exist.
pub proof fn lemma_mismatched_update_is_rejected(
    rows: Seq<UserView>,
    user_id: Seq<char>,
    user: UserView,
)
    requires
        user_id != user.id,
    ensures
        updating(rows, user_id, user) == (ResponseView::empty(StatusCode::BadRequest), rows),
{
}

/// Delete is final: once a delete has answered 204, fetching the id
/// answers 404, and so does a second delete, which changes nothing.
pub proof fn lemma_deleted_user_is_gone(rows: Seq<UserView>, user_id: Seq<char>)
    ensures
        deleting(rows, user_id).0.status == StatusCode::NoContent ==> {
            let left = deleting(rows, user_id).1;
            &&& fetching(left, user_id) == ResponseView::empty(StatusCode::NotFound)
            &&& deleting(left, user_id) == (ResponseView::empty(StatusCode::NotFound), left)
        },
{
    let left = rows_without_id(rows, user_id);
    lemma_rows_without_id(rows, user_id);
    lemma_has_id_selects(left, user_id);
}

/// On an id that no stored user has, fetching, updating (with that id in
/// path and body) and deleting all answer 404 and change nothing.
pub proof fn lemma_missing_user_is_not_found(
    rows: Seq<UserView>,
    user_id: Seq<char>,
    username: Seq<char>,
)
    requires
        !has_id(rows, user_id),
    ensures
        fetching(rows, user_id) == ResponseView::empty(StatusCode::NotFound),
        updating(rows, user_id, UserView { id: user_id, username }) == (
            ResponseView::empty(StatusCode::NotFound),
            rows,
        ),
        deleting(rows, user_id) == (ResponseView::empty(StatusCode::NotFound), rows),
{
    lemma_has_id_selects(rows, user_id);
}

/// The listing is the table: a create that stores a user adds that user
/// and nothing else, a create that finds one adds nothing, and a delete
/// leaves exactly the users with another id. Stated of the users as a
/// collection, whatever their order.
pub proof fn lemma_listing_follows_changes(
    rows: Seq<UserView>,
    username: Seq<char>,
    id: Seq<char>,
)
    requires
        valid_rows(rows),
    ensures
        listing(rows).body == BodyView::Users(rows),
        creating(rows, username, id).0 matches Ok(response) ==> {
            let stored = creating(rows, username, id).1;
            &&& response.body matches BodyView::User(user)
            &&& stored.to_multiset() == if response.status == StatusCode::Created {
                rows.to_multiset().insert(user)
            } else {
                rows.to_multiset()
            }
        },
        forall|user: UserView| #[trigger]
            deleting(rows, id).1.contains(user) <==> rows.contains(user) && user.id != id,
        unique_ids(deleting(rows, id).1),
{
    broadcast use vstd::seq_lib::to_multiset_build;
    lemma_rows_without_id(rows, id);
    let left = deleting(rows, id).1;
    assert forall|user: UserView| #[trigger]
        left.contains(user) <==> rows.contains(user) && user.id != id by {
        if has_id(rows, id) {
            if left.contains(user) {
                let k = choose|k: int| 0 <= k < left.len() && left[k] == user;
                assert(rows.contains(left[k]));
                if user.id == id {
                    assert(left[k].id == id);
                }
            }
            if rows.contains(user) && user.id != id {
                let i = choose|i: int| 0 <= i < rows.len() && rows[i] == user;
                assert(left.contains(rows[i]));
            }
        } else {
            if rows.contains(user) {
                let i = choose|i: int| 0 <= i < rows.len() && rows[i] == user;
                assert(rows[i].id != id);
            }
        }
    }
}

/// Each request touches one user only: what fetching an id answers is not
/// changed by an update or a delete of another id, nor by a create that
/// stores a user under another id.
pub proof fn lemma_other_users_are_untouched(
    rows: Seq<UserView>,
    user: UserView,
    other: Seq<char>,
)
    requires
        other != user.id,
    ensures
        fetching(updating(rows, user.id, user).1, other) == fetching(rows, other),
        fetching(deleting(rows, user.id).1, other) == fetching(rows, other),
        fetching(creating(rows, user.username, user.id).1, other) == fetching(rows, other),
{
    lemma_other_id_selects_same(rows, user.id, user.username, other);
    lemma_rows_with_id_push(rows, user, other);
}

/// The lookup and the insert of a create are two operations, and nothing
/// holds the table between them. Where two creates of one name both look
/// before either inserts, neither finds a user, both store one, and the
/// name is taken twice.
pub proof fn lemma_interleaved_creates_store_both(
    rows: Seq<UserView>,
    username: Seq<char>,
    first_id: Seq<char>,
    second_id: Seq<char>,
)
    requires
        user_with_username(rows, username) is None,
        !has_id(rows, first_id),
        !has_id(rows, second_id),
        first_id != second_id,
    ensures
        ({
            let first = UserView { id: first_id, username };
            let second = UserView { id: second_id, username };
            let lookup = OperationView::GetUserByUsername { username };
            let store_first = OperationView::CreateUser { id: first_id, username };
            let store_second = OperationView::CreateUser { id: second_id, username };
            &&& effect(rows, lookup) == (OutcomeView::Found(None), rows)
            &&& effect(rows, store_first) == (OutcomeView::Created(first), rows.push(first))
            &&& effect(rows.push(first), store_second) == (
                OutcomeView::Created(second),
                rows.push(first).push(second),
            )
            &&& rows_with_username(rows.push(first).push(second), username) == seq![first, second]
        }),
{
    let first = UserView { id: first_id, username };
    let second = UserView { id: second_id, username };
    lemma_username_selects(rows, username);
    lemma_rows_with_username_push(rows, first, username);
    lemma_rows_with_username_push(rows.push(first), second, username);
    assert(rows_with_username(rows.push(first).push(second), username) =~= seq![first, second]);
    if has_id(rows.push(first), second_id) {
        let i = choose|i: int|
            0 <= i < rows.push(first).len() && (#[trigger] rows.push(first)[i]).id == second_id;
        if i < rows.len() {
            assert(rows[i].id == second_id);
        }
    }
}

} // verus!
