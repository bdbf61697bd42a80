//! The handlers of the users resource. Each one asks the record store for
//! one thing, or two, and maps what comes back to a response. A failure of
//! the store is never answered over: the handler returns it as it is.

use crate::engine::duplicate_id_cause;
use crate::error::{Error, ErrorView};
use crate::identifier::is_identifier;
use crate::models::{optional_view, views, State, User, UserNoId, UserView};
use crate::response::{Body, BodyView, Response, ResponseView, StatusCode};
use crate::table::{
    has_id, rows_renamed, rows_without_id, user_with_id, user_with_username,
};
use vstd::prelude::*;

verus! {

/// What a handler returned, as contracts see it.
pub open spec fn answer(result: Result<Response, Error>) -> Result<ResponseView, ErrorView> {
    match result {
        Ok(response) => Ok(response@),
        Err(error) => Err(error@),
    }
}

/// The response for a user that was looked up: the user, or not found.
pub open spec fn found_or_missing(user: Option<UserView>) -> ResponseView {
    match user {
        Some(user) => ResponseView::user(StatusCode::Okay, user),
        None => ResponseView::empty(StatusCode::NotFound),
    }
}

/// What listing answers on the table `rows`.
pub open spec fn listing(rows: Seq<UserView>) -> ResponseView {
    ResponseView::users(rows)
}

/// What fetching the user `user_id` answers on the table `rows`.
pub open spec fn fetching(rows: Seq<UserView>, user_id: Seq<char>) -> ResponseView {
    found_or_missing(user_with_id(rows, user_id))
}

/// What creating a user named `username` answers on the table `rows` and
/// makes of it, where `id` is the id that is made for a new user.
pub open spec fn creating(rows: Seq<UserView>, username: Seq<char>, id: Seq<char>) -> (
    Result<ResponseView, ErrorView>,
    Seq<UserView>,
) {
    match user_with_username(rows, username) {
        Some(existing) => (Ok(ResponseView::user(StatusCode::Okay, existing)), rows),
        None => if has_id(rows, id) {
            (Err(ErrorView::Database(duplicate_id_cause())), rows)
        } else {
            (
                Ok(ResponseView::user(StatusCode::Created, UserView { id, username })),
                rows.push(UserView { id, username }),
            )
        },
    }
}

/// What updating to `user` under the path id `user_id` answers on the
/// table `rows` and makes of it.
pub open spec fn updating(rows: Seq<UserView>, user_id: Seq<char>, user: UserView) -> (
    ResponseView,
    Seq<UserView>,
) {
    if user_id != user.id {
        (ResponseView::empty(StatusCode::BadRequest), rows)
    } else if has_id(rows, user.id) {
        (ResponseView::user(StatusCode::Okay, user), rows_renamed(rows, user.id, user.username))
    } else {
        (ResponseView::empty(StatusCode::NotFound), rows)
    }
}

/// What deleting the user `user_id` answers on the table `rows` and makes
/// of it.
pub open spec fn deleting(rows: Seq<UserView>, user_id: Seq<char>) -> (
    ResponseView,
    Seq<UserView>,
) {
    if has_id(rows, user_id) {
        (ResponseView::empty(StatusCode::NoContent), rows_without_id(rows, user_id))
    } else {
        (ResponseView::empty(StatusCode::NotFound), rows)
    }
}

/// The response to a listing: the users, with status 200.
pub fn users_response(users: Vec<User>) -> (response: Response)
    ensures
        response@ == ResponseView::users(views(users@)),
{
    Response { status: StatusCode::Okay, body: Body::Users(users) }
}

/// The response to a lookup: the user with status 200, or 404 without a
/// body where there is none. Fetching and updating both end in it.
pub fn user_response(user: Option<User>) -> (response: Response)
    ensures
        response@ == found_or_missing(optional_view(user)),
{
    match user {
        Some(user) => Response { status: StatusCode::Okay, body: Body::User(user) },
        None => Response::new(StatusCode::NotFound),
    }
}

/// The first decision of a create: where a user has the name already, the
/// request is answered with that user and status 200, and nothing is
/// created. `None` says that the user is to be created.
pub fn existing_user_response(existing: Option<User>) -> (response: Option<Response>)
    ensures
        match existing {
            Some(user) => response matches Some(answered) && answered@ == ResponseView::user(
                StatusCode::Okay,
                user@,
            ),
            None => response is None,
        },
{
    match existing {
        Some(user) => Some(Response { status: StatusCode::Okay, body: Body::User(user) }),
        None => None,
    }
}

/// The response to a create that stored `user`: the user, with status 201.
pub fn created_user_response(user: User) -> (response: Response)
    ensures
        response@ == ResponseView::user(StatusCode::Created, user@),
{
    Response { status: StatusCode::Created, body: Body::User(user) }
}

/// The first decision of an update: where the id in the path is not the
/// id in the body, the request is answered with status 400 and the store
/// is not asked. `None` says that the ids agree.
pub fn id_mismatch_response(user_id: &str, user: &User) -> (response: Option<Response>)
    ensures
        if user_id@ == user@.id {
            response is None
        } else {
            response matches Some(answered) && answered@ == ResponseView::empty(
                StatusCode::BadRequest,
            )
        },
{
    let path_id = user_id.to_owned();
    if path_id == user.id {
        None
    } else {
        Some(Response::new(StatusCode::BadRequest))
    }
}

/// The response to a delete: 204 where there was a user, else 404.
pub fn deleted_user_response(existed: bool) -> (response: Response)
    ensures
        response@ == ResponseView::empty(
            if existed {
                StatusCode::NoContent
            } else {
                StatusCode::NotFound
            },
        ),
{
    if existed {
        Response::new(StatusCode::NoContent)
    } else {
        Response::new(StatusCode::NotFound)
    }
}

/// Lists all users, in the order of their creation.
pub fn get_users(state: &mut State) -> (result: Result<Response, Error>)
    requires
        old(state).database.wf(),
    ensures
        final(state).database.wf(),
        final(state).database@ == old(state).database@,
        answer(result) == Ok::<ResponseView, ErrorView>(listing(old(state).database@)),
{
    match state.database.get_users() {
        Ok(users) => Ok(users_response(users)),
        Err(error) => Err(error),
    }
}

/// Fetches the user `user_id`: 200 with the user, or 404.
pub fn get_user(state: &mut State, user_id: &str) -> (result: Result<Response, Error>)
    requires
        old(state).database.wf(),
    ensures
        final(state).database.wf(),
        final(state).database@ == old(state).database@,
        answer(result) == Ok::<ResponseView, ErrorView>(fetching(old(state).database@, user_id@)),
{
    match state.database.get_user_by_id(user_id) {
        Ok(user) => Ok(user_response(user)),
        Err(error) => Err(error),
    }
}

/// Creates a user named as `user` says, unless there is one: answers 200
/// with the first user of that name where one exists, else stores a new
/// user under a random id and answers 201 with it. The one failure is an
/// id that is taken already; an empty directory therefore never fails.
pub fn create_user(state: &mut State, user: UserNoId) -> (result: Result<Response, Error>)
    requires
        old(state).database.wf(),
    ensures
        final(state).database.wf(),
        match user_with_username(old(state).database@, user@) {
            Some(existing) => {
                &&& answer(result) == Ok::<ResponseView, ErrorView>(
                    ResponseView::user(StatusCode::Okay, existing),
                )
                &&& final(state).database@ == old(state).database@
            },
            None => match result {
                Ok(response) => {
                    &&& response@.status == StatusCode::Created
                    &&& response@.body matches BodyView::User(created)
                    &&& created.username == user@
                    &&& is_identifier(created.id)
                    &&& (answer(result), final(state).database@) == creating(
                        old(state).database@,
                        user@,
                        created.id,
                    )
                },
                Err(error) => {
                    &&& error@ == ErrorView::Database(duplicate_id_cause())
                    &&& final(state).database@ == old(state).database@
                    &&& old(state).database@.len() > 0
                },
            },
        },
{
    let existing = match state.database.get_user_by_username(user.username.as_str()) {
        Ok(existing) => existing,
        Err(error) => {
            return Err(error);
        },
    };
    match existing_user_response(existing) {
        Some(response) => Ok(response),
        None => match state.database.create_user(user.username.as_str()) {
            Ok(created) => Ok(created_user_response(created)),
            Err(error) => Err(error),
        },
    }
}

/// Gives the user `user_id` the name in `user`: 400 where `user.id` is
/// not `user_id`, before the store is asked; else 200 with `user`, or 404
/// where no user has that id.
pub fn update_user(state: &mut State, user_id: &str, user: User) -> (result: Result<
    Response,
    Error,
>)
    requires
        old(state).database.wf(),
    ensures
        final(state).database.wf(),
        (answer(result), final(state).database@) == (
            Ok::<ResponseView, ErrorView>(updating(old(state).database@, user_id@, user@).0),
            updating(old(state).database@, user_id@, user@).1,
        ),
{
    match id_mismatch_response(user_id, &user) {
        Some(response) => Ok(response),
        None => match state.database.update_user(user) {
            Ok(updated) => Ok(user_response(updated)),
            Err(error) => Err(error),
        },
    }
}

/// Removes the user `user_id`: 204 where there was one, else 404.
pub fn delete_user(state: &mut State, user_id: &str) -> (result: Result<Response, Error>)
    requires
        old(state).database.wf(),
    ensures
        final(state).database.wf(),
        (answer(result), final(state).database@) == (
            Ok::<ResponseView, ErrorView>(deleting(old(state).database@, user_id@).0),
            deleting(old(state).database@, user_id@).1,
        ),
{
    match state.database.delete_user(user_id) {
        Ok(existed) => Ok(deleted_user_response(existed)),
        Err(error) => Err(error),
    }
}

} // verus!
