//! What a handler answers: a status and a body.

use crate::error::Error;
use crate::models::{views, User, UserView};
use vstd::prelude::*;

verus! {

/// The statuses that the directory answers with.
#[derive(Debug, Clone, Copy, PartialEq, Eq, Structural)]
pub enum StatusCode {
    Okay,
    Created,
    NoContent,
    BadRequest,
    NotFound,
    InternalServerError,
}

impl StatusCode {
    /// The status as a number.
    pub open spec fn number(self) -> int {
        match self {
            StatusCode::Okay => 200,
            StatusCode::Created => 201,
            StatusCode::NoContent => 204,
            StatusCode::BadRequest => 400,
            StatusCode::NotFound => 404,
            StatusCode::InternalServerError => 500,
        }
    }

    /// The status as a number.
    pub fn code(&self) -> (code: u16)
        ensures
            code == self.number(),
    {
        match self {
            StatusCode::Okay => 200,
            StatusCode::Created => 201,
            StatusCode::NoContent => 204,
            StatusCode::BadRequest => 400,
            StatusCode::NotFound => 404,
            StatusCode::InternalServerError => 500,
        }
    }
}

/// A body as contracts see it.
pub enum BodyView {
    Empty,
    User(UserView),
    Users(Seq<UserView>),
}

/// What a response carries.
#[derive(Debug, PartialEq, Eq)]
pub enum Body {
    /// Nothing.
    Empty,
    /// One user.
    User(User),
    /// A list of users.
    Users(Vec<User>),
}

impl View for Body {
    type V = BodyView;

    open spec fn view(&self) -> BodyView {
        match *self {
            Body::Empty => BodyView::Empty,
            Body::User(user) => BodyView::User(user@),
            Body::Users(users) => BodyView::Users(views(users@)),
        }
    }
}

/// A response as contracts see it.
pub struct ResponseView {
    pub status: StatusCode,
    pub body: BodyView,
}

impl ResponseView {
    /// A response without a body.
    pub open spec fn empty(status: StatusCode) -> ResponseView {
        ResponseView { status, body: BodyView::Empty }
    }

    /// A response that carries one user.
    pub open spec fn user(status: StatusCode, user: UserView) -> ResponseView {
        ResponseView { status, body: BodyView::User(user) }
    }

    /// A response that lists users.
    pub open spec fn users(users: Seq<UserView>) -> ResponseView {
        ResponseView { status: StatusCode::Okay, body: BodyView::Users(users) }
    }
}

/// A handler's answer.
#[derive(Debug, PartialEq, Eq)]
pub struct Response {
    pub status: StatusCode,
    pub body: Body,
}

impl View for Response {
    type V = ResponseView;

    open spec fn view(&self) -> ResponseView {
        ResponseView { status: self.status, body: self.body@ }
    }
}

impl Response {
    /// A response without a body.
    pub fn new(status: StatusCode) -> (response: Response)
        ensures
            response@ == ResponseView::empty(status),
    {
        Response { status, body: Body::Empty }
    }

    /// The response to a request that ended in `error`: whatever went
    /// wrong in the store, the status is 500 and there is no body.
    pub fn failure(error: &Error) -> (response: Response)
        ensures
            response@ == ResponseView::empty(StatusCode::InternalServerError),
    {
        match error {
            Error::Database(_) => Response::new(StatusCode::InternalServerError),
        }
    }
}

} // verus!
