//! The routes of the directory: which handler answers which method on
//! which path.

use vstd::prelude::*;

pub mod user_controller;

verus! {

/// The request methods that the directory answers.
#[derive(Debug, Clone, Copy, PartialEq, Eq, Structural)]
pub enum Method {
    Get,
    Post,
    Put,
    Delete,
}

/// The handlers of [`user_controller`], by name.
#[derive(Debug, Clone, Copy, PartialEq, Eq, Structural)]
pub enum Handler {
    GetUsers,
    CreateUser,
    GetUser,
    UpdateUser,
    DeleteUser,
}

/// A route as contracts see it.
pub struct RouteView {
    pub method: Method,
    pub path: Seq<char>,
    pub handler: Handler,
}

/// One binding of a method on a path to a handler. In a path, a segment
/// that begins with a colon stands for any one segment, which the handler
/// receives under the name after the colon.
#[derive(Debug, Clone, Copy, PartialEq, Eq)]
pub struct Route {
    pub method: Method,
    pub path: &'static str,
    pub handler: Handler,
}

impl View for Route {
    type V = RouteView;

    open spec fn view(&self) -> RouteView {
        RouteView { method: self.method, path: self.path@, handler: self.handler }
    }
}

/// The path of the collection of users.
pub open spec fn users_path() -> Seq<char> {
    "/api/users"@
}

/// The path of one user, with the user's id as the parameter `user_id`.
pub open spec fn user_path() -> Seq<char> {
    "/api/users/:user_id"@
}

/// The directory's routes.
pub open spec fn routes() -> Seq<RouteView> {
    seq![
        RouteView { method: Method::Get, path: users_path(), handler: Handler::GetUsers },
        RouteView { method: Method::Post, path: users_path(), handler: Handler::CreateUser },
        RouteView { method: Method::Delete, path: user_path(), handler: Handler::DeleteUser },
        RouteView { method: Method::Get, path: user_path(), handler: Handler::GetUser },
        RouteView { method: Method::Put, path: user_path(), handler: Handler::UpdateUser },
    ]
}

/// The views of a list of routes, in the same order.
pub open spec fn route_views(routes: Seq<Route>) -> Seq<RouteView> {
    routes.map_values(|route: Route| route@)
}

/// The name under which the handlers of [`user_path`] receive the id.
pub fn user_id_parameter() -> (name: &'static str)
    ensures
        name@ == "user_id"@,
{
    "user_id"
}

/// The directory's routes: listing and creating on the collection's path;
/// deleting, fetching and updating on a user's path.
pub fn build_routes() -> (bound: Vec<Route>)
    ensures
        route_views(bound@) == routes(),
{
    let mut bound: Vec<Route> = Vec::new();
    bound.push(Route { method: Method::Get, path: "/api/users", handler: Handler::GetUsers });
    bound.push(Route { method: Method::Post, path: "/api/users", handler: Handler::CreateUser });
    bound.push(
        Route { method: Method::Delete, path: "/api/users/:user_id", handler: Handler::DeleteUser },
    );
    bound.push(
        Route { method: Method::Get, path: "/api/users/:user_id", handler: Handler::GetUser },
    );
    bound.push(
        Route { method: Method::Put, path: "/api/users/:user_id", handler: Handler::UpdateUser },
    );
    assert(route_views(bound@) =~= routes());
    bound
}

/// No two routes bind the same method on the same path, and every handler
/// is bound by exactly one route.
pub proof fn lemma_routes_are_distinct()
    ensures
        forall|i: int, j: int|
            0 <= i < j < routes().len() ==> !(routes()[i].method == routes()[j].method
                && routes()[i].path == routes()[j].path),
        forall|i: int, j: int|
            0 <= i < j < routes().len() ==> routes()[i].handler != routes()[j].handler,
{
    reveal_strlit("/api/users");
    reveal_strlit("/api/users/:user_id");
    assert(users_path().len() != user_path().len());
}

} // verus!
