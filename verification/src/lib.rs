//! Account registration: uniqueness rules, credential derivation, activation
//! tokens, the transactional write protocol and the schema steps behind it.

use vstd::prelude::*;

pub mod activation;
pub mod create_user;
pub mod credential;
pub mod dto;
pub mod error;
pub mod guarantees;
pub mod ident;
pub mod m20241217_163741_user_email;
pub mod m20250113_153115_rename_activation_token_user_password;
pub mod migrator;
pub mod pool;
pub mod records;
pub mod schema;
pub mod service;
pub mod store;

verus! {

/// The body of the health-check response.
pub open spec fn greeting() -> Seq<char> {
    "Hello, world!"@
}

/// Answers the health check.
pub fn index() -> (body: &'static str)
    ensures
        body@ == greeting(),
{
    "Hello, world!"
}

/// The method of a route.
#[derive(Clone, Copy, Debug, PartialEq, Eq, Structural)]
pub enum Method {
    Get,
    Post,
}

/// One route of the service.
#[derive(Clone, Copy, Debug)]
pub struct Route {
    pub method: Method,
    pub path: &'static str,
}

/// What the service mounts at its root: the health check, and nothing else.
pub fn rocket() -> (routes: Vec<Route>)
    ensures
        routes@.len() == 1,
        routes@[0].method == Method::Get,
        routes@[0].path@ == "/healthcheck"@,
{
    let mut routes: Vec<Route> = Vec::new();
    routes.push(Route { method: Method::Get, path: "/healthcheck" });
    routes
}

} // verus!
