//! The values the API answers with, and the paths it serves.

use vstd::prelude::*;

verus! {

/// Path of the root endpoint, which lists the others.
pub const ROOT_PATH: &'static str = "/";

/// Path of the liveness probe.
pub const HEALTH_PATH: &'static str = "/api/health";

/// Path of the user list.
pub const USERS_PATH: &'static str = "/api/users";

/// Route pattern of a single user, with the id as its last segment.
pub const USER_PATH: &'static str = "/api/users/{id}";

/// A user record, built afresh for each answer.
pub struct User {
    pub id: u32,
    pub name: String,
    pub email: String,
}

/// What a `User` holds, with its strings as character sequences.
pub struct UserView {
    pub id: u32,
    pub name: Seq<char>,
    pub email: Seq<char>,
}

impl View for User {
    type V = UserView;

    open spec fn view(&self) -> UserView {
        UserView { id: self.id, name: self.name@, email: self.email@ }
    }
}

/// The answer of the liveness probe.
pub struct HealthResponse {
    pub status: String,
    pub message: String,
}

/// The paths of the three listed endpoints.
pub struct EndpointsList {
    pub root: String,
    pub health: String,
    pub users: String,
}

/// The answer of the root endpoint: a greeting and where the others are.
pub struct RootResponse {
    pub message: String,
    pub endpoints: EndpointsList,
}

} // verus!
