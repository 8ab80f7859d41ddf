//! The endpoints' answers. Each is a total function of its input.

use vstd::prelude::*;

use crate::decimal::{decimal, to_decimal_string};
use crate::model::{
    EndpointsList, HealthResponse, RootResponse, User, UserView, HEALTH_PATH, ROOT_PATH,
    USERS_PATH,
};

verus! {

/// The fixed users of the list endpoint, in order.
pub open spec fn listed_users() -> Seq<UserView> {
    seq![
        UserView { id: 1, name: "Alice"@, email: "alice@example.com"@ },
        UserView { id: 2, name: "Bob"@, email: "bob@example.com"@ },
        UserView { id: 3, name: "Charlie"@, email: "charlie@example.com"@ },
    ]
}

/// The user that the single-user endpoint makes up for `id`.
pub open spec fn synthesized_user(id: u32) -> UserView {
    UserView {
        id,
        name: "User "@ + decimal(id as nat),
        email: "user"@ + decimal(id as nat) + "@example.com"@,
    }
}

/// Answer of `GET /`: a greeting and the paths of the three endpoints.
pub fn root_handler() -> (r: RootResponse)
    ensures
        r.message@ == "Welcome to the Rust API"@,
        r.endpoints.root@ == "/"@,
        r.endpoints.health@ == "/api/health"@,
        r.endpoints.users@ == "/api/users"@,
{
    RootResponse {
        message: String::from_str("Welcome to the Rust API"),
        endpoints: EndpointsList {
            root: String::from_str(ROOT_PATH),
            health: String::from_str(HEALTH_PATH),
            users: String::from_str(USERS_PATH),
        },
    }
}

/// Answer of `GET /api/health`.
pub fn health_handler() -> (r: HealthResponse)
    ensures
        r.status@ == "ok"@,
        r.message@ == "Backend is running"@,
{
    HealthResponse {
        status: String::from_str("ok"),
        message: String::from_str("Backend is running"),
    }
}

fn make_user(id: u32, name: &str, email: &str) -> (r: User)
    ensures
        r@ == (UserView { id, name: name@, email: email@ }),
{
    User { id, name: String::from_str(name), email: String::from_str(email) }
}

/// Answer of `GET /api/users`: the three fixed users, in order.
pub fn get_users_handler() -> (r: Vec<User>)
    ensures
        r@.map_values(|u: User| u@) == listed_users(),
{
    let mut users: Vec<User> = Vec::new();
    users.push(make_user(1, "Alice", "alice@example.com"));
    users.push(make_user(2, "Bob", "bob@example.com"));
    users.push(make_user(3, "Charlie", "charlie@example.com"));
    assert(users@.map_values(|u: User| u@) =~= listed_users());
    users
}

/// Answer of `GET /api/users/{id}`: a user made up from `id`, for every `id`.
pub fn get_user_handler(id: u32) -> (r: User)
    ensures
        r@ == synthesized_user(id),
{
    let digits = to_decimal_string(id);
    let name = String::from_str("User ").concat(digits.as_str());
    let email = String::from_str("user").concat(digits.as_str()).concat("@example.com");
    User { id, name, email }
}

} // verus!
