//! A small JSON API: the data behind its four endpoints and its
//! cross-origin policy, with each value stated exactly.

pub mod config;
pub mod decimal;
pub mod handlers;
pub mod model;

pub use config::{cors_policy, string_views, CorsPolicy, LISTEN_HOST, LISTEN_PORT};
pub use decimal::{decimal, digit_char, to_decimal_string};
pub use handlers::{
    get_user_handler, get_users_handler, health_handler, listed_users, root_handler,
    synthesized_user,
};
pub use model::{
    EndpointsList, HealthResponse, RootResponse, User, UserView, HEALTH_PATH, ROOT_PATH,
    USERS_PATH, USER_PATH,
};
