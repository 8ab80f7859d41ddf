//! Where the server listens, and which browser origin may call it.

use vstd::prelude::*;

verus! {

/// The loopback address the server binds.
pub const LISTEN_HOST: &'static str = "127.0.0.1";

/// The port the server binds.
pub const LISTEN_PORT: u16 = 8000;

/// The cross-origin rules: one origin, a fixed set of methods and request
/// headers, and how long a preflight answer may be cached.
pub struct CorsPolicy {
    pub allowed_origin: String,
    pub allowed_methods: Vec<String>,
    pub allowed_headers: Vec<String>,
    pub max_age_secs: usize,
}

/// Views of the strings in `v`, in order.
pub open spec fn string_views(v: Seq<String>) -> Seq<Seq<char>> {
    v.map_values(|s: String| s@)
}

fn strings_of(a: &str, b: &str) -> (r: Vec<String>)
    ensures
        string_views(r@) == seq![a@, b@],
{
    let mut v: Vec<String> = Vec::new();
    v.push(String::from_str(a));
    v.push(String::from_str(b));
    assert(string_views(v@) =~= seq![a@, b@]);
    v
}

/// The policy of this API: the frontend at `http://localhost:3000` may use
/// GET, POST, PUT and DELETE with the `Content-Type` and `Authorization`
/// headers, and may cache a preflight answer for an hour.
pub fn cors_policy() -> (r: CorsPolicy)
    ensures
        r.allowed_origin@ == "http://localhost:3000"@,
        string_views(r.allowed_methods@) == seq!["GET"@, "POST"@, "PUT"@, "DELETE"@],
        string_views(r.allowed_headers@) == seq!["content-type"@, "authorization"@],
        r.max_age_secs == 3600,
{
    let mut methods: Vec<String> = Vec::new();
    methods.push(String::from_str("GET"));
    methods.push(String::from_str("POST"));
    methods.push(String::from_str("PUT"));
    methods.push(String::from_str("DELETE"));
    assert(string_views(methods@) =~= seq!["GET"@, "POST"@, "PUT"@, "DELETE"@]);
    CorsPolicy {
        allowed_origin: String::from_str("http://localhost:3000"),
        allowed_methods: methods,
        allowed_headers: strings_of("content-type", "authorization"),
        max_age_secs: 3600,
    }
}

} // verus!
