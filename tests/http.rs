use actix_cors::Cors;
use actix_web::http::header;
use actix_web::http::StatusCode;
use actix_web::test as harness;
use actix_web::{web, App, HttpResponse};
use user_api::{cors_policy, get_user_handler, health_handler, HEALTH_PATH, USER_PATH};

async fn user_name(path: web::Path<u32>) -> HttpResponse {
    HttpResponse::Ok().body(get_user_handler(path.into_inner()).name)
}

async fn health_status() -> HttpResponse {
    HttpResponse::Ok().body(health_handler().status)
}

fn policy_cors() -> Cors {
    let p = cors_policy();
    Cors::default()
        .allowed_origin(&p.allowed_origin)
        .allowed_methods(p.allowed_methods.iter().map(|m| m.as_str()))
        .allowed_headers(p.allowed_headers.iter().map(|h| h.as_str()))
        .max_age(p.max_age_secs)
}

fn status_of(uri: &str) -> (StatusCode, String) {
    actix_web::rt::System::new().block_on(async {
        let app =
            harness::init_service(App::new().route(USER_PATH, web::get().to(user_name))).await;
        let req = harness::TestRequest::get().uri(uri).to_request();
        let resp = harness::call_service(&app, req).await;
        let status = resp.status();
        let body = harness::read_body(resp).await;
        (status, String::from_utf8(body.to_vec()).unwrap())
    })
}

fn allow_origin_for(origin: &str) -> Option<String> {
    actix_web::rt::System::new().block_on(async {
        let app = harness::init_service(
            App::new()
                .wrap(policy_cors())
                .route(HEALTH_PATH, web::get().to(health_status)),
        )
        .await;
        let req = harness::TestRequest::get()
            .uri(HEALTH_PATH)
            .insert_header((header::ORIGIN, origin))
            .to_request();
        let resp = harness::call_service(&app, req).await;
        resp.headers()
            .get(header::ACCESS_CONTROL_ALLOW_ORIGIN)
            .map(|v| v.to_str().unwrap().to_string())
    })
}

#[test]
fn user_route_takes_an_integer_id() {
    let (status, body) = status_of("/api/users/42");
    assert_eq!(status, StatusCode::OK);
    assert_eq!(body, "User 42");
}

#[test]
fn user_route_rejects_a_non_integer_id() {
    let (status, _) = status_of("/api/users/abc");
    assert!(status.is_client_error());
}

#[test]
fn allowed_origin_gets_cors_headers() {
    assert_eq!(
        allow_origin_for("http://localhost:3000"),
        Some("http://localhost:3000".to_string())
    );
}

#[test]
fn other_origin_gets_no_cors_headers() {
    assert_eq!(allow_origin_for("http://example.com"), None);
}

#[test]
fn preflight_from_allowed_origin_is_cacheable() {
    let max_age = actix_web::rt::System::new().block_on(async {
        let app = harness::init_service(
            App::new()
                .wrap(policy_cors())
                .route(HEALTH_PATH, web::get().to(health_status)),
        )
        .await;
        let req = harness::TestRequest::default()
            .method(actix_web::http::Method::OPTIONS)
            .uri(HEALTH_PATH)
            .insert_header((header::ORIGIN, "http://localhost:3000"))
            .insert_header((header::ACCESS_CONTROL_REQUEST_METHOD, "GET"))
            .to_request();
        let resp = harness::call_service(&app, req).await;
        resp.headers()
            .get(header::ACCESS_CONTROL_MAX_AGE)
            .map(|v| v.to_str().unwrap().to_string())
    });
    assert_eq!(max_age, Some("3600".to_string()));
}
