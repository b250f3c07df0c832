use axum::http::StatusCode;
use http_stream_proxy::api::Route;
use http_stream_proxy::auth::{login_header, EmailCheck};
use http_stream_proxy::http;
use http_stream_proxy::http::header_text;

fn check(env: &str) -> EmailCheck {
    EmailCheck::new(
        "admin@example.org".to_string(),
        vec!["a@example.org".to_string(), "b@example.org".to_string()],
        env.to_string(),
    )
}

#[test]
fn local_lets_everyone_in_unseen() {
    let c = check("local");
    for login in [None, Some("x@example.org".as_bytes())] {
        assert_eq!(c.admin_middleware(login), Ok(None));
        assert_eq!(c.guest_middleware(login), Ok(None));
    }
    assert_eq!(check("Local").admin_middleware(None), Err(401));
}

#[test]
fn administrator_may_do_everything() {
    let c = check("production");
    let login = Some("admin@example.org".as_bytes());
    let user = Ok(Some("admin@example.org".to_string()));
    assert_eq!(c.admin_middleware(login), user);
    assert_eq!(c.guest_middleware(login), user);
}

#[test]
fn guests_may_join_only() {
    let c = check("production");
    let login = Some("b@example.org".as_bytes());
    assert_eq!(c.admin_middleware(login), Err(403));
    assert_eq!(c.guest_middleware(login), Ok(Some("b@example.org".to_string())));
}

#[test]
fn strangers_are_turned_away() {
    let c = check("production");
    let login = Some("B@example.org".as_bytes());
    assert_eq!(c.admin_middleware(login), Err(403));
    assert_eq!(c.guest_middleware(login), Err(403));
    assert_eq!(c.admin_middleware(None), Err(401));
    assert_eq!(c.guest_middleware(None), Err(401));
    assert_eq!(c.guest_middleware(Some(&[0x62, 0xff])), Err(401));
}

#[test]
fn header_values_as_text() {
    assert_eq!(header_text(Some("a b\tc~".as_bytes())).as_deref(), Some("a b\tc~"));
    assert_eq!(header_text(Some(&[])).as_deref(), Some(""));
    assert_eq!(header_text(Some(&[0x7f])), None);
    assert_eq!(header_text(Some(&[0x0d])), None);
    assert_eq!(header_text(Some(&[0xc3, 0xa9])), None);
    assert_eq!(header_text(None), None);
    assert_eq!(login_header(), "tailscale-user-login");
}

#[test]
fn status_codes() {
    assert_eq!(http::OK, StatusCode::OK.as_u16());
    assert_eq!(http::UNAUTHORIZED, StatusCode::UNAUTHORIZED.as_u16());
    assert_eq!(http::FORBIDDEN, StatusCode::FORBIDDEN.as_u16());
    assert_eq!(http::NOT_FOUND, StatusCode::NOT_FOUND.as_u16());
    assert_eq!(http::INTERNAL_SERVER_ERROR, StatusCode::INTERNAL_SERVER_ERROR.as_u16());
    assert_eq!(http::BAD_GATEWAY, StatusCode::BAD_GATEWAY.as_u16());
}

#[test]
fn routes_and_who_may_use_them() {
    let c = check("production");
    let admin = Some("admin@example.org".as_bytes());
    let guest = Some("a@example.org".as_bytes());
    let stranger = Some("x@example.org".as_bytes());
    let status = |route: Route, login| c.authorize(route.access(), login).err();
    for (route, path) in [
        (Route::Playlist, "/"),
        (Route::Channel, "/channel/{title}"),
        (Route::Prewarm, "/prewarm/{title}"),
    ] {
        assert_eq!(route.path(), path);
        assert_eq!(status(route, admin), None);
        assert_eq!(status(route, guest), Some(403));
        assert_eq!(status(route, stranger), Some(403));
        assert_eq!(status(route, None), Some(401));
    }
    for (route, path) in [(Route::Guest, "/guest"), (Route::GuestPlaylist, "/guest/playlist")] {
        assert_eq!(route.path(), path);
        assert_eq!(status(route, admin), None);
        assert_eq!(c.authorize(route.access(), guest), Ok(Some("a@example.org".to_string())));
        assert_eq!(status(route, stranger), Some(403));
        assert_eq!(status(route, None), Some(401));
    }
    assert_eq!(Route::Sync.path(), "/sync");
    assert_eq!(c.authorize(Route::Sync.access(), stranger), Ok(None));
    assert_eq!(c.authorize(Route::Sync.access(), None), Ok(None));
}
