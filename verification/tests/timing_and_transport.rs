use tracel_client::text::{i64_text, u64_text};
use tracel_client::client::Env;
use tracel_client::timing::{seconds_to_duration, timeout_worth_allowing_an_upload_of};
use tracel_client::transport::{
    same_text, version_segment, websocket_scheme, with_trailing_slash, Auth,
};

#[test]
fn negative_seconds_clamp_to_zero() {
    assert_eq!(seconds_to_duration(-5), 0);
    assert_eq!(seconds_to_duration(i64::MIN), 0);
    assert_eq!(seconds_to_duration(0), 0);
    assert_eq!(seconds_to_duration(900), 900);
    assert_eq!(seconds_to_duration(i64::MAX), i64::MAX as u64);
}

#[test]
fn small_uploads_get_a_minute() {
    assert_eq!(timeout_worth_allowing_an_upload_of(0), 60);
    assert_eq!(timeout_worth_allowing_an_upload_of(1), 60);
    assert_eq!(timeout_worth_allowing_an_upload_of(6 * 1024 * 1024), 60);
}

#[test]
fn uploads_get_ten_seconds_per_started_megabyte() {
    assert_eq!(timeout_worth_allowing_an_upload_of(7 * 1024 * 1024), 70);
    assert_eq!(timeout_worth_allowing_an_upload_of(7 * 1024 * 1024 + 1), 80);
    assert_eq!(timeout_worth_allowing_an_upload_of(100 * 1024 * 1024), 1000);
}

#[test]
fn the_largest_upload_does_not_overflow() {
    let secs = timeout_worth_allowing_an_upload_of(u64::MAX);
    // u64::MAX bytes start 2^44 megabytes, and ten seconds each fit in a u64.
    assert_eq!(secs, (1u64 << 44) * 10);
}

#[test]
fn larger_uploads_never_get_less_time() {
    let sizes = [0u64, 1, 1 << 20, (1 << 20) + 1, 50 << 20, 1 << 40, u64::MAX];
    for w in sizes.windows(2) {
        assert!(timeout_worth_allowing_an_upload_of(w[0]) <= timeout_worth_allowing_an_upload_of(w[1]));
    }
}

#[test]
fn session_token_becomes_an_id_cookie() {
    assert_eq!(Auth::session_token("abc123"), Auth::SessionCookie("id=abc123".to_string()));
    assert_eq!(Auth::session_token(""), Auth::SessionCookie("id=".to_string()));
}

#[test]
fn auth_headers() {
    assert_eq!(Auth::Anonymous.header(), None);
    assert_eq!(
        Auth::SessionCookie("id=x".to_string()).header(),
        Some(("cookie".to_string(), "id=x".to_string()))
    );
    assert_eq!(
        Auth::Bearer("jwt".to_string()).header(),
        Some(("authorization".to_string(), "Bearer jwt".to_string()))
    );
}

#[test]
fn base_paths_gain_exactly_one_trailing_slash() {
    assert_eq!(with_trailing_slash("/api"), "/api/");
    assert_eq!(with_trailing_slash("/api/"), "/api/");
    assert_eq!(with_trailing_slash(""), "/");
    assert_eq!(with_trailing_slash("/"), "/");
    assert_eq!(with_trailing_slash("/é"), "/é/");
}

#[test]
fn websocket_scheme_follows_the_base_scheme() {
    assert_eq!(websocket_scheme("https"), "wss");
    assert_eq!(websocket_scheme("http"), "ws");
    assert_eq!(websocket_scheme("HTTPS"), "ws");
}

#[test]
fn texts_compare_character_for_character() {
    assert!(same_text("abc", "abc"));
    assert!(!same_text("abc", "abd"));
    assert!(!same_text("ab", "abc"));
    assert!(same_text("", ""));
}

#[test]
fn api_paths_live_under_a_version() {
    assert_eq!(version_segment(1), "v1/");
    assert_eq!(version_segment(12), "v12/");
}

#[test]
fn environments_have_fixed_urls() {
    assert_eq!(Env::Production.get_url(), "https://console.tracel.ai/api/");
    assert_eq!(Env::Staging(3).get_url(), "https://s3-console.tracel.ai/api/");
    assert_eq!(Env::Staging(255).get_url(), "https://s255-console.tracel.ai/api/");
    assert_eq!(Env::Development.get_url(), "http://localhost:9001/");
}

#[test]
fn numbers_render_as_display_prints_them() {
    for n in [0u64, 7, 10, 99, 100, 1_000_000_007, u64::MAX] {
        assert_eq!(u64_text(n), n.to_string());
    }
    for n in [0i64, -1, 9, -10, 12_345, i64::MAX, i64::MIN] {
        assert_eq!(i64_text(n), n.to_string());
    }
}
