use tracel_client::burn_central::client::map_to_burn_central_err;
use tracel_client::console::credentials::{SessionToken, TracelCredentials};
use tracel_client::error::{
    from_transport_error, is_success, map_to_tracel_err, ApiErrorBody, ApiErrorCode, ClientError,
    ErrorBodyRead,
};
use tracel_client::session::{authenticate, login_form, session_from_set_cookie, SessionPlan};
use tracel_client::transport::Auth;
use tracel_client::user::require_user;
use tracel_client::user::response::UserResponseSchema;

fn body(code: &str, message: &str) -> ApiErrorBody {
    ApiErrorBody { code: ApiErrorCode::Named(code.to_string()), message: message.to_string() }
}

#[test]
fn two_hundreds_succeed() {
    for status in [200u16, 201, 204, 299] {
        assert!(is_success(status));
        assert_eq!(map_to_tracel_err(status, ErrorBodyRead::Unreadable("x".into())), Ok(()));
    }
    for status in [100u16, 199, 300, 302, 400, 404, 500] {
        assert!(!is_success(status));
    }
}

#[test]
fn not_found_reports_its_code_when_it_has_one() {
    assert_eq!(
        map_to_tracel_err(404, ErrorBodyRead::Parsed(body("project_not_found", "no"))),
        Err(ClientError::NotFoundWithCode(ApiErrorCode::Named("project_not_found".into())))
    );
    assert_eq!(map_to_tracel_err(404, ErrorBodyRead::Unparsed("bad json".into())), Err(ClientError::NotFound));
    assert_eq!(map_to_tracel_err(404, ErrorBodyRead::Unreadable("io".into())), Err(ClientError::NotFound));
}

#[test]
fn unauthorized_and_server_errors_ignore_the_body() {
    assert_eq!(map_to_tracel_err(401, ErrorBodyRead::Parsed(body("a", "b"))), Err(ClientError::Unauthorized));
    assert_eq!(map_to_tracel_err(500, ErrorBodyRead::Unparsed("x".into())), Err(ClientError::InternalServerError));
}

#[test]
fn other_statuses_carry_the_envelope() {
    assert_eq!(
        map_to_tracel_err(409, ErrorBodyRead::Parsed(body("conflict", "taken"))),
        Err(ClientError::ApiError { status: 409, body: body("conflict", "taken") })
    );
    assert_eq!(
        map_to_tracel_err(422, ErrorBodyRead::Unparsed("expected value".into())),
        Err(ClientError::ApiError {
            status: 422,
            body: ApiErrorBody { code: ApiErrorCode::Unknown, message: "expected value".into() }
        })
    );
    assert_eq!(
        map_to_tracel_err(503, ErrorBodyRead::Unreadable("reset".into())),
        Err(ClientError::UnknownError("reset".into()))
    );
}

#[test]
fn first_client_reports_not_found_bare() {
    assert_eq!(
        map_to_burn_central_err(404, ErrorBodyRead::Parsed(body("x", "y"))),
        Err(ClientError::NotFound)
    );
    assert_eq!(map_to_burn_central_err(201, ErrorBodyRead::Unparsed(String::new())), Ok(()));
    assert_eq!(
        map_to_burn_central_err(418, ErrorBodyRead::Parsed(body("teapot", "short"))),
        Err(ClientError::ApiError { status: 418, body: body("teapot", "short") })
    );
}

#[test]
fn transport_failures() {
    assert_eq!(
        from_transport_error(Some(502), "bad gateway".into()),
        ClientError::ApiError {
            status: 502,
            body: ApiErrorBody { code: ApiErrorCode::Unknown, message: "bad gateway".into() }
        }
    );
    assert_eq!(from_transport_error(None, "dns".into()), ClientError::UnknownError("dns".into()));
}

#[test]
fn session_tokens_round_trip() {
    let token = SessionToken::new("tok".to_string());
    assert_eq!(token.as_str(), "tok");
    assert_eq!(token.into_string(), "tok");
}

#[test]
fn empty_session_tokens_are_refused() {
    assert_eq!(
        SessionToken::from_text("").err(),
        Some("Session token cannot be empty".to_string())
    );
    assert_eq!(SessionToken::from_text("abc").ok().map(|t| t.into_string()), Some("abc".to_string()));
    let parsed: Result<SessionToken, String> = "xyz".parse();
    assert_eq!(parsed.ok().map(|t| t.into_string()), Some("xyz".to_string()));
}

#[test]
fn credentials_constructors() {
    assert!(TracelCredentials::api_key("k".to_string()) == TracelCredentials::ApiKey("k".to_string()));
    let t = SessionToken::new("s".to_string());
    assert!(TracelCredentials::session_token(t.clone()) == TracelCredentials::SessionToken(t.clone()));
    assert!(TracelCredentials::from(t.clone()) == TracelCredentials::SessionToken(t));
}

#[test]
fn api_key_takes_precedence_over_session_token() {
    let both: Result<TracelCredentials, &str> =
        TracelCredentials::from_env_values(Ok("key".to_string()), Ok("tok".to_string()));
    assert!(both == Ok(TracelCredentials::ApiKey("key".to_string())));
    let token_only: Result<TracelCredentials, &str> =
        TracelCredentials::from_env_values(Err("unset"), Ok("tok".to_string()));
    assert!(token_only == Ok(TracelCredentials::SessionToken(SessionToken::new("tok".to_string()))));
    let neither: Result<TracelCredentials, &str> =
        TracelCredentials::from_env_values(Err("unset"), Err("token unset"));
    assert!(neither == Err("token unset"));
}

#[test]
fn secrets_are_redacted() {
    let key = TracelCredentials::api_key("super-secret".to_string());
    assert_eq!(key.debug_text(), "TracelCredentials::ApiKey([REDACTED])");
    let tok = SessionToken::new("super-secret".to_string());
    assert_eq!(tok.debug_text(), "SessionToken([REDACTED])");
    assert_eq!(
        TracelCredentials::SessionToken(tok).debug_text(),
        "TracelCredentials::SessionToken([REDACTED])"
    );
}

#[test]
fn session_tokens_need_no_exchange() {
    let creds = TracelCredentials::session_token(SessionToken::new("abc".to_string()));
    assert_eq!(authenticate(&creds), SessionPlan::Ready(Auth::SessionCookie("id=abc".to_string())));
    let creds = TracelCredentials::api_key("key".to_string());
    assert_eq!(authenticate(&creds), SessionPlan::ExchangeApiKey("key".to_string()));
    assert_eq!(login_form("key").api_key, "key");
}

#[test]
fn the_login_cookie_is_kept_verbatim() {
    assert_eq!(
        session_from_set_cookie(Some(Some("id=abc; HttpOnly".to_string()))),
        Ok(Auth::SessionCookie("id=abc; HttpOnly".to_string()))
    );
    assert_eq!(session_from_set_cookie(Some(None)), Err(ClientError::BadSessionId));
    assert_eq!(session_from_set_cookie(None), Err(ClientError::BadSessionId));
}

#[test]
fn a_dead_session_has_no_user() {
    let user = UserResponseSchema {
        _id: 7,
        username: "ada".into(),
        email: "ada@example.com".into(),
        namespace: "ada".into(),
    };
    assert_eq!(require_user(Some(user.clone())), Ok(user));
    assert_eq!(require_user(None), Err(ClientError::Unauthorized));
}
