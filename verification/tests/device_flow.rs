use tracel_client::auth::device::{
    code_request, form_answer_error, parse_bad_request_body, poll_outcome, token_request, FormAnswer,
    DEVICE_CODE_GRANT,
};
use tracel_client::auth::error::{DeviceFlowError, OAuthErrorCode};
use tracel_client::auth::response::DeviceCodeResponse;
use tracel_client::auth::{DevicePollOutcome, PollSchedule, PollStep};
use tracel_client::console::auth::DeviceSessionResponse;
use tracel_client::error::{ApiErrorBody, ApiErrorCode, ClientError, ErrorBodyRead};

fn authorization(expires_in: i64, interval: i64) -> DeviceCodeResponse {
    DeviceCodeResponse {
        device_code: "secret-device-code".into(),
        user_code: "BCDF-GHJK".into(),
        verification_uri: "https://console.tracel.ai/device".into(),
        verification_uri_complete: "https://console.tracel.ai/device?code=BCDF-GHJK".into(),
        expires_in,
        interval,
    }
}

#[test]
fn code_lifetimes_and_intervals() {
    let a = authorization(900, 5);
    assert_eq!(a.expires_in(), 900);
    assert_eq!(a.interval(), 5);
    let bad = authorization(-1, -7);
    assert_eq!(bad.expires_in(), 0);
    assert_eq!(bad.interval(), 0);
}

#[test]
fn refresh_lineage_lifetime() {
    let mut r = DeviceSessionResponse { session_token: "s".into(), refresh_token: None, refresh_token_expires_in: None };
    assert_eq!(r.refresh_token_expires_in(), None);
    r.refresh_token_expires_in = Some(86400);
    assert_eq!(r.refresh_token_expires_in(), Some(86400));
    r.refresh_token_expires_in = Some(-3);
    assert_eq!(r.refresh_token_expires_in(), Some(0));
}

#[test]
fn forms_carry_the_grant_and_codes() {
    assert_eq!(code_request("tracel-cli").client_id, "tracel-cli");
    let t = token_request("dev", "tracel-cli");
    assert_eq!(t.grant_type, "urn:ietf:params:oauth:grant-type:device_code");
    assert_eq!(t.grant_type, DEVICE_CODE_GRANT);
    assert_eq!(t.device_code, "dev");
    assert_eq!(t.client_id, "tracel-cli");
}

#[test]
fn oauth_codes_round_trip_through_their_names() {
    let codes = [
        OAuthErrorCode::AccessDenied,
        OAuthErrorCode::AuthorizationPending,
        OAuthErrorCode::ExpiredToken,
        OAuthErrorCode::InvalidRequest,
        OAuthErrorCode::SlowDown,
        OAuthErrorCode::UnsupportedGrantType,
        OAuthErrorCode::Unknown,
    ];
    for c in codes {
        assert_eq!(OAuthErrorCode::from_name(&c.name()), c);
    }
    assert_eq!(OAuthErrorCode::SlowDown.name(), "slow_down");
    assert_eq!(OAuthErrorCode::from_name("temporarily_unavailable"), OAuthErrorCode::Unknown);
}

#[test]
fn denial_and_expiry_have_errors_of_their_own() {
    assert_eq!(DeviceFlowError::from(OAuthErrorCode::AccessDenied), DeviceFlowError::AccessDenied);
    assert_eq!(DeviceFlowError::from(OAuthErrorCode::ExpiredToken), DeviceFlowError::ExpiredToken);
    assert_eq!(
        DeviceFlowError::from(OAuthErrorCode::InvalidRequest),
        DeviceFlowError::OAuth(OAuthErrorCode::InvalidRequest)
    );
    assert_eq!(
        DeviceFlowError::from(ClientError::Unauthorized),
        DeviceFlowError::Client(ClientError::Unauthorized)
    );
}

#[test]
fn flow_error_messages() {
    assert_eq!(
        DeviceFlowError::AccessDenied.message().unwrap(),
        "The device authorization request was denied"
    );
    assert_eq!(
        DeviceFlowError::ExpiredToken.message().unwrap(),
        "The device code expired before it was approved"
    );
    assert_eq!(
        DeviceFlowError::TimedOut(900).message().unwrap(),
        "The device authorization was not approved within 900s"
    );
    assert_eq!(
        DeviceFlowError::OAuth(OAuthErrorCode::UnsupportedGrantType).message().unwrap(),
        "Device authorization failed: unsupported_grant_type"
    );
    assert_eq!(DeviceFlowError::Client(ClientError::NotFound).message(), None);
}

#[test]
fn polls_read_as_outcomes() {
    match poll_outcome(Ok("session".into())) {
        Ok(DevicePollOutcome::Approved(t)) => assert_eq!(t.as_str(), "session"),
        _ => panic!("an answered poll is approved"),
    }
    assert!(matches!(
        poll_outcome(Err(DeviceFlowError::OAuth(OAuthErrorCode::AuthorizationPending))),
        Ok(DevicePollOutcome::Pending)
    ));
    assert!(matches!(
        poll_outcome(Err(DeviceFlowError::OAuth(OAuthErrorCode::SlowDown))),
        Ok(DevicePollOutcome::SlowDown)
    ));
    assert!(matches!(poll_outcome(Err(DeviceFlowError::AccessDenied)), Err(DeviceFlowError::AccessDenied)));
    assert!(matches!(
        poll_outcome(Err(DeviceFlowError::OAuth(OAuthErrorCode::InvalidRequest))),
        Err(DeviceFlowError::OAuth(OAuthErrorCode::InvalidRequest))
    ));
}

#[test]
fn bad_requests_prefer_the_oauth_envelope() {
    assert_eq!(
        parse_bad_request_body(400, "{\"error\":\"expired_token\"}".into(), Some("expired_token"), None),
        DeviceFlowError::ExpiredToken
    );
    let api = ApiErrorBody { code: ApiErrorCode::Named("invalid_client_id".into()), message: "bad id".into() };
    assert_eq!(
        parse_bad_request_body(400, "{...}".into(), None, Some(api.clone())),
        DeviceFlowError::Client(ClientError::ApiError { status: 400, body: api })
    );
    assert_eq!(
        parse_bad_request_body(400, "plain text".into(), None, None),
        DeviceFlowError::Client(ClientError::ApiError {
            status: 400,
            body: ApiErrorBody { code: ApiErrorCode::Unknown, message: "plain text".into() }
        })
    );
}

#[test]
fn form_answers() {
    assert_eq!(
        form_answer_error(FormAnswer::BadRequest {
            body: "{\"error\":\"authorization_pending\"}".into(),
            oauth_error: Some("authorization_pending"),
            api_error: None,
        }),
        Some(DeviceFlowError::OAuth(OAuthErrorCode::AuthorizationPending))
    );
    assert_eq!(
        form_answer_error(FormAnswer::BadRequestUnreadable { failure_status: None, message: "eof".into() }),
        Some(DeviceFlowError::Client(ClientError::UnknownError("eof".into())))
    );
    assert_eq!(
        form_answer_error(FormAnswer::Other { status: 200, error_body: ErrorBodyRead::Unparsed(String::new()) }),
        None
    );
    assert_eq!(
        form_answer_error(FormAnswer::Other { status: 401, error_body: ErrorBodyRead::Unparsed(String::new()) }),
        Some(DeviceFlowError::Client(ClientError::Unauthorized))
    );
}

#[test]
fn the_interval_is_at_least_a_second() {
    assert_eq!(PollSchedule::start(&authorization(900, 0)).interval_secs(), 1);
    assert_eq!(PollSchedule::start(&authorization(900, -4)).interval_secs(), 1);
    assert_eq!(PollSchedule::start(&authorization(900, 5)).interval_secs(), 5);
    assert_eq!(PollSchedule::start(&authorization(-900, 5)).lifetime_secs(), 0);
}

#[test]
fn the_wait_never_outlasts_the_code() {
    let schedule = PollSchedule::start(&authorization(900, 5));
    assert_eq!(schedule.next_step(0, 0), Err(DeviceFlowError::TimedOut(900)));
    assert_eq!(schedule.next_step(0, 1), Ok(PollStep::SleepRemaining));
    assert_eq!(schedule.next_step(4, 999_999_999), Ok(PollStep::SleepRemaining));
    assert_eq!(schedule.next_step(5, 0), Ok(PollStep::SleepInterval(5)));
    assert_eq!(schedule.next_step(600, 3), Ok(PollStep::SleepInterval(5)));
}

#[test]
fn slow_down_adds_five_seconds_for_good() {
    let mut schedule = PollSchedule::start(&authorization(900, 5));
    assert!(schedule.after_poll(DevicePollOutcome::SlowDown).is_none());
    assert_eq!(schedule.interval_secs(), 10);
    assert!(schedule.after_poll(DevicePollOutcome::Pending).is_none());
    assert_eq!(schedule.interval_secs(), 10);
    assert!(schedule.after_poll(DevicePollOutcome::SlowDown).is_none());
    assert_eq!(schedule.interval_secs(), 15);
    assert_eq!(schedule.lifetime_secs(), 900);
    let token = schedule.after_poll(DevicePollOutcome::Approved(
        tracel_client::SessionToken::new("granted".into()),
    ));
    assert_eq!(token.map(|t| t.into_string()), Some("granted".to_string()));
}

#[test]
fn debug_text_of_a_pending_authorization_hides_the_device_code() {
    let text = authorization(900, -3).debug_text();
    assert_eq!(
        text,
        "DeviceCodeResponse { device_code: \"[REDACTED]\", user_code: \"BCDF-GHJK\", \
         verification_uri: \"https://console.tracel.ai/device\", \
         verification_uri_complete: \"https://console.tracel.ai/device?code=BCDF-GHJK\", \
         expires_in: 900, interval: -3 }"
    );
    assert!(!text.contains("secret-device-code"));
}

#[test]
fn debug_text_of_a_pending_authorization_escapes_its_texts() {
    let mut response = authorization(1, 1);
    response.user_code = "A\"B\\C\n".into();
    assert!(response.debug_text().contains("user_code: \"A\\\"B\\\\C\\n\","));
}

#[test]
fn debug_text_of_a_session_hides_both_tokens() {
    let with_refresh = DeviceSessionResponse {
        session_token: "secret-session".into(),
        refresh_token: Some("secret-refresh".into()),
        refresh_token_expires_in: Some(-60),
    };
    assert_eq!(
        with_refresh.debug_text(),
        "DeviceSessionResponse { session_token: \"[REDACTED]\", refresh_token: Some(\"[REDACTED]\"), \
         refresh_token_expires_in: Some(-60) }"
    );
    let without = DeviceSessionResponse { session_token: "secret-session".into(), refresh_token: None, refresh_token_expires_in: None };
    assert_eq!(
        without.debug_text(),
        "DeviceSessionResponse { session_token: \"[REDACTED]\", refresh_token: None, refresh_token_expires_in: None }"
    );
}

#[test]
fn a_wait_ends_at_the_first_answer_that_ends_it() {
    let mut schedule = PollSchedule::start(&authorization(900, 2));
    assert!(schedule.take_answer(Ok(DevicePollOutcome::Pending)).is_none());
    assert!(schedule.take_answer(Ok(DevicePollOutcome::SlowDown)).is_none());
    assert_eq!(schedule.interval_secs(), 7);
    let end = schedule.take_answer(Err(DeviceFlowError::AccessDenied));
    assert!(matches!(end, Some(Err(DeviceFlowError::AccessDenied))));
    assert_eq!(schedule.interval_secs(), 7);
    let approved = schedule.take_answer(Ok(DevicePollOutcome::Approved(
        tracel_client::SessionToken::new("granted".into()),
    )));
    assert_eq!(approved.map(|r| r.map(|t| t.into_string())), Some(Ok("granted".to_string())));
}

#[test]
fn a_wait_without_an_ending_answer_polls_at_most_once_per_interval() {
    // A ten-second code polled every three seconds: three whole intervals,
    // then the last second, then the wait times out.
    let schedule = PollSchedule::start(&authorization(10, 3));
    let mut remaining: u64 = 10;
    let mut polls = 0;
    loop {
        match schedule.next_step(remaining, 0) {
            Ok(PollStep::SleepInterval(secs)) => remaining -= secs,
            Ok(PollStep::SleepRemaining) => remaining = 0,
            Err(error) => {
                assert_eq!(error, DeviceFlowError::TimedOut(10));
                break;
            }
        }
        polls += 1;
    }
    assert_eq!(polls, 4);
}
