//! The decisions of the device authorization flow: what to send, how each
//! answer reads, and when to poll again.

use vstd::prelude::*;
use crate::auth::error::{DeviceFlowError, OAuthErrorCode, flow_error_of_code, oauth_code_of_name};
use crate::auth::request::{DeviceCodeRequest, DeviceTokenRequest};
use crate::auth::response::DeviceCodeResponse;
use crate::console::credentials::SessionToken;
use crate::error::{
    ApiErrorBody, ApiErrorCode, ClientError, ErrorBodyRead, STATUS_BAD_REQUEST, map_to_tracel_err,
    from_transport_error, response_error,
};
use crate::timing::clamp_seconds;

verus! {

/// Grant type identifier of the device authorization flow (RFC 8628
/// section 3.4).
pub const DEVICE_CODE_GRANT: &'static str = "urn:ietf:params:oauth:grant-type:device_code";

/// Path of the endpoint that issues device codes.
pub const DEVICE_CODE_PATH: &'static str = "auth/device/code";

/// Path of the token endpoint the client polls.
pub const TOKEN_PATH: &'static str = "auth/token";

/// Seconds added to the poll interval every time the server answers
/// `slow_down`: the server raises its own interval by this much without
/// reporting it, so the client mirrors the increase.
pub const SLOW_DOWN_INCREMENT_SECS: u64 = 5;

/// Floor for the poll interval, in case the server reports a zero interval.
pub const MIN_POLL_INTERVAL_SECS: u64 = 1;

/// Result of a single poll of the token endpoint.
#[derive(Clone)]
pub enum DevicePollOutcome {
    /// The user has not answered yet. Poll again after the interval.
    Pending,
    /// The last poll came too early. Add five seconds to the interval.
    SlowDown,
    /// The user approved the request.
    Approved(SessionToken),
}

/// The form that requests a device code for `client_id`.
pub fn code_request(client_id: &str) -> (req: DeviceCodeRequest<'_>)
    ensures
        req.client_id@ == client_id@,
{
    DeviceCodeRequest { client_id }
}

/// The form that polls the token endpoint with `device_code`.
pub fn token_request<'a>(device_code: &'a str, client_id: &'a str) -> (req: DeviceTokenRequest<'a>)
    ensures
        req.grant_type@ == DEVICE_CODE_GRANT@,
        req.device_code@ == device_code@,
        req.client_id@ == client_id@,
{
    DeviceTokenRequest { grant_type: DEVICE_CODE_GRANT, device_code, client_id }
}

/// How a poll reads, given the session token the token endpoint answered
/// with or the error the request ended in.
///
/// A pending or throttled poll is an `Ok` outcome; only a terminal failure
/// is an error, and it is returned unchanged.
pub fn poll_outcome(answer: Result<String, DeviceFlowError>) -> (r: Result<DevicePollOutcome, DeviceFlowError>)
    ensures
        answer is Ok ==> (r matches Ok(DevicePollOutcome::Approved(t)) && t@ == answer->Ok_0@),
        answer == Err::<String, DeviceFlowError>(DeviceFlowError::OAuth(OAuthErrorCode::AuthorizationPending))
            ==> r matches Ok(DevicePollOutcome::Pending),
        answer == Err::<String, DeviceFlowError>(DeviceFlowError::OAuth(OAuthErrorCode::SlowDown))
            ==> r matches Ok(DevicePollOutcome::SlowDown),
        answer is Err && answer->Err_0 != DeviceFlowError::OAuth(OAuthErrorCode::AuthorizationPending)
            && answer->Err_0 != DeviceFlowError::OAuth(OAuthErrorCode::SlowDown)
            ==> r == Err::<DevicePollOutcome, DeviceFlowError>(answer->Err_0),
{
    match answer {
        Ok(token) => Ok(DevicePollOutcome::Approved(SessionToken::new(token))),
        Err(DeviceFlowError::OAuth(OAuthErrorCode::AuthorizationPending)) => Ok(DevicePollOutcome::Pending),
        Err(DeviceFlowError::OAuth(OAuthErrorCode::SlowDown)) => Ok(DevicePollOutcome::SlowDown),
        Err(error) => Err(error),
    }
}

/// The error an HTTP 400 answer of a device authorization endpoint stands
/// for.
///
/// Flow errors use the OAuth envelope: `oauth_error` is its `error` field
/// when the body is one, and it takes precedence. Requests rejected before
/// the flow starts, such as an invalid `client_id`, use the usual
/// `{"code", "message"}` envelope (`api_error`); a body that is neither is
/// kept whole as the message of an unknown-code envelope.
pub fn parse_bad_request_body(
    status: u16,
    body: String,
    oauth_error: Option<&str>,
    api_error: Option<ApiErrorBody>,
) -> (e: DeviceFlowError)
    ensures
        oauth_error is Some ==> e == flow_error_of_code(oauth_code_of_name(oauth_error->Some_0@)),
        oauth_error is None ==> e == DeviceFlowError::Client(ClientError::ApiError {
            status,
            body: match api_error {
                Some(b) => b,
                None => ApiErrorBody { code: ApiErrorCode::Unknown, message: body },
            },
        }),
{
    if let Some(name) = oauth_error {
        return DeviceFlowError::from(OAuthErrorCode::from_name(name));
    }
    let body = match api_error {
        Some(b) => b,
        None => ApiErrorBody { code: ApiErrorCode::Unknown, message: body },
    };
    DeviceFlowError::Client(ClientError::ApiError { status, body })
}

/// What a device authorization endpoint answered, as far as its errors go.
pub enum FormAnswer<'a> {
    /// HTTP 400 with its body read, and what the body decodes as.
    BadRequest { body: String, oauth_error: Option<&'a str>, api_error: Option<ApiErrorBody> },
    /// HTTP 400 whose body could not be read: the failure's status and
    /// message.
    BadRequestUnreadable { failure_status: Option<u16>, message: String },
    /// Any other status, with its error body as far as it could be read
    /// (ignored when the status is a success).
    Other { status: u16, error_body: ErrorBodyRead },
}

/// The error a device authorization endpoint answered with, or `None` when
/// its body is to be decoded as the expected answer.
///
/// These endpoints answer flow errors with HTTP 400 instead of the usual
/// error mapping; every other status goes through [`map_to_tracel_err`].
pub fn form_answer_error(answer: FormAnswer) -> (e: Option<DeviceFlowError>)
    ensures
        match answer {
            FormAnswer::BadRequest { body, oauth_error, api_error } => e == Some(
                match oauth_error {
                    Some(name) => flow_error_of_code(oauth_code_of_name(name@)),
                    None => DeviceFlowError::Client(ClientError::ApiError {
                        status: STATUS_BAD_REQUEST,
                        body: match api_error {
                            Some(b) => b,
                            None => ApiErrorBody { code: ApiErrorCode::Unknown, message: body },
                        },
                    }),
                },
            ),
            FormAnswer::BadRequestUnreadable { failure_status, message } => e == Some(
                DeviceFlowError::Client(
                    match failure_status {
                        Some(s) => ClientError::ApiError {
                            status: s,
                            body: ApiErrorBody { code: ApiErrorCode::Unknown, message },
                        },
                        None => ClientError::UnknownError(message),
                    },
                ),
            ),
            FormAnswer::Other { status, error_body } => e == match response_error(status, error_body) {
                Some(c) => Some(DeviceFlowError::Client(c)),
                None => None,
            },
        },
{
    match answer {
        FormAnswer::BadRequest { body, oauth_error, api_error } => Some(
            parse_bad_request_body(STATUS_BAD_REQUEST, body, oauth_error, api_error),
        ),
        FormAnswer::BadRequestUnreadable { failure_status, message } => Some(
            DeviceFlowError::Client(from_transport_error(failure_status, message)),
        ),
        FormAnswer::Other { status, error_body } => match map_to_tracel_err(status, error_body) {
            Ok(()) => None,
            Err(error) => Some(DeviceFlowError::Client(error)),
        },
    }
}

/// The poll interval a device authorization starts with: the one the server
/// asked for, and at least a second.
pub open spec fn initial_interval(interval: i64) -> nat {
    let asked = clamp_seconds(interval as int);
    if asked < MIN_POLL_INTERVAL_SECS { MIN_POLL_INTERVAL_SECS as nat } else { asked }
}

/// The interval after a poll with `outcome`: five seconds more after a
/// `slow_down`, unchanged otherwise.
pub open spec fn next_interval(interval: nat, outcome: DevicePollOutcome) -> nat {
    match outcome {
        DevicePollOutcome::SlowDown => interval + (SLOW_DOWN_INCREMENT_SECS as nat),
        _ => interval,
    }
}

/// What to do before the next poll.
#[derive(Clone, Copy, Debug, PartialEq, Eq)]
pub enum PollStep {
    /// Sleep for the whole poll interval, this many seconds.
    SleepInterval(u64),
    /// Sleep until the device code expires: less time is left than the
    /// interval.
    SleepRemaining,
}

/// The pacing of a wait for approval: how long the device code lives and
/// how long to wait between two polls, in seconds.
pub struct PollSchedule {
    lifetime_secs: u64,
    interval_secs: u64,
}

impl PollSchedule {
    /// The poll interval never drops below a second.
    #[verifier::type_invariant]
    spec fn interval_floor(self) -> bool {
        self.interval_secs >= MIN_POLL_INTERVAL_SECS
    }

    /// Seconds the device code lives.
    pub closed spec fn lifetime(self) -> nat {
        self.lifetime_secs as nat
    }

    /// Seconds to wait between two polls.
    pub closed spec fn interval(self) -> nat {
        self.interval_secs as nat
    }

    /// The schedule of `authorization`: its lifetime, and its interval raised
    /// to at least a second.
    pub fn start(authorization: &DeviceCodeResponse) -> (s: Self)
        ensures
            s.lifetime() == clamp_seconds(authorization.expires_in as int),
            s.interval() == initial_interval(authorization.interval),
            s.interval() >= MIN_POLL_INTERVAL_SECS,
    {
        let lifetime_secs = authorization.expires_in();
        let asked = authorization.interval();
        let interval_secs = if asked < MIN_POLL_INTERVAL_SECS { MIN_POLL_INTERVAL_SECS } else { asked };
        PollSchedule { lifetime_secs, interval_secs }
    }

    /// Seconds the device code lives.
    pub fn lifetime_secs(&self) -> (secs: u64)
        ensures
            secs == self.lifetime(),
    {
        self.lifetime_secs
    }

    /// Seconds to wait between two polls.
    pub fn interval_secs(&self) -> (secs: u64)
        ensures
            secs == self.interval(),
            secs >= MIN_POLL_INTERVAL_SECS,
    {
        proof {
            use_type_invariant(self);
        }
        self.interval_secs
    }

    /// What to do before the next poll, when `remaining_secs` seconds and
    /// `remaining_subsec_nanos` nanoseconds are left before the device code
    /// expires.
    ///
    /// Once nothing is left the wait has timed out. Otherwise the client
    /// sleeps for the interval, or for what is left when that is shorter,
    /// and then polls: it waits before the first poll too, since polling
    /// eagerly only makes the server raise the interval.
    pub fn next_step(&self, remaining_secs: u64, remaining_subsec_nanos: u32) -> (step: Result<PollStep, DeviceFlowError>)
        ensures
            remaining_secs == 0 && remaining_subsec_nanos == 0 ==> step == Err::<PollStep, DeviceFlowError>(
                DeviceFlowError::TimedOut(self.lifetime() as u64),
            ),
            !(remaining_secs == 0 && remaining_subsec_nanos == 0) && self.interval() <= remaining_secs
                ==> step == Ok::<PollStep, DeviceFlowError>(PollStep::SleepInterval(self.interval() as u64)),
            !(remaining_secs == 0 && remaining_subsec_nanos == 0) && self.interval() > remaining_secs
                ==> step == Ok::<PollStep, DeviceFlowError>(PollStep::SleepRemaining),
            step matches Ok(PollStep::SleepInterval(secs)) ==> secs >= MIN_POLL_INTERVAL_SECS,
    {
        proof {
            use_type_invariant(self);
        }
        if remaining_secs == 0 && remaining_subsec_nanos == 0 {
            Err(DeviceFlowError::TimedOut(self.lifetime_secs))
        } else if self.interval_secs <= remaining_secs {
            Ok(PollStep::SleepInterval(self.interval_secs))
        } else {
            Ok(PollStep::SleepRemaining)
        }
    }

    /// Takes in the outcome of a poll: the session token once the user
    /// approved, `None` while the wait goes on. A `slow_down` raises the
    /// interval by five seconds for good.
    pub fn after_poll(&mut self, outcome: DevicePollOutcome) -> (token: Option<SessionToken>)
        requires
            outcome is SlowDown ==> old(self).interval() + SLOW_DOWN_INCREMENT_SECS <= u64::MAX,
        ensures
            final(self).lifetime() == old(self).lifetime(),
            final(self).interval() == next_interval(old(self).interval(), outcome),
            final(self).interval() >= MIN_POLL_INTERVAL_SECS,
            match outcome {
                DevicePollOutcome::Approved(t) => token == Some(t),
                _ => token is None,
            },
    {
        proof {
            use_type_invariant(&*self);
        }
        match outcome {
            DevicePollOutcome::Approved(t) => Some(t),
            DevicePollOutcome::Pending => None,
            DevicePollOutcome::SlowDown => {
                self.interval_secs = self.interval_secs + SLOW_DOWN_INCREMENT_SECS;
                None
            },
        }
    }
}

/// What a poll's answer ends a wait with: the token of an approval, or the
/// error unchanged; `None` for an answer that lets the wait go on.
pub open spec fn answer_end(answer: Result<DevicePollOutcome, DeviceFlowError>) -> Option<Result<SessionToken, DeviceFlowError>> {
    match answer {
        Ok(DevicePollOutcome::Approved(t)) => Some(Ok(t)),
        Ok(_) => None,
        Err(e) => Some(Err(e)),
    }
}

/// The interval after an answer: as a poll outcome moves it, unchanged by
/// an error.
pub open spec fn interval_after_answer(interval: nat, answer: Result<DevicePollOutcome, DeviceFlowError>) -> nat {
    match answer {
        Ok(outcome) => next_interval(interval, outcome),
        Err(_) => interval,
    }
}

impl PollSchedule {
    /// Takes in what a poll answered and says whether the wait is over: with
    /// the session token once the user approved, with the error unchanged
    /// when the poll failed, and not while the answer is pending or asks to
    /// slow down.
    pub fn take_answer(&mut self, answer: Result<DevicePollOutcome, DeviceFlowError>) -> (done: Option<Result<SessionToken, DeviceFlowError>>)
        requires
            answer matches Ok(DevicePollOutcome::SlowDown) ==> old(self).interval() + SLOW_DOWN_INCREMENT_SECS <= u64::MAX,
        ensures
            final(self).lifetime() == old(self).lifetime(),
            final(self).interval() == interval_after_answer(old(self).interval(), answer),
            done == answer_end(answer),
            answer is Err ==> done == Some(Err::<SessionToken, DeviceFlowError>(answer->Err_0)),
            done is None <==> (answer matches Ok(DevicePollOutcome::Pending) || answer matches Ok(
                DevicePollOutcome::SlowDown,
            )),
            answer matches Ok(DevicePollOutcome::Approved(t)) ==> done == Some(Ok::<SessionToken, DeviceFlowError>(t)),
            done matches Some(Ok(t)) ==> answer == Ok::<DevicePollOutcome, DeviceFlowError>(
                DevicePollOutcome::Approved(t),
            ),
    {
        proof {
            lemma_answers_that_end_a_wait(answer);
        }
        match answer {
            Ok(outcome) => match self.after_poll(outcome) {
                Some(token) => Some(Ok(token)),
                None => None,
            },
            Err(error) => Some(Err(error)),
        }
    }
}

/// Every failed poll ends the wait with its error unchanged, an approval
/// ends it with its token, and only a pending or slow-down answer lets it
/// go on; a wait never ends in success without an approval.
pub proof fn lemma_answers_that_end_a_wait(answer: Result<DevicePollOutcome, DeviceFlowError>)
    ensures
        answer is Err ==> answer_end(answer) == Some(Err::<SessionToken, DeviceFlowError>(answer->Err_0)),
        answer_end(answer) is None <==> (answer matches Ok(DevicePollOutcome::Pending) || answer matches Ok(
            DevicePollOutcome::SlowDown,
        )),
        answer matches Ok(DevicePollOutcome::Approved(t)) ==> answer_end(answer) == Some(
            Ok::<SessionToken, DeviceFlowError>(t),
        ),
        answer_end(answer) matches Some(Ok(t)) ==> answer == Ok::<DevicePollOutcome, DeviceFlowError>(
            DevicePollOutcome::Approved(t),
        ),
        answer_end(answer) matches Some(Err(e)) ==> answer == Err::<DevicePollOutcome, DeviceFlowError>(e),
{
}

/// The end of a wait whose polls were answered `answers`, in order: the end
/// that the first answer to end it gives, `None` while none has.
pub open spec fn wait_end(answers: Seq<Result<DevicePollOutcome, DeviceFlowError>>) -> Option<Result<SessionToken, DeviceFlowError>>
    decreases answers.len(),
{
    if answers.len() == 0 {
        None
    } else {
        match answer_end(answers[0]) {
            Some(end) => Some(end),
            None => wait_end(answers.drop_first()),
        }
    }
}

/// A wait ends at the first answer that is an approval or an error, with
/// that answer's token or its error unchanged, and no later answer counts;
/// pending and slow-down answers never end it.
pub proof fn lemma_wait_ends_at_first_ending_answer(answers: Seq<Result<DevicePollOutcome, DeviceFlowError>>, k: int)
    requires
        0 <= k <= answers.len(),
        forall|j: int| 0 <= j < k ==> answer_end(#[trigger] answers[j]) is None,
    ensures
        k < answers.len() && answer_end(answers[k]) is Some ==> wait_end(answers) == answer_end(answers[k]),
        k == answers.len() ==> wait_end(answers) is None,
    decreases k,
{
    if k > 0 {
        let rest = answers.drop_first();
        assert forall|j: int| 0 <= j < k - 1 implies answer_end(#[trigger] rest[j]) is None by {
            assert(rest[j] == answers[j + 1]);
        }
        assert(answer_end(answers[0]) is None);
        lemma_wait_ends_at_first_ending_answer(rest, k - 1);
        if k < answers.len() {
            assert(rest[k - 1] == answers[k]);
        }
    }
}

/// A poll that fails, after any number of pending or slow-down answers,
/// ends the wait with that failure, whatever later polls would answer.
pub proof fn lemma_failed_poll_ends_wait(
    answers: Seq<Result<DevicePollOutcome, DeviceFlowError>>,
    k: int,
    error: DeviceFlowError,
)
    requires
        0 <= k < answers.len(),
        answers[k] == Err::<DevicePollOutcome, DeviceFlowError>(error),
        forall|j: int| 0 <= j < k ==> (#[trigger] answers[j] matches Ok(DevicePollOutcome::Pending) || answers[j] matches Ok(
            DevicePollOutcome::SlowDown,
        )),
    ensures
        wait_end(answers) == Some(Err::<SessionToken, DeviceFlowError>(error)),
{
    assert forall|j: int| 0 <= j < k implies answer_end(#[trigger] answers[j]) is None by {
        lemma_answers_that_end_a_wait(answers[j]);
    }
    lemma_answers_that_end_a_wait(answers[k]);
    lemma_wait_ends_at_first_ending_answer(answers, k);
}

/// The interval after polls answered `outcomes`, in order, from `interval`.
pub open spec fn interval_after(interval: nat, outcomes: Seq<DevicePollOutcome>) -> nat
    decreases outcomes.len(),
{
    if outcomes.len() == 0 {
        interval
    } else {
        interval_after(next_interval(interval, outcomes[0]), outcomes.drop_first())
    }
}

/// How many of `outcomes` asked to slow down.
pub open spec fn slow_downs(outcomes: Seq<DevicePollOutcome>) -> nat
    decreases outcomes.len(),
{
    if outcomes.len() == 0 {
        0
    } else {
        (if outcomes[0] is SlowDown { 1nat } else { 0nat }) + slow_downs(outcomes.drop_first())
    }
}

/// After any run of polls the interval is where it started plus five
/// seconds for each `slow_down`; so it never shrinks, and a longer run
/// never has a shorter interval than its beginning.
pub proof fn lemma_interval_after_polls(interval: nat, outcomes: Seq<DevicePollOutcome>, k: int)
    requires
        0 <= k <= outcomes.len(),
    ensures
        interval_after(interval, outcomes) == interval + SLOW_DOWN_INCREMENT_SECS * slow_downs(outcomes),
        interval_after(interval, outcomes) >= interval_after(interval, outcomes.take(k)),
        interval_after(interval, outcomes.take(k)) >= interval,
    decreases outcomes.len(),
{
    if outcomes.len() > 0 {
        let next = next_interval(interval, outcomes[0]);
        let rest = outcomes.drop_first();
        lemma_interval_after_polls(next, rest, if k > 0 { k - 1 } else { 0 });
        if k > 0 {
            assert(outcomes.take(k).drop_first() =~= rest.take(k - 1));
            assert(outcomes.take(k)[0] == outcomes[0]);
        } else {
            assert(outcomes.take(k) =~= Seq::<DevicePollOutcome>::empty());
        }
    } else {
        assert(outcomes.take(k) =~= outcomes);
    }
}

/// Nanoseconds in `secs` seconds.
pub open spec fn nanos(secs: int) -> int {
    secs * 1_000_000_000
}

/// How long a wait sleeps before a poll, in nanoseconds, once `elapsed`
/// nanoseconds of a device code that lives `lifetime` seconds have gone and
/// the interval is `interval` seconds: the whole interval, or what is left
/// when that is shorter (the two steps of `next_step`).
pub open spec fn sleep_before_poll(lifetime: nat, elapsed: int, interval: nat) -> int {
    if nanos(interval as int) <= nanos(lifetime as int) - elapsed {
        nanos(interval as int)
    } else {
        nanos(lifetime as int) - elapsed
    }
}

/// Between the decisions before two polls at least a whole interval passes,
/// so the decision before poll `k` comes `k` intervals after the first.
proof fn lemma_polls_are_an_interval_apart(
    lifetime: nat,
    initial: nat,
    outcomes: Seq<DevicePollOutcome>,
    times: Seq<int>,
    k: int,
)
    requires
        times.len() == outcomes.len(),
        0 <= k < times.len(),
        forall|j: int| 0 <= j < times.len() ==> #[trigger] times[j] < nanos(lifetime as int),
        forall|j: int|
            0 <= j < times.len() - 1 ==> times[j + 1] >= times[j] + #[trigger] sleep_before_poll(
                lifetime,
                times[j],
                interval_after(initial, outcomes.take(j)),
            ),
    ensures
        times[k] >= times[0] + k * nanos(initial as int),
    decreases k,
{
    if k > 0 {
        lemma_polls_are_an_interval_apart(lifetime, initial, outcomes, times, k - 1);
        lemma_interval_after_polls(initial, outcomes, k - 1);
        let interval = interval_after(initial, outcomes.take(k - 1));
        assert(times[k] >= times[k - 1] + sleep_before_poll(lifetime, times[k - 1], interval));
        assert(times[k] < nanos(lifetime as int));
        assert(sleep_before_poll(lifetime, times[k - 1], interval) == nanos(interval as int));
        assert(nanos(interval as int) >= nanos(initial as int));
        assert(times[k] >= times[k - 1] + nanos(initial as int));
        assert(k * nanos(initial as int) == (k - 1) * nanos(initial as int) + nanos(initial as int)) by (nonlinear_arith);
    } else {
        assert(k * nanos(initial as int) == 0) by (nonlinear_arith)
            requires
                k == 0,
        ;
    }
}

/// A wait that no answer ends polls at most `ceil(lifetime / interval)`
/// times, `interval` being the one it started with: each poll but the last
/// comes a whole interval after the one before it, and every poll comes
/// before the device code expires.
///
/// `times[k]` is the time, in nanoseconds since the wait began, at which
/// the step before poll `k` was decided, and poll `k` answered
/// `outcomes[k]`; the time between two decisions is at least the sleep
/// decided on.
pub proof fn lemma_polls_before_expiry(
    lifetime: nat,
    initial: nat,
    outcomes: Seq<DevicePollOutcome>,
    times: Seq<int>,
)
    requires
        initial >= MIN_POLL_INTERVAL_SECS,
        times.len() == outcomes.len(),
        forall|k: int| 0 <= k < times.len() ==> 0 <= #[trigger] times[k] < nanos(lifetime as int),
        forall|k: int|
            0 <= k < times.len() - 1 ==> times[k + 1] >= times[k] + #[trigger] sleep_before_poll(
                lifetime,
                times[k],
                interval_after(initial, outcomes.take(k)),
            ),
    ensures
        times.len() > 0 ==> (times.len() - 1) * initial < lifetime,
        times.len() <= (lifetime + initial - 1) / (initial as int),
{
    let n = times.len() as int;
    if n > 0 {
        assert(0 <= times[0]);
        assert(times[n - 1] < nanos(lifetime as int));
        lemma_polls_are_an_interval_apart(lifetime, initial, outcomes, times, n - 1);
        assert((n - 1) * nanos(initial as int) == nanos((n - 1) * initial)) by (nonlinear_arith);
        assert((n - 1) * initial < lifetime);
        let q = (lifetime + initial - 1) / (initial as int);
        assert(n <= q) by (nonlinear_arith)
            requires
                initial >= 1,
                (n - 1) * initial < lifetime,
                q == (lifetime + initial - 1) / (initial as int),
        ;
    }
}

/// The poll interval never shrinks: no answer to a poll lowers it.
pub proof fn lemma_interval_never_shrinks(interval: nat, outcome: DevicePollOutcome)
    ensures
        next_interval(interval, outcome) >= interval,
{
}

/// A bad request that only says the user has not answered, or that the
/// client polls too fast, never ends the flow: it reads as an OAuth error
/// that a poll turns into an outcome. Denial and expiry are terminal errors
/// of their own.
pub proof fn lemma_flow_answers_by_name()
    ensures
        flow_error_of_code(oauth_code_of_name("authorization_pending"@)) == DeviceFlowError::OAuth(
            OAuthErrorCode::AuthorizationPending,
        ),
        flow_error_of_code(oauth_code_of_name("slow_down"@)) == DeviceFlowError::OAuth(
            OAuthErrorCode::SlowDown,
        ),
        flow_error_of_code(oauth_code_of_name("access_denied"@)) == DeviceFlowError::AccessDenied,
        flow_error_of_code(oauth_code_of_name("expired_token"@)) == DeviceFlowError::ExpiredToken,
{
    crate::auth::error::lemma_oauth_code_name_round_trip(OAuthErrorCode::AuthorizationPending);
    crate::auth::error::lemma_oauth_code_name_round_trip(OAuthErrorCode::SlowDown);
    crate::auth::error::lemma_oauth_code_name_round_trip(OAuthErrorCode::AccessDenied);
    crate::auth::error::lemma_oauth_code_name_round_trip(OAuthErrorCode::ExpiredToken);
}

/// Whatever the server asked for, the first wait lasts at least a second.
pub proof fn lemma_initial_interval_at_least_a_second(interval: i64)
    ensures
        initial_interval(interval) >= MIN_POLL_INTERVAL_SECS,
        interval >= MIN_POLL_INTERVAL_SECS ==> initial_interval(interval) == interval,
{
}

} // verus!
