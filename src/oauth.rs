use vstd::prelude::*;

use crate::config::LlmProvider;
use crate::error::{AuthFailure, Y2mdError};
use crate::http::{HttpMethod, HttpRequest};
use crate::json::{json_is_valid, json_quote, json_string_literal, json_text_at, json_text_at_of, json_u64_at, json_u64_at_of, json_valid};
use crate::secret_store::opt_view;
use crate::strings::{concat, concat3};

verus! {

/// A token is refreshed once it expires within this many seconds.
pub const REFRESH_THRESHOLD_SECS: u64 = 300;

/// The number of polls of the token endpoint before the flow gives up.
pub const MAX_POLL_ATTEMPTS: u64 = 120;

/// The polling interval when the authorization server names none.
pub const DEFAULT_POLL_INTERVAL_SECS: u64 = 5;

/// The extra wait after the server asks the client to slow down.
pub const SLOW_DOWN_EXTRA_SECS: u64 = 5;

/// Relies on SystemTime::now, read as whole seconds since the Unix epoch
/// (0 for a clock set before the epoch). Nothing is known of the value.
#[verifier::external_body]
pub(crate) fn unix_now() -> (r: u64) {
    match std::time::SystemTime::now().duration_since(std::time::UNIX_EPOCH) {
        Ok(d) => d.as_secs(),
        Err(_) => 0,
    }
}

/// A bearer credential with an optional expiry (seconds since the Unix
/// epoch) and an optional refresh token. Without an expiry it never expires.
#[derive(Clone, Debug, PartialEq, Eq)]
pub struct OAuthToken {
    pub access_token: String,
    pub refresh_token: Option<String>,
    pub expires_at: Option<u64>,
    pub token_type: String,
}

impl OAuthToken {
    /// At time `now` the token has expired.
    pub open spec fn expired_at(&self, now: u64) -> bool {
        match self.expires_at {
            Some(e) => now >= e,
            None => false,
        }
    }

    /// At time `now` the token expires within the refresh threshold.
    pub open spec fn refresh_due_at(&self, now: u64) -> bool {
        match self.expires_at {
            Some(e) => now + REFRESH_THRESHOLD_SECS >= e,
            None => false,
        }
    }

    pub fn is_expired_at(&self, now: u64) -> (r: bool)
        ensures
            r == self.expired_at(now),
    {
        match self.expires_at {
            Some(e) => now >= e,
            None => false,
        }
    }

    pub fn needs_refresh_at(&self, now: u64) -> (r: bool)
        ensures
            r == self.refresh_due_at(now),
    {
        match self.expires_at {
            Some(e) => now as u128 + REFRESH_THRESHOLD_SECS as u128 >= e as u128,
            None => false,
        }
    }

    /// Whether the token has expired by the system clock; a token without
    /// an expiry never has.
    pub fn is_expired(&self) -> (r: bool)
        ensures
            self.expires_at is None ==> !r,
            exists|now: u64| r == self.expired_at(now),
    {
        let now = unix_now();
        self.is_expired_at(now)
    }

    /// Whether the token expires within the refresh threshold by the system
    /// clock; a token without an expiry never needs a refresh.
    pub fn needs_refresh(&self) -> (r: bool)
        ensures
            self.expires_at is None ==> !r,
            exists|now: u64| r == self.refresh_due_at(now),
    {
        let now = unix_now();
        self.needs_refresh_at(now)
    }
}

/// A token whose expiry is at or before `now` has expired at `now`; a token
/// without an expiry never expires.
pub proof fn lemma_expiry(t: OAuthToken, now: u64)
    ensures
        (t.expires_at matches Some(e) && e <= now) ==> t.expired_at(now),
        t.expires_at is None ==> forall|n: u64| !t.expired_at(n),
{
}

/// A token that expires within the refresh threshold of `now` (200 seconds
/// ahead, say) needs a refresh; one that expires later (4000 seconds ahead,
/// say) does not.
pub proof fn lemma_refresh_threshold(t: OAuthToken, now: u64)
    ensures
        (t.expires_at matches Some(e) && e <= now + REFRESH_THRESHOLD_SECS) ==> t.refresh_due_at(now),
        (t.expires_at matches Some(e) && e > now + REFRESH_THRESHOLD_SECS) ==> !t.refresh_due_at(now),
        t.expires_at is None ==> !t.refresh_due_at(now),
{
}

/// The fields of a successful token response.
#[derive(Clone, Debug, PartialEq, Eq)]
pub struct TokenGrant {
    pub access_token: String,
    pub refresh_token: Option<String>,
    pub expires_in: Option<u64>,
    pub token_type: Option<String>,
}

/// `now + secs`, capped at the largest `u64`.
pub open spec fn expiry_from(now: u64, secs: u64) -> u64 {
    if now + secs > u64::MAX { u64::MAX } else { (now + secs) as u64 }
}

/// `t` is the token that grant `g`, received at time `now`, gives.
pub open spec fn token_of_grant(t: OAuthToken, g: TokenGrant, now: u64) -> bool {
    &&& t.access_token == g.access_token
    &&& t.refresh_token == g.refresh_token
    &&& t.expires_at == (match g.expires_in {
        Some(s) => Some(expiry_from(now, s)),
        None => None::<u64>,
    })
    &&& (match g.token_type {
        Some(k) => t.token_type == k,
        None => t.token_type@ == "Bearer"@,
    })
}

/// The token that a grant received at time `now` gives.
pub fn token_from_grant(grant: TokenGrant, now: u64) -> (r: OAuthToken)
    ensures
        token_of_grant(r, grant, now),
{
    let expires_at = match grant.expires_in {
        Some(s) => if s > u64::MAX - now { Some(u64::MAX) } else { Some(now + s) },
        None => None,
    };
    let token_type = match grant.token_type {
        Some(t) => t,
        None => "Bearer".to_owned(),
    };
    OAuthToken {
        access_token: grant.access_token,
        refresh_token: grant.refresh_token,
        expires_at,
        token_type,
    }
}

/// How one answer of the token endpoint is classified.
#[derive(Clone, Debug, PartialEq, Eq)]
pub enum PollOutcome {
    Granted(TokenGrant),
    Pending,
    SlowDown,
    Expired,
    Denied,
    Unknown(String),
}

pub open spec fn missing_access_token_message() -> Seq<char> {
    "Missing access_token in response"@
}

/// `r` classifies an answer of the token endpoint with the given status and
/// fields: a success with an access token grants it, one without is a
/// configuration error; a failure is classified by its error code.
pub open spec fn classified(
    success: bool,
    access_token: Option<Seq<char>>,
    refresh_token: Option<Seq<char>>,
    expires_in: Option<u64>,
    token_type: Option<Seq<char>>,
    error: Option<Seq<char>>,
    r: Result<PollOutcome, Y2mdError>,
) -> bool {
    if success {
        match access_token {
            Some(a) => r matches Ok(PollOutcome::Granted(g)) && g.access_token@ == a && opt_view(g.refresh_token)
                == refresh_token && g.expires_in == expires_in && opt_view(g.token_type) == token_type,
            None => r matches Err(Y2mdError::Config(m)) && m@ == missing_access_token_message(),
        }
    } else {
        match error {
            Some(e) => if e == "authorization_pending"@ {
                r == Ok::<PollOutcome, Y2mdError>(PollOutcome::Pending)
            } else if e == "slow_down"@ {
                r == Ok::<PollOutcome, Y2mdError>(PollOutcome::SlowDown)
            } else if e == "expired_token"@ {
                r == Ok::<PollOutcome, Y2mdError>(PollOutcome::Expired)
            } else if e == "access_denied"@ {
                r == Ok::<PollOutcome, Y2mdError>(PollOutcome::Denied)
            } else {
                r matches Ok(PollOutcome::Unknown(c)) && c@ == e
            },
            None => r matches Ok(PollOutcome::Unknown(c)) && c@ == "unknown_error"@,
        }
    }
}

/// Classifies an answer of the token endpoint from its status and fields.
pub fn classify_token_response(
    success: bool,
    access_token: Option<String>,
    refresh_token: Option<String>,
    expires_in: Option<u64>,
    token_type: Option<String>,
    error: Option<String>,
) -> (r: Result<PollOutcome, Y2mdError>)
    ensures
        classified(
            success,
            opt_view(access_token),
            opt_view(refresh_token),
            expires_in,
            opt_view(token_type),
            opt_view(error),
            r,
        ),
        success ==> match access_token {
            Some(a) => r matches Ok(PollOutcome::Granted(g)) && g == (TokenGrant {
                access_token: a,
                refresh_token,
                expires_in,
                token_type,
            }),
            None => r matches Err(Y2mdError::Config(m)) && m@ == missing_access_token_message(),
        },
        !success ==> match error {
            Some(e) => {
                &&& e@ == "authorization_pending"@ ==> r == Ok::<PollOutcome, Y2mdError>(PollOutcome::Pending)
                &&& e@ == "slow_down"@ ==> r == Ok::<PollOutcome, Y2mdError>(PollOutcome::SlowDown)
                &&& e@ == "expired_token"@ ==> r == Ok::<PollOutcome, Y2mdError>(PollOutcome::Expired)
                &&& e@ == "access_denied"@ ==> r == Ok::<PollOutcome, Y2mdError>(PollOutcome::Denied)
                &&& (e@ != "authorization_pending"@ && e@ != "slow_down"@ && e@ != "expired_token"@
                    && e@ != "access_denied"@) ==> r == Ok::<PollOutcome, Y2mdError>(PollOutcome::Unknown(e))
            },
            None => r matches Ok(PollOutcome::Unknown(c)) && c@ == "unknown_error"@,
        },
{
    if success {
        match access_token {
            Some(a) => Ok(PollOutcome::Granted(TokenGrant {
                access_token: a,
                refresh_token,
                expires_in,
                token_type,
            })),
            None => Err(Y2mdError::Config("Missing access_token in response".to_owned())),
        }
    } else {
        proof {
            reveal_strlit("authorization_pending");
            reveal_strlit("slow_down");
            reveal_strlit("expired_token");
            reveal_strlit("access_denied");
            assert("authorization_pending"@.len() != "slow_down"@.len());
            assert("authorization_pending"@.len() != "expired_token"@.len());
            assert("authorization_pending"@.len() != "access_denied"@.len());
            assert("slow_down"@.len() != "expired_token"@.len());
            assert("slow_down"@.len() != "access_denied"@.len());
            assert("expired_token"@[0] != "access_denied"@[0]);
        }
        match error {
            Some(e) => {
                if e == "authorization_pending".to_owned() {
                    Ok(PollOutcome::Pending)
                } else if e == "slow_down".to_owned() {
                    Ok(PollOutcome::SlowDown)
                } else if e == "expired_token".to_owned() {
                    Ok(PollOutcome::Expired)
                } else if e == "access_denied".to_owned() {
                    Ok(PollOutcome::Denied)
                } else {
                    Ok(PollOutcome::Unknown(e))
                }
            },
            None => Ok(PollOutcome::Unknown("unknown_error".to_owned())),
        }
    }
}

/// Reads an answer of the token endpoint: a body that is not JSON is a
/// configuration error; otherwise its members are classified.
pub fn read_token_reply(success: bool, body: &str) -> (r: Result<PollOutcome, Y2mdError>)
    ensures
        !json_valid(body@) ==> (r matches Err(Y2mdError::Config(m)) && m@ == (if success {
            "Failed to parse token response"@
        } else {
            "Failed to parse error response"@
        })),
        json_valid(body@) ==> classified(
            success,
            json_text_at_of(body@, "/access_token"@),
            json_text_at_of(body@, "/refresh_token"@),
            json_u64_at_of(body@, "/expires_in"@),
            json_text_at_of(body@, "/token_type"@),
            json_text_at_of(body@, "/error"@),
            r,
        ),
{
    if !json_is_valid(body) {
        if success {
            return Err(Y2mdError::Config("Failed to parse token response".to_owned()));
        } else {
            return Err(Y2mdError::Config("Failed to parse error response".to_owned()));
        }
    }
    classify_token_response(
        success,
        json_text_at(body, "/access_token"),
        json_text_at(body, "/refresh_token"),
        json_u64_at(body, "/expires_in"),
        json_text_at(body, "/token_type"),
        json_text_at(body, "/error"),
    )
}

/// What the caller of the polling loop does next.
#[derive(Debug, PartialEq, Eq)]
pub enum PollStep {
    /// Wait this many seconds, then send the token request and report its outcome.
    Wait(u64),
    /// The flow is over.
    Done(Result<OAuthToken, Y2mdError>),
}

/// The state of the polling loop of a device-code authorization.
#[derive(Clone, Debug, PartialEq, Eq)]
pub struct DevicePoll {
    pub attempts: u64,
    pub max_attempts: u64,
    pub interval: u64,
}

/// The step that a poll state with `attempts` polls spent calls for,
/// waiting `wait` seconds when budget is left.
pub open spec fn budget_step(attempts: u64, max_attempts: u64, wait: u64) -> PollStep {
    if attempts >= max_attempts {
        PollStep::Done(Err(Y2mdError::Authorization(AuthFailure::Timeout)))
    } else {
        PollStep::Wait(wait)
    }
}

/// The state after `n` answers that the authorization is still pending.
pub open spec fn after_pending(p: DevicePoll, n: nat) -> DevicePoll
    decreases n,
{
    if n == 0 {
        p
    } else {
        let q = after_pending(p, (n - 1) as nat);
        DevicePoll { attempts: (q.attempts + 1) as u64, ..q }
    }
}

impl DevicePoll {
    pub open spec fn wf(&self) -> bool {
        self.attempts <= self.max_attempts
    }

    /// A fresh loop with the server's interval (or the default) and the budget.
    pub fn new(interval: Option<u64>, max_attempts: u64) -> (r: DevicePoll)
        ensures
            r.attempts == 0,
            r.max_attempts == max_attempts,
            r.interval == (match interval {
                Some(i) => i,
                None => DEFAULT_POLL_INTERVAL_SECS,
            }),
            r.wf(),
    {
        let interval = match interval {
            Some(i) => i,
            None => DEFAULT_POLL_INTERVAL_SECS,
        };
        DevicePoll { attempts: 0, max_attempts, interval }
    }

    /// The first step: wait one interval, or time out at once with no budget.
    pub fn first_step(&self) -> (r: PollStep)
        ensures
            r == budget_step(self.attempts, self.max_attempts, self.interval),
    {
        self.next_step(self.interval)
    }

    fn next_step(&self, wait: u64) -> (r: PollStep)
        ensures
            r == budget_step(self.attempts, self.max_attempts, wait),
    {
        if self.attempts >= self.max_attempts {
            PollStep::Done(Err(Y2mdError::Authorization(AuthFailure::Timeout)))
        } else {
            PollStep::Wait(wait)
        }
    }

    /// Takes the classified answer of one poll, received at time `now`.
    /// A pending answer spends one attempt and waits again; slowing down
    /// spends one and waits longer; a token or a terminal error ends the flow.
    pub fn advance(&mut self, outcome: PollOutcome, now: u64) -> (r: PollStep)
        requires
            old(self).wf(),
            old(self).attempts < old(self).max_attempts,
        ensures
            final(self).wf(),
            final(self).max_attempts == old(self).max_attempts,
            final(self).interval == old(self).interval,
            match outcome {
                PollOutcome::Granted(g) => {
                    &&& *final(self) == *old(self)
                    &&& r matches PollStep::Done(Ok(t)) && token_of_grant(t, g, now)
                },
                PollOutcome::Pending => {
                    &&& final(self).attempts == old(self).attempts + 1
                    &&& r == budget_step(final(self).attempts, final(self).max_attempts, final(self).interval)
                },
                PollOutcome::SlowDown => {
                    &&& final(self).attempts == old(self).attempts + 1
                    &&& r == budget_step(
                        final(self).attempts,
                        final(self).max_attempts,
                        if old(self).interval > u64::MAX - SLOW_DOWN_EXTRA_SECS {
                            u64::MAX
                        } else {
                            (old(self).interval + SLOW_DOWN_EXTRA_SECS) as u64
                        },
                    )
                },
                PollOutcome::Expired => {
                    &&& *final(self) == *old(self)
                    &&& r == PollStep::Done(Err(Y2mdError::Authorization(AuthFailure::Expired)))
                },
                PollOutcome::Denied => {
                    &&& *final(self) == *old(self)
                    &&& r == PollStep::Done(Err(Y2mdError::Authorization(AuthFailure::Denied)))
                },
                PollOutcome::Unknown(c) => {
                    &&& *final(self) == *old(self)
                    &&& r == PollStep::Done(Err(Y2mdError::Authorization(AuthFailure::Unknown(c))))
                },
            },
    {
        match outcome {
            PollOutcome::Granted(g) => PollStep::Done(Ok(token_from_grant(g, now))),
            PollOutcome::Pending => {
                self.attempts = self.attempts + 1;
                self.next_step(self.interval)
            },
            PollOutcome::SlowDown => {
                self.attempts = self.attempts + 1;
                let wait = if self.interval > u64::MAX - SLOW_DOWN_EXTRA_SECS {
                    u64::MAX
                } else {
                    self.interval + SLOW_DOWN_EXTRA_SECS
                };
                self.next_step(wait)
            },
            PollOutcome::Expired => PollStep::Done(Err(Y2mdError::Authorization(AuthFailure::Expired))),
            PollOutcome::Denied => PollStep::Done(Err(Y2mdError::Authorization(AuthFailure::Denied))),
            PollOutcome::Unknown(c) => PollStep::Done(Err(Y2mdError::Authorization(AuthFailure::Unknown(c)))),
        }
    }
}

/// Polling that hears "authorization pending" at every attempt cannot go on
/// for ever: each such answer spends one attempt and the loop waits again
/// while budget is left; once the budget is spent it ends in a timeout.
pub proof fn lemma_pending_polls_time_out(p: DevicePoll, n: nat)
    requires
        p.wf(),
        n <= p.max_attempts - p.attempts,
    ensures
        after_pending(p, n).attempts == p.attempts + n,
        after_pending(p, n).max_attempts == p.max_attempts,
        after_pending(p, n).interval == p.interval,
        after_pending(p, n).wf(),
        n < p.max_attempts - p.attempts ==> budget_step(
            after_pending(p, n).attempts,
            p.max_attempts,
            p.interval,
        ) == PollStep::Wait(p.interval),
        n == p.max_attempts - p.attempts ==> budget_step(
            after_pending(p, n).attempts,
            p.max_attempts,
            p.interval,
        ) == PollStep::Done(Err(Y2mdError::Authorization(AuthFailure::Timeout))),
    decreases n,
{
    if n > 0 {
        lemma_pending_polls_time_out(p, (n - 1) as nat);
    }
}

/// One pending answer moves the loop exactly as `after_pending` counts it.
pub proof fn lemma_pending_step(p: DevicePoll, n: nat)
    requires
        p.wf(),
        n < p.max_attempts - p.attempts,
    ensures
        after_pending(p, n + 1) == (DevicePoll {
            attempts: (after_pending(p, n).attempts + 1) as u64,
            ..after_pending(p, n)
        }),
        after_pending(p, n).attempts < after_pending(p, n).max_attempts,
{
    lemma_pending_polls_time_out(p, n);
}

/// What the device-authorization endpoint handed out.
#[derive(Clone, Debug, PartialEq, Eq)]
pub struct DeviceAuthorization {
    pub device_code: String,
    pub user_code: String,
    pub verification_uri: String,
    /// The polling interval in seconds.
    pub interval: u64,
}

pub open spec fn missing_field_message(field: Seq<char>) -> Seq<char> {
    "Missing "@ + field + " in response"@
}

/// `r` assembles a device authorization from these fields: a missing code
/// or address is a configuration error, a missing interval the default one.
pub open spec fn device_fields_result(
    user_code: Option<Seq<char>>,
    verification_uri: Option<Seq<char>>,
    device_code: Option<Seq<char>>,
    interval: Option<u64>,
    r: Result<DeviceAuthorization, Y2mdError>,
) -> bool {
    if user_code is None {
        r matches Err(Y2mdError::Config(m)) && m@ == missing_field_message("user_code"@)
    } else if verification_uri is None {
        r matches Err(Y2mdError::Config(m)) && m@ == missing_field_message("verification_uri"@)
    } else if device_code is None {
        r matches Err(Y2mdError::Config(m)) && m@ == missing_field_message("device_code"@)
    } else {
        r matches Ok(a) && a.user_code@ == user_code->0 && a.verification_uri@ == verification_uri->0
            && a.device_code@ == device_code->0 && a.interval == (match interval {
            Some(i) => i,
            None => DEFAULT_POLL_INTERVAL_SECS,
        })
    }
}

/// Assembles a device authorization from the fields of the endpoint's answer;
/// a missing code or address is a configuration error, a missing interval
/// is the default one.
pub fn device_authorization_from_fields(
    user_code: Option<String>,
    verification_uri: Option<String>,
    device_code: Option<String>,
    interval: Option<u64>,
) -> (r: Result<DeviceAuthorization, Y2mdError>)
    ensures
        device_fields_result(opt_view(user_code), opt_view(verification_uri), opt_view(device_code), interval, r),
        user_code is None ==> (r matches Err(Y2mdError::Config(m)) && m@ == missing_field_message(
            "user_code"@,
        )),
        user_code is Some && verification_uri is None ==> (r matches Err(Y2mdError::Config(m)) && m@
            == missing_field_message("verification_uri"@)),
        user_code is Some && verification_uri is Some && device_code is None ==> (r matches Err(
            Y2mdError::Config(m),
        ) && m@ == missing_field_message("device_code"@)),
        (user_code is Some && verification_uri is Some && device_code is Some) ==> r == Ok::<
            DeviceAuthorization,
            Y2mdError,
        >(
            DeviceAuthorization {
                device_code: device_code->0,
                user_code: user_code->0,
                verification_uri: verification_uri->0,
                interval: match interval {
                    Some(i) => i,
                    None => DEFAULT_POLL_INTERVAL_SECS,
                },
            },
        ),
{
    let user_code = match user_code {
        Some(u) => u,
        None => return Err(Y2mdError::Config(missing_field("user_code"))),
    };
    let verification_uri = match verification_uri {
        Some(v) => v,
        None => return Err(Y2mdError::Config(missing_field("verification_uri"))),
    };
    let device_code = match device_code {
        Some(d) => d,
        None => return Err(Y2mdError::Config(missing_field("device_code"))),
    };
    let interval = match interval {
        Some(i) => i,
        None => DEFAULT_POLL_INTERVAL_SECS,
    };
    Ok(DeviceAuthorization { device_code, user_code, verification_uri, interval })
}

fn missing_field(field: &str) -> (r: String)
    ensures
        r@ == missing_field_message(field@),
{
    concat3("Missing ", field, " in response")
}

pub open spec fn device_code_body(client_id: Seq<char>) -> Seq<char> {
    "{\"client_id\":"@ + json_string_literal(client_id)
        + ",\"scope\":\"openid profile email offline_access\",\"audience\":\"https://api.openai.com/v1\"}"@
}

pub open spec fn token_poll_body(client_id: Seq<char>, device_code: Seq<char>) -> Seq<char> {
    "{\"client_id\":"@ + json_string_literal(client_id) + ",\"device_code\":"@ + json_string_literal(
        device_code,
    ) + ",\"grant_type\":\"urn:ietf:params:oauth:grant-type:device_code\"}"@
}

pub open spec fn oauth_unsupported_message(kind: LlmProvider) -> Seq<char> {
    "OAuth not supported for provider type: "@ + kind.spec_name()
}

pub open spec fn anthropic_device_flow_message() -> Seq<char> {
    "Anthropic OAuth device code flow not yet implemented. Please use API key authentication."@
}

/// Runs the device-code authorization grant, one request at a time: it
/// builds the requests and reads the answers, and its caller sends them.
#[derive(Clone, Debug, PartialEq, Eq)]
pub struct OAuthManager {
    pub max_attempts: u64,
}

impl OAuthManager {
    pub fn new() -> (r: Self)
        ensures
            r.max_attempts == MAX_POLL_ATTEMPTS,
    {
        OAuthManager { max_attempts: MAX_POLL_ATTEMPTS }
    }

    /// The request that opens the flow for a provider kind; kinds without
    /// the grant fail at once with a configuration error that names them.
    pub fn device_code_flow(&self, provider_type: &LlmProvider, client_id: &str) -> (r: Result<
        HttpRequest,
        Y2mdError,
    >)
        ensures
            *provider_type == LlmProvider::OpenAI ==> (r matches Ok(q) && q.method == HttpMethod::Post
                && q.url@ == "https://auth0.openai.com/oauth/device/code"@ && q.headers@.len() == 0
                && q.body is Some && q.body->0@ == device_code_body(client_id@)),
            *provider_type == LlmProvider::Anthropic ==> (r matches Err(Y2mdError::Config(m)) && m@
                == anthropic_device_flow_message()),
            !(*provider_type == LlmProvider::OpenAI || *provider_type == LlmProvider::Anthropic) ==> (
            r matches Err(Y2mdError::Config(m)) && m@ == oauth_unsupported_message(*provider_type)),
    {
        match provider_type {
            LlmProvider::OpenAI => {
                let q = json_quote(client_id);
                let body = concat3(
                    "{\"client_id\":",
                    q.as_str(),
                    ",\"scope\":\"openid profile email offline_access\",\"audience\":\"https://api.openai.com/v1\"}",
                );
                Ok(HttpRequest {
                    method: HttpMethod::Post,
                    url: "https://auth0.openai.com/oauth/device/code".to_owned(),
                    headers: Vec::new(),
                    body: Some(body),
                    timeout_secs: None,
                })
            },
            LlmProvider::Anthropic => Err(
                Y2mdError::Config(
                    "Anthropic OAuth device code flow not yet implemented. Please use API key authentication.".to_owned(),
                ),
            ),
            _ => {
                let name = provider_type.name();
                Err(Y2mdError::Config(concat("OAuth not supported for provider type: ", name.as_str())))
            },
        }
    }

    /// Reads the answer of the device-authorization endpoint.
    pub fn read_device_authorization(&self, success: bool, body: &str) -> (r: Result<
        DeviceAuthorization,
        Y2mdError,
    >)
        ensures
            !success ==> (r matches Err(Y2mdError::Config(m)) && m@ == "Failed to get device code: "@
                + body@),
            success && !json_valid(body@) ==> (r matches Err(Y2mdError::Config(m)) && m@
                == "Failed to parse device code response"@),
            success && json_valid(body@) ==> device_fields_result(
                json_text_at_of(body@, "/user_code"@),
                json_text_at_of(body@, "/verification_uri"@),
                json_text_at_of(body@, "/device_code"@),
                json_u64_at_of(body@, "/interval"@),
                r,
            ),
    {
        if !success {
            return Err(Y2mdError::Config(concat("Failed to get device code: ", body)));
        }
        if !json_is_valid(body) {
            return Err(Y2mdError::Config("Failed to parse device code response".to_owned()));
        }
        device_authorization_from_fields(
            json_text_at(body, "/user_code"),
            json_text_at(body, "/verification_uri"),
            json_text_at(body, "/device_code"),
            json_u64_at(body, "/interval"),
        )
    }

    /// The polling loop for an authorization, with this manager's budget.
    pub fn start_polling(&self, auth: &DeviceAuthorization) -> (r: DevicePoll)
        ensures
            r.attempts == 0,
            r.max_attempts == self.max_attempts,
            r.interval == auth.interval,
            r.wf(),
    {
        DevicePoll::new(Some(auth.interval), self.max_attempts)
    }

    /// The request that polls the token endpoint once.
    pub fn token_request(&self, client_id: &str, device_code: &str) -> (r: HttpRequest)
        ensures
            r.method == HttpMethod::Post,
            r.url@ == "https://auth0.openai.com/oauth/token"@,
            r.headers@.len() == 0,
            r.body matches Some(b) && b@ == token_poll_body(client_id@, device_code@),
    {
        let c = json_quote(client_id);
        let d = json_quote(device_code);
        let head = concat3("{\"client_id\":", c.as_str(), ",\"device_code\":");
        let body = concat3(
            head.as_str(),
            d.as_str(),
            ",\"grant_type\":\"urn:ietf:params:oauth:grant-type:device_code\"}",
        );
        HttpRequest {
            method: HttpMethod::Post,
            url: "https://auth0.openai.com/oauth/token".to_owned(),
            headers: Vec::new(),
            body: Some(body),
            timeout_secs: None,
        }
    }
}

} // verus!
