use std::time::{SystemTime, UNIX_EPOCH};

use y2md::oauth::{classify_token_response, read_token_reply, token_from_grant, MAX_POLL_ATTEMPTS};
use y2md::{
    AuthFailure, DevicePoll, HttpMethod, LlmProvider, OAuthManager, OAuthToken, PollOutcome, PollStep, TokenGrant,
    Y2mdError,
};

fn now() -> u64 {
    SystemTime::now().duration_since(UNIX_EPOCH).unwrap().as_secs()
}

fn token(expires_at: Option<u64>) -> OAuthToken {
    OAuthToken {
        access_token: "a".to_string(),
        refresh_token: None,
        expires_at,
        token_type: "Bearer".to_string(),
    }
}

#[test]
fn expiry() {
    assert!(token(Some(now() - 10)).is_expired());
    assert!(!token(None).is_expired());
    assert!(!token(Some(now() + 1000)).is_expired());
    assert!(token(Some(100)).is_expired_at(100));
    assert!(!token(Some(100)).is_expired_at(99));
    assert!(!token(None).is_expired_at(u64::MAX));
}

#[test]
fn refresh_threshold() {
    assert!(token(Some(now() + 200)).needs_refresh());
    assert!(!token(Some(now() + 4000)).needs_refresh());
    assert!(!token(None).needs_refresh());
    assert!(token(Some(1300)).needs_refresh_at(1000));
    assert!(!token(Some(1301)).needs_refresh_at(1000));
    assert!(token(Some(10)).needs_refresh_at(0));
}

#[test]
fn pending_until_budget_exhausted_times_out() {
    let mut poll = DevicePoll::new(Some(5), MAX_POLL_ATTEMPTS);
    assert_eq!(poll.first_step(), PollStep::Wait(5));
    let mut polls = 1;
    loop {
        match poll.advance(PollOutcome::Pending, 0) {
            PollStep::Wait(s) => {
                assert_eq!(s, 5);
                polls += 1;
            }
            PollStep::Done(r) => {
                assert_eq!(r, Err(Y2mdError::Authorization(AuthFailure::Timeout)));
                break;
            }
        }
        assert!(polls <= MAX_POLL_ATTEMPTS);
    }
    assert_eq!(polls, MAX_POLL_ATTEMPTS);
    assert_eq!(poll.attempts, MAX_POLL_ATTEMPTS);
}

#[test]
fn denied_ends_at_once() {
    let mut poll = DevicePoll::new(None, MAX_POLL_ATTEMPTS);
    assert_eq!(poll.interval, 5);
    let before = poll.clone();
    assert_eq!(
        poll.advance(PollOutcome::Denied, 0),
        PollStep::Done(Err(Y2mdError::Authorization(AuthFailure::Denied)))
    );
    assert_eq!(poll, before);
}

#[test]
fn other_outcomes() {
    let mut poll = DevicePoll::new(Some(7), 3);
    assert_eq!(poll.advance(PollOutcome::SlowDown, 0), PollStep::Wait(12));
    assert_eq!(
        poll.advance(PollOutcome::Expired, 0),
        PollStep::Done(Err(Y2mdError::Authorization(AuthFailure::Expired)))
    );
    assert_eq!(
        poll.advance(PollOutcome::Unknown("boom".to_string()), 0),
        PollStep::Done(Err(Y2mdError::Authorization(AuthFailure::Unknown("boom".to_string()))))
    );
    let grant = TokenGrant {
        access_token: "at".to_string(),
        refresh_token: Some("rt".to_string()),
        expires_in: Some(3600),
        token_type: None,
    };
    match poll.advance(PollOutcome::Granted(grant), 1000) {
        PollStep::Done(Ok(t)) => {
            assert_eq!(t.access_token, "at");
            assert_eq!(t.refresh_token, Some("rt".to_string()));
            assert_eq!(t.expires_at, Some(4600));
            assert_eq!(t.token_type, "Bearer");
        }
        other => panic!("unexpected {:?}", other),
    }
    assert_eq!(DevicePoll::new(Some(5), 0).first_step(), PollStep::Done(Err(Y2mdError::Authorization(AuthFailure::Timeout))));
}

#[test]
fn expiry_saturates() {
    let grant = TokenGrant {
        access_token: "a".to_string(),
        refresh_token: None,
        expires_in: Some(u64::MAX),
        token_type: Some("mac".to_string()),
    };
    let t = token_from_grant(grant, 10);
    assert_eq!(t.expires_at, Some(u64::MAX));
    assert_eq!(t.token_type, "mac");
}

#[test]
fn classification() {
    let c = |e: &str| classify_token_response(false, None, None, None, None, Some(e.to_string())).unwrap();
    assert_eq!(c("authorization_pending"), PollOutcome::Pending);
    assert_eq!(c("slow_down"), PollOutcome::SlowDown);
    assert_eq!(c("expired_token"), PollOutcome::Expired);
    assert_eq!(c("access_denied"), PollOutcome::Denied);
    assert_eq!(c("weird"), PollOutcome::Unknown("weird".to_string()));
    assert_eq!(
        classify_token_response(false, None, None, None, None, None).unwrap(),
        PollOutcome::Unknown("unknown_error".to_string())
    );
    assert_eq!(
        classify_token_response(true, None, None, None, None, None),
        Err(Y2mdError::Config("Missing access_token in response".to_string()))
    );
}

#[test]
fn token_replies_from_json() {
    assert_eq!(
        read_token_reply(false, "{\"error\":\"authorization_pending\"}").unwrap(),
        PollOutcome::Pending
    );
    assert_eq!(read_token_reply(false, "{\"error\":\"access_denied\"}").unwrap(), PollOutcome::Denied);
    match read_token_reply(true, "{\"access_token\":\"x\",\"expires_in\":60,\"token_type\":\"Bearer\"}").unwrap() {
        PollOutcome::Granted(g) => {
            assert_eq!(g.access_token, "x");
            assert_eq!(g.expires_in, Some(60));
            assert_eq!(g.token_type, Some("Bearer".to_string()));
            assert_eq!(g.refresh_token, None);
        }
        other => panic!("unexpected {:?}", other),
    }
    assert_eq!(
        read_token_reply(true, "oops"),
        Err(Y2mdError::Config("Failed to parse token response".to_string()))
    );
}

#[test]
fn device_flow_requests() {
    let m = OAuthManager::new();
    assert_eq!(m.max_attempts, 120);
    let q = m.device_code_flow(&LlmProvider::OpenAI, "cli\"ent").unwrap();
    assert_eq!(q.method, HttpMethod::Post);
    assert_eq!(q.url, "https://auth0.openai.com/oauth/device/code");
    assert_eq!(
        q.body.unwrap(),
        "{\"client_id\":\"cli\\\"ent\",\"scope\":\"openid profile email offline_access\",\"audience\":\"https://api.openai.com/v1\"}"
    );
    assert_eq!(
        m.device_code_flow(&LlmProvider::Ollama, "c"),
        Err(Y2mdError::Config("OAuth not supported for provider type: ollama".to_string()))
    );
    assert!(m.device_code_flow(&LlmProvider::Anthropic, "c").is_err());
    let t = m.token_request("c", "dev");
    assert_eq!(t.url, "https://auth0.openai.com/oauth/token");
    assert_eq!(
        t.body.unwrap(),
        "{\"client_id\":\"c\",\"device_code\":\"dev\",\"grant_type\":\"urn:ietf:params:oauth:grant-type:device_code\"}"
    );
}

#[test]
fn device_authorization_reading() {
    let m = OAuthManager::new();
    let a = m
        .read_device_authorization(
            true,
            "{\"device_code\":\"d\",\"user_code\":\"U-1\",\"verification_uri\":\"https://v\"}",
        )
        .unwrap();
    assert_eq!(a.device_code, "d");
    assert_eq!(a.user_code, "U-1");
    assert_eq!(a.verification_uri, "https://v");
    assert_eq!(a.interval, 5);
    let p = m.start_polling(&a);
    assert_eq!(p.max_attempts, 120);
    assert_eq!(
        m.read_device_authorization(true, "{\"user_code\":\"U\",\"verification_uri\":\"v\",\"interval\":9}"),
        Err(Y2mdError::Config("Missing device_code in response".to_string()))
    );
    assert_eq!(
        m.read_device_authorization(false, "nope"),
        Err(Y2mdError::Config("Failed to get device code: nope".to_string()))
    );
}
