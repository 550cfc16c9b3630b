use rustyoutube::auth::{AuthClient, AuthFlow, DEVICE_GRANT, REFRESH_GRANT, SCOPE};
use rustyoutube::flow::{
    classify, record_after_refresh, Action, AuthError, DeviceCodeReply, Event, Phase, PollReply,
    PollVerdict, RefreshReply,
};
use rustyoutube::token::{expiry_from, TokenData};

fn client() -> AuthClient {
    AuthClient::new("cid".to_string(), "secret".to_string()).ok().unwrap()
}

fn device_reply(expires_in: u64, interval: u64) -> DeviceCodeReply {
    DeviceCodeReply {
        device_code: "dev-123".to_string(),
        user_code: "ABCD-EFGH".to_string(),
        verification_url: "https://www.google.com/device".to_string(),
        verification_url_complete: None,
        expires_in,
        interval,
    }
}

fn pending() -> PollReply {
    PollReply { access_token: None, refresh_token: None, expires_in: None, error: Some("authorization_pending".to_string()) }
}

fn slow_down() -> PollReply {
    PollReply { access_token: None, refresh_token: None, expires_in: None, error: Some("slow_down".to_string()) }
}

fn granted(token: &str, refresh: Option<&str>, expires_in: Option<u64>) -> PollReply {
    PollReply {
        access_token: Some(token.to_string()),
        refresh_token: refresh.map(|r| r.to_string()),
        expires_in,
        error: None,
    }
}

fn record(access: &str, refresh: Option<&str>, expires_at: Option<u64>) -> TokenData {
    TokenData { access_token: access.to_string(), refresh_token: refresh.map(|r| r.to_string()), expires_at }
}

fn is_oauth_call(a: &Action) -> bool {
    matches!(a, Action::Refresh { .. } | Action::RequestDeviceCode | Action::Poll { .. })
}

/// Drives a device flow from the device-code answer on, feeding the poll
/// answers in order and waking at once; returns every action and the sleeps.
fn drive_polls(flow: &mut AuthFlow, start: u64, replies: Vec<PollReply>) -> (Vec<Action>, Vec<u64>) {
    let mut actions = Vec::new();
    let mut sleeps = Vec::new();
    let mut now = start;
    let mut a = flow.step(Event::Shown, now);
    let mut replies = replies.into_iter();
    loop {
        match a {
            Action::Sleep { secs } => {
                sleeps.push(secs);
                now += secs;
                actions.push(Action::Sleep { secs });
                a = flow.step(Event::Woke, now);
            }
            Action::Poll { device_code } => {
                actions.push(Action::Poll { device_code });
                match replies.next() {
                    Some(r) => a = flow.step(Event::PollAnswered(Ok(r)), now),
                    None => return (actions, sleeps),
                }
            }
            other => {
                actions.push(other);
                return (actions, sleeps);
            }
        }
    }
}

#[test]
fn scenario_no_token_file_runs_device_flow() {
    let c = client();
    let mut flow = c.get_access_token();
    assert_eq!(flow.step(Event::Begin, 1000), Action::ReadToken);
    assert_eq!(flow.step(Event::TokenRead(None), 1000), Action::RequestDeviceCode);
    let show = flow.step(Event::DeviceCodeAnswered(Ok(device_reply(1800, 5))), 1000);
    assert_eq!(
        show,
        Action::ShowCode {
            user_code: "ABCD-EFGH".to_string(),
            verification_url: "https://www.google.com/device".to_string(),
            verification_url_complete: None,
        }
    );
    let (actions, sleeps) = drive_polls(&mut flow, 1000, vec![pending(), granted("tok-A", Some("ref-A"), Some(3600))]);
    assert_eq!(sleeps, vec![5, 5]);
    assert_eq!(actions.last().unwrap(), &Action::Save { record: record("tok-A", Some("ref-A"), Some(1010 + 3600)) });
    assert_eq!(flow.step(Event::Saved(Ok(())), 1011), Action::Finish { access_token: "tok-A".to_string() });
    assert!(flow.is_finished());
}

#[test]
fn scenario_valid_cached_token_makes_no_oauth_call() {
    let c = client();
    let mut flow = c.get_access_token();
    let mut actions = vec![flow.step(Event::Begin, 50)];
    actions.push(flow.step(Event::TokenRead(Some(record("cached", Some("r"), Some(u64::MAX - 1)))), 50));
    actions.push(flow.step(Event::ProbeAnswered(true), 51));
    assert_eq!(
        actions,
        vec![
            Action::ReadToken,
            Action::Probe { access_token: "cached".to_string() },
            Action::Finish { access_token: "cached".to_string() },
        ]
    );
    assert!(!actions.iter().any(is_oauth_call));
}

#[test]
fn scenario_expired_token_is_refreshed() {
    let c = client();
    let mut flow = c.get_access_token();
    let mut actions = vec![flow.step(Event::Begin, 500)];
    actions.push(flow.step(Event::TokenRead(Some(record("old", Some("ref-C"), Some(100)))), 500));
    assert_eq!(actions[1], Action::Refresh { refresh_token: "ref-C".to_string() });
    let reply = RefreshReply { access_token: Some("fresh".to_string()), refresh_token: None, expires_in: Some(3600) };
    actions.push(flow.step(Event::RefreshAnswered(Some(reply)), 500));
    assert_eq!(actions[2], Action::Save { record: record("fresh", Some("ref-C"), Some(4100)) });
    actions.push(flow.step(Event::Saved(Ok(())), 501));
    assert_eq!(actions[3], Action::Finish { access_token: "fresh".to_string() });
    assert!(!actions.iter().any(|a| matches!(a, Action::RequestDeviceCode | Action::Poll { .. })));
}

#[test]
fn expired_record_is_not_probed_and_goes_to_device_flow() {
    let c = client();
    let mut flow = c.get_access_token();
    flow.step(Event::Begin, 10);
    let a = flow.step(Event::TokenRead(Some(record("stale", None, Some(10)))), 10);
    assert_eq!(a, Action::RequestDeviceCode);
}

#[test]
fn failed_probe_falls_back_to_refresh() {
    let c = client();
    let mut flow = c.get_access_token();
    flow.step(Event::Begin, 10);
    let a = flow.step(Event::TokenRead(Some(record("live?", Some("rt"), None))), 10);
    assert_eq!(a, Action::Probe { access_token: "live?".to_string() });
    assert_eq!(flow.step(Event::ProbeAnswered(false), 11), Action::Refresh { refresh_token: "rt".to_string() });
}

#[test]
fn failed_probe_without_refresh_token_runs_device_flow() {
    let c = client();
    let mut flow = c.get_access_token();
    flow.step(Event::Begin, 10);
    flow.step(Event::TokenRead(Some(record("live?", None, Some(20)))), 10);
    assert_eq!(flow.step(Event::ProbeAnswered(false), 11), Action::RequestDeviceCode);
}

#[test]
fn refresh_keeps_previous_refresh_token() {
    let prev = "keep-me".to_string();
    let omitted = RefreshReply { access_token: Some("a1".to_string()), refresh_token: None, expires_in: None };
    assert_eq!(record_after_refresh(&prev, omitted, 7), Some(record("a1", Some("keep-me"), None)));
    let reissued =
        RefreshReply { access_token: Some("a2".to_string()), refresh_token: Some("other".to_string()), expires_in: Some(60) };
    assert_eq!(record_after_refresh(&prev, reissued, 7), Some(record("a2", Some("keep-me"), Some(67))));
    let empty = RefreshReply { access_token: Some(String::new()), refresh_token: None, expires_in: None };
    assert_eq!(record_after_refresh(&prev, empty, 7), None);
}

#[test]
fn refresh_failure_falls_back_to_device_flow() {
    let c = client();
    let mut flow = c.get_access_token();
    flow.step(Event::Begin, 10);
    flow.step(Event::TokenRead(Some(record("x", Some("rt"), Some(1)))), 10);
    assert_eq!(flow.step(Event::RefreshAnswered(None), 10), Action::RequestDeviceCode);

    let mut flow = c.get_access_token();
    flow.step(Event::Begin, 10);
    flow.step(Event::TokenRead(Some(record("x", Some("rt"), Some(1)))), 10);
    let no_token = RefreshReply { access_token: None, refresh_token: None, expires_in: Some(5) };
    assert_eq!(flow.step(Event::RefreshAnswered(Some(no_token)), 10), Action::RequestDeviceCode);
}

#[test]
fn refresh_write_failure_falls_back_to_device_flow() {
    let c = client();
    let mut flow = c.get_access_token();
    flow.step(Event::Begin, 10);
    flow.step(Event::TokenRead(Some(record("x", Some("rt"), Some(1)))), 10);
    let reply = RefreshReply { access_token: Some("n".to_string()), refresh_token: None, expires_in: None };
    flow.step(Event::RefreshAnswered(Some(reply)), 10);
    assert_eq!(flow.step(Event::Saved(Err("disk full".to_string())), 10), Action::RequestDeviceCode);
}

#[test]
fn two_calls_with_valid_token_probe_once_each() {
    let c = client();
    for round in 0..2u64 {
        let mut flow = c.get_access_token();
        let mut actions = vec![flow.step(Event::Begin, 100 + round)];
        actions.push(flow.step(Event::TokenRead(Some(record("t", Some("r"), Some(1000)))), 100 + round));
        actions.push(flow.step(Event::ProbeAnswered(true), 100 + round));
        assert_eq!(actions.iter().filter(|a| matches!(a, Action::Probe { .. })).count(), 1);
        assert!(!actions.iter().any(is_oauth_call));
        assert!(!actions.iter().any(|a| matches!(a, Action::Save { .. })));
        assert_eq!(actions[2], Action::Finish { access_token: "t".to_string() });
    }
}

#[test]
fn poll_backoff_doubles_after_slow_down() {
    let c = client();
    let mut flow = c.authenticate();
    assert_eq!(flow.step(Event::Begin, 0), Action::RequestDeviceCode);
    flow.step(Event::DeviceCodeAnswered(Ok(device_reply(10_000, 5))), 0);
    let replies = vec![pending(), pending(), slow_down(), pending(), granted("tok", None, None)];
    let (actions, sleeps) = drive_polls(&mut flow, 0, replies);
    assert_eq!(sleeps, vec![5, 5, 5, 10, 10]);
    assert!(sleeps.windows(2).all(|w| w[0] <= w[1]));
    assert_eq!(actions.last().unwrap(), &Action::Save { record: record("tok", None, None) });
}

#[test]
fn poll_interval_doubling_saturates() {
    let c = client();
    let mut flow = c.authenticate();
    flow.step(Event::Begin, 0);
    flow.step(Event::DeviceCodeAnswered(Ok(device_reply(u64::MAX, u64::MAX / 2 + 1))), 0);
    assert_eq!(flow.step(Event::Shown, 0), Action::Sleep { secs: u64::MAX / 2 + 1 });
    flow.step(Event::Woke, 1);
    assert_eq!(flow.step(Event::PollAnswered(Ok(slow_down())), 1), Action::Sleep { secs: u64::MAX });
}

#[test]
fn device_code_expiry_ends_the_session_without_a_write() {
    let c = client();
    let mut flow = c.authenticate();
    flow.step(Event::Begin, 0);
    flow.step(Event::DeviceCodeAnswered(Ok(device_reply(10, 5))), 0);
    let (actions, sleeps) = drive_polls(&mut flow, 0, vec![pending(), pending(), granted("late", None, None)]);
    assert_eq!(sleeps, vec![5, 5]);
    assert_eq!(actions.last().unwrap(), &Action::Fail { error: AuthError::DeviceCodeExpired });
    assert!(!actions.iter().any(|a| matches!(a, Action::Save { .. })));
    assert!(flow.is_finished());
    assert_eq!(flow.step(Event::PollAnswered(Ok(granted("late", None, None))), 11), Action::Ignore);
}

#[test]
fn device_code_expired_before_first_poll() {
    let c = client();
    let mut flow = c.authenticate();
    flow.step(Event::Begin, 0);
    flow.step(Event::DeviceCodeAnswered(Ok(device_reply(0, 5))), 100);
    assert_eq!(flow.step(Event::Shown, 100), Action::Fail { error: AuthError::DeviceCodeExpired });
}

#[test]
fn error_field_wins_over_access_token() {
    let both_pending = PollReply {
        access_token: Some("sneaky".to_string()),
        refresh_token: None,
        expires_in: Some(10),
        error: Some("authorization_pending".to_string()),
    };
    assert_eq!(classify(&both_pending), PollVerdict::Pending);
    let c = client();
    let mut flow = c.authenticate();
    flow.step(Event::Begin, 0);
    flow.step(Event::DeviceCodeAnswered(Ok(device_reply(100, 5))), 0);
    flow.step(Event::Shown, 0);
    flow.step(Event::Woke, 5);
    assert_eq!(flow.step(Event::PollAnswered(Ok(both_pending)), 5), Action::Sleep { secs: 5 });
    flow.step(Event::Woke, 10);
    let both_denied = PollReply {
        access_token: Some("sneaky".to_string()),
        refresh_token: None,
        expires_in: None,
        error: Some("access_denied".to_string()),
    };
    assert_eq!(
        flow.step(Event::PollAnswered(Ok(both_denied)), 10),
        Action::Fail { error: AuthError::AuthorizationDenied("access_denied".to_string()) }
    );
}

#[test]
fn classify_reads_each_kind_of_answer() {
    assert_eq!(classify(&slow_down()), PollVerdict::SlowDown);
    assert_eq!(classify(&granted("x", None, None)), PollVerdict::Granted);
    let silent = PollReply { access_token: None, refresh_token: None, expires_in: None, error: None };
    assert_eq!(classify(&silent), PollVerdict::Silent);
    let empty_error = PollReply { access_token: Some("x".to_string()), refresh_token: None, expires_in: None, error: Some(String::new()) };
    assert_eq!(classify(&empty_error), PollVerdict::Denied);
    let denied = PollReply { access_token: None, refresh_token: None, expires_in: None, error: Some("expired_token".to_string()) };
    assert_eq!(classify(&denied), PollVerdict::Denied);
}

#[test]
fn device_code_request_failure_is_reported() {
    let c = client();
    let mut flow = c.authenticate();
    flow.step(Event::Begin, 0);
    assert_eq!(
        flow.step(Event::DeviceCodeAnswered(Err("invalid_client".to_string())), 0),
        Action::Fail { error: AuthError::DeviceCodeRequestFailed("invalid_client".to_string()) }
    );
}

#[test]
fn transport_failure_while_polling_is_fatal() {
    let c = client();
    let mut flow = c.authenticate();
    flow.step(Event::Begin, 0);
    flow.step(Event::DeviceCodeAnswered(Ok(device_reply(100, 1))), 0);
    flow.step(Event::Shown, 0);
    assert_eq!(flow.step(Event::Woke, 1), Action::Poll { device_code: "dev-123".to_string() });
    assert_eq!(
        flow.step(Event::PollAnswered(Err("connection reset".to_string())), 1),
        Action::Fail { error: AuthError::TransportError("connection reset".to_string()) }
    );
}

#[test]
fn grant_write_failure_is_reported() {
    let c = client();
    let mut flow = c.authenticate();
    flow.step(Event::Begin, 0);
    flow.step(Event::DeviceCodeAnswered(Ok(device_reply(100, 1))), 0);
    flow.step(Event::Shown, 0);
    flow.step(Event::Woke, 1);
    flow.step(Event::PollAnswered(Ok(granted("g", None, Some(5)))), 1);
    assert_eq!(
        flow.step(Event::Saved(Err("read-only".to_string())), 1),
        Action::Fail { error: AuthError::PersistenceError("read-only".to_string()) }
    );
}

#[test]
fn unexpected_event_is_ignored() {
    let c = client();
    let mut flow = c.get_access_token();
    assert_eq!(flow.step(Event::Woke, 0), Action::Ignore);
    assert_eq!(flow.phase, Phase::Start);
}

#[test]
fn credentials_must_be_present() {
    assert!(matches!(AuthClient::new(String::new(), "s".to_string()), Err(AuthError::ConfigurationError(_))));
    assert!(matches!(AuthClient::new("c".to_string(), String::new()), Err(AuthError::ConfigurationError(_))));
    assert!(AuthClient::new("c".to_string(), "s".to_string()).is_ok());
}

#[test]
fn request_forms_are_exact() {
    let c = client();
    let pair = |a: &str, b: &str| (a.to_string(), b.to_string());
    assert_eq!(c.device_code_form(), vec![pair("client_id", "cid"), pair("scope", SCOPE)]);
    assert_eq!(
        c.poll_form("dev"),
        vec![pair("client_id", "cid"), pair("client_secret", "secret"), pair("device_code", "dev"), pair("grant_type", DEVICE_GRANT)]
    );
    assert_eq!(
        c.refresh_form("rt"),
        vec![pair("client_id", "cid"), pair("client_secret", "secret"), pair("refresh_token", "rt"), pair("grant_type", REFRESH_GRANT)]
    );
}

#[test]
fn expiry_is_now_plus_lifetime() {
    assert_eq!(expiry_from(100, Some(3600)), Some(3700));
    assert_eq!(expiry_from(100, None), None);
    assert_eq!(expiry_from(u64::MAX - 1, Some(10)), Some(u64::MAX));
    assert!(record("a", None, Some(10)).is_expired(10));
    assert!(!record("a", None, Some(10)).is_expired(9));
    assert!(!record("a", None, None).is_expired(u64::MAX));
}

#[test]
fn waking_after_the_deadline_sends_no_poll() {
    let c = client();
    let mut flow = c.authenticate();
    flow.step(Event::Begin, 0);
    flow.step(Event::DeviceCodeAnswered(Ok(device_reply(10, 5))), 0);
    assert_eq!(flow.step(Event::Shown, 8), Action::Sleep { secs: 5 });
    assert_eq!(flow.step(Event::Woke, 13), Action::Fail { error: AuthError::DeviceCodeExpired });
    assert!(flow.is_finished());
}

#[test]
fn grant_arriving_after_the_deadline_is_not_saved() {
    let c = client();
    let mut flow = c.authenticate();
    flow.step(Event::Begin, 0);
    flow.step(Event::DeviceCodeAnswered(Ok(device_reply(10, 5))), 0);
    flow.step(Event::Shown, 4);
    assert_eq!(flow.step(Event::Woke, 9), Action::Poll { device_code: "dev-123".to_string() });
    assert_eq!(
        flow.step(Event::PollAnswered(Ok(granted("late", None, Some(60)))), 10),
        Action::Fail { error: AuthError::DeviceCodeExpired }
    );
    assert_eq!(flow.step(Event::Saved(Ok(())), 10), Action::Ignore);
}

#[test]
fn empty_error_with_token_is_denied() {
    let c = client();
    let mut flow = c.authenticate();
    flow.step(Event::Begin, 0);
    flow.step(Event::DeviceCodeAnswered(Ok(device_reply(100, 5))), 0);
    flow.step(Event::Shown, 0);
    flow.step(Event::Woke, 5);
    let reply = PollReply { access_token: Some("t".to_string()), refresh_token: None, expires_in: None, error: Some(String::new()) };
    assert_eq!(
        flow.step(Event::PollAnswered(Ok(reply)), 5),
        Action::Fail { error: AuthError::AuthorizationDenied(String::new()) }
    );
}

#[test]
fn stored_record_without_token_is_not_probed() {
    let c = client();
    let mut flow = c.get_access_token();
    flow.step(Event::Begin, 10);
    assert_eq!(flow.step(Event::TokenRead(Some(record("", Some("rt"), None))), 10), Action::Refresh { refresh_token: "rt".to_string() });
    let mut flow = c.get_access_token();
    flow.step(Event::Begin, 10);
    assert_eq!(flow.step(Event::TokenRead(Some(record("", None, None))), 10), Action::RequestDeviceCode);
}
