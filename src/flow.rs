//! The device-authorization and token-refresh state machine.
//!
//! The machine performs no I/O. Each call of [`AuthFlow::step`] takes the
//! event that answers the previous action (a file read, a probe, an HTTP
//! reply, a finished sleep) together with the current clock reading in epoch
//! seconds, and returns the next action for the host to perform.
use vstd::prelude::*;
use crate::token::{TokenData, expiry_after, expiry_from, sat_add};

verus! {

/// The failures a caller of the manager can see.
#[derive(Debug, PartialEq, Eq)]
pub enum AuthError {
    /// Client identifier or secret missing at start-up.
    ConfigurationError(String),
    /// The device-code request failed or returned a non-success status.
    DeviceCodeRequestFailed(String),
    /// The user did not approve before the device code expired.
    DeviceCodeExpired,
    /// The token endpoint answered with a terminal error; its text is kept.
    AuthorizationDenied(String),
    /// A network failure while polling.
    TransportError(String),
    /// A refresh attempt did not produce a token.
    RefreshFailed,
    /// The token file could not be written after a grant.
    PersistenceError(String),
}

/// Decoded answer of the refresh grant.
#[derive(Debug, PartialEq, Eq)]
pub struct RefreshReply {
    pub access_token: Option<String>,
    /// Read but never used: the record keeps the refresh token it was refreshed with.
    pub refresh_token: Option<String>,
    pub expires_in: Option<u64>,
}

/// Decoded answer of the device-code endpoint.
#[derive(Debug, PartialEq, Eq)]
pub struct DeviceCodeReply {
    pub device_code: String,
    pub user_code: String,
    pub verification_url: String,
    pub verification_url_complete: Option<String>,
    pub expires_in: u64,
    pub interval: u64,
}

/// Decoded answer of one poll of the token endpoint.
#[derive(Debug, PartialEq, Eq)]
pub struct PollReply {
    pub access_token: Option<String>,
    pub refresh_token: Option<String>,
    pub expires_in: Option<u64>,
    pub error: Option<String>,
}

/// How one poll answer is read.
#[derive(Debug, Clone, Copy, PartialEq, Eq)]
pub enum PollVerdict {
    /// The user has not approved yet.
    Pending,
    /// The server asks for a longer poll interval.
    SlowDown,
    /// A terminal error.
    Denied,
    /// A token was issued.
    Granted,
    /// Neither an error nor a token: keep polling.
    Silent,
}

/// An optional string that is present and non-empty.
pub open spec fn populated(o: Option<String>) -> bool {
    o is Some && o->0@.len() > 0
}

/// An error field, whatever it holds, takes precedence over a token field.
pub open spec fn poll_verdict(r: PollReply) -> PollVerdict {
    if r.error is Some {
        if r.error->0@ == "authorization_pending"@ {
            PollVerdict::Pending
        } else if r.error->0@ == "slow_down"@ {
            PollVerdict::SlowDown
        } else {
            PollVerdict::Denied
        }
    } else if populated(r.access_token) {
        PollVerdict::Granted
    } else {
        PollVerdict::Silent
    }
}

fn populated_exec(o: &Option<String>) -> (r: bool)
    ensures
        r == populated(*o),
{
    match o {
        Some(s) => !s.as_str().is_empty(),
        None => false,
    }
}

fn same_text(s: &String, lit: &str) -> (r: bool)
    ensures
        r == (s@ == lit@),
{
    let t = lit.to_owned();
    *s == t
}

pub fn classify(r: &PollReply) -> (v: PollVerdict)
    ensures
        v == poll_verdict(*r),
{
    if r.error.is_some() {
        let e = r.error.as_ref().unwrap();
        if same_text(e, "authorization_pending") {
            PollVerdict::Pending
        } else if same_text(e, "slow_down") {
            PollVerdict::SlowDown
        } else {
            PollVerdict::Denied
        }
    } else if populated_exec(&r.access_token) {
        PollVerdict::Granted
    } else {
        PollVerdict::Silent
    }
}


/// A refresh answer carrying a usable token gives a record that keeps the
/// refresh token it was obtained with.
pub open spec fn refreshed_record(previous: String, reply: RefreshReply, now: u64) -> Option<TokenData> {
    if populated(reply.access_token) {
        Some(TokenData {
            access_token: reply.access_token->0,
            refresh_token: Some(previous),
            expires_at: expiry_after(now, reply.expires_in),
        })
    } else {
        None
    }
}

/// Builds the record persisted after a successful refresh at `now`.
pub fn record_after_refresh(previous: &String, reply: RefreshReply, now: u64) -> (r: Option<TokenData>)
    ensures
        r == refreshed_record(*previous, reply, now),
{
    if populated_exec(&reply.access_token) {
        let expires_at = expiry_from(now, reply.expires_in);
        Some(TokenData {
            access_token: reply.access_token.unwrap(),
            refresh_token: Some(previous.clone()),
            expires_at,
        })
    } else {
        None
    }
}

/// The record that a granting poll answer yields at `now`.
pub open spec fn granted_record(reply: PollReply, now: u64) -> TokenData {
    TokenData {
        access_token: reply.access_token->0,
        refresh_token: reply.refresh_token,
        expires_at: expiry_after(now, reply.expires_in),
    }
}

/// Builds the record persisted after the device flow is granted.
pub fn record_after_grant(reply: PollReply, now: u64) -> (r: TokenData)
    requires
        reply.access_token is Some,
    ensures
        r == granted_record(reply, now),
{
    let expires_at = expiry_from(now, reply.expires_in);
    TokenData { access_token: reply.access_token.unwrap(), refresh_token: reply.refresh_token, expires_at }
}

/// What one device-flow session polls with.
#[derive(Debug, PartialEq, Eq)]
pub struct DeviceSession {
    pub device_code: String,
    /// Absolute instant (epoch seconds) after which the device code is void.
    pub deadline: u64,
    /// Seconds to sleep before each poll.
    pub interval: u64,
}

/// Where the manager stands between two events.
#[derive(Debug, PartialEq, Eq)]
pub enum Phase {
    /// Start of `get_access_token`: the stored record comes first.
    Start,
    /// Start of `authenticate`: the device flow, unconditionally.
    Fresh,
    /// Waiting for the stored record.
    Loading,
    /// Waiting for the liveness probe of a stored, unexpired record that holds a token.
    Probing { token: TokenData },
    /// Waiting for the refresh grant.
    Refreshing { refresh_token: String },
    /// Waiting for the refreshed record to be written.
    SavingRefreshed { access_token: String },
    /// Waiting for the device-code answer.
    Requesting,
    /// Waiting for the user code to be shown.
    Showing { session: DeviceSession },
    /// Waiting for the poll interval to elapse.
    Sleeping { session: DeviceSession },
    /// Waiting for the answer of a poll.
    Polling { session: DeviceSession },
    /// Waiting for the granted record to be written.
    SavingGrant { access_token: String },
    /// The call has returned or failed.
    Finished,
}

/// What the host reports back.
#[derive(Debug, PartialEq, Eq)]
pub enum Event {
    Begin,
    /// The stored record, or `None` where it is missing or unreadable.
    TokenRead(Option<TokenData>),
    /// Whether the authenticated probe answered with a success status.
    ProbeAnswered(bool),
    /// The refresh answer, or `None` on a transport failure or non-success status.
    RefreshAnswered(Option<RefreshReply>),
    /// The device-code answer, or the failure's text.
    DeviceCodeAnswered(Result<DeviceCodeReply, String>),
    /// The user code and URLs were shown.
    Shown,
    /// The requested sleep has elapsed.
    Woke,
    /// A poll answer, or the transport failure's text.
    PollAnswered(Result<PollReply, String>),
    /// The outcome of writing the record.
    Saved(Result<(), String>),
}

/// What the host is to do next.
#[derive(Debug, PartialEq, Eq)]
pub enum Action {
    ReadToken,
    Probe { access_token: String },
    Refresh { refresh_token: String },
    RequestDeviceCode,
    ShowCode { user_code: String, verification_url: String, verification_url_complete: Option<String> },
    Sleep { secs: u64 },
    Poll { device_code: String },
    Save { record: TokenData },
    /// The call returns this bearer token.
    Finish { access_token: String },
    /// The call fails with this error.
    Fail { error: AuthError },
    /// The event did not answer the pending action; nothing to do.
    Ignore,
}

/// The interval after one poll answer: doubled (saturating) on `slow_down`.
pub open spec fn next_interval(interval: u64, v: PollVerdict) -> u64 {
    if v is SlowDown {
        sat_add(interval, interval)
    } else {
        interval
    }
}

/// The device flow from its first request on.
pub open spec fn request_code() -> (Phase, Action) {
    (Phase::Requesting, Action::RequestDeviceCode)
}

/// A stored record is unusable: refresh where it can, else run the device flow.
pub open spec fn after_invalid(t: TokenData) -> (Phase, Action) {
    match t.refresh_token {
        Some(r) => (Phase::Refreshing { refresh_token: r }, Action::Refresh { refresh_token: r }),
        None => request_code(),
    }
}

/// Before each poll: fail once the deadline is reached, else sleep.
pub open spec fn schedule(session: DeviceSession, now: u64) -> (Phase, Action) {
    if now >= session.deadline {
        (Phase::Finished, Action::Fail { error: AuthError::DeviceCodeExpired })
    } else {
        (Phase::Sleeping { session }, Action::Sleep { secs: session.interval })
    }
}

pub open spec fn on_poll_reply(session: DeviceSession, reply: PollReply, now: u64) -> (Phase, Action) {
    match poll_verdict(reply) {
        PollVerdict::Pending => schedule(session, now),
        PollVerdict::Silent => schedule(session, now),
        PollVerdict::SlowDown => schedule(
            DeviceSession { interval: next_interval(session.interval, PollVerdict::SlowDown), ..session },
            now,
        ),
        PollVerdict::Denied => (
            Phase::Finished,
            Action::Fail { error: AuthError::AuthorizationDenied(reply.error->0) },
        ),
        PollVerdict::Granted => if now >= session.deadline {
            (Phase::Finished, Action::Fail { error: AuthError::DeviceCodeExpired })
        } else {
            let rec = granted_record(reply, now);
            (Phase::SavingGrant { access_token: rec.access_token }, Action::Save { record: rec })
        },
    }
}

/// One transition of the manager.
pub open spec fn spec_step(phase: Phase, event: Event, now: u64) -> (Phase, Action) {
    match (phase, event) {
        (Phase::Start, Event::Begin) => (Phase::Loading, Action::ReadToken),
        (Phase::Fresh, Event::Begin) => request_code(),
        (Phase::Loading, Event::TokenRead(None)) => request_code(),
        (Phase::Loading, Event::TokenRead(Some(t))) => {
            if !t.wf() || t.expired_at(now) {
                after_invalid(t)
            } else {
                (Phase::Probing { token: t }, Action::Probe { access_token: t.access_token })
            }
        },
        (Phase::Probing { token }, Event::ProbeAnswered(ok)) => {
            if ok {
                (Phase::Finished, Action::Finish { access_token: token.access_token })
            } else {
                after_invalid(token)
            }
        },
        (Phase::Refreshing { refresh_token }, Event::RefreshAnswered(reply)) => match reply {
            Some(rep) => match refreshed_record(refresh_token, rep, now) {
                Some(rec) => (
                    Phase::SavingRefreshed { access_token: rec.access_token },
                    Action::Save { record: rec },
                ),
                None => request_code(),
            },
            None => request_code(),
        },
        (Phase::SavingRefreshed { access_token }, Event::Saved(res)) => match res {
            Ok(_) => (Phase::Finished, Action::Finish { access_token }),
            Err(_) => request_code(),
        },
        (Phase::Requesting, Event::DeviceCodeAnswered(res)) => match res {
            Ok(d) => (
                Phase::Showing {
                    session: DeviceSession {
                        device_code: d.device_code,
                        deadline: sat_add(now, d.expires_in),
                        interval: d.interval,
                    },
                },
                Action::ShowCode {
                    user_code: d.user_code,
                    verification_url: d.verification_url,
                    verification_url_complete: d.verification_url_complete,
                },
            ),
            Err(msg) => (
                Phase::Finished,
                Action::Fail { error: AuthError::DeviceCodeRequestFailed(msg) },
            ),
        },
        (Phase::Showing { session }, Event::Shown) => schedule(session, now),
        (Phase::Sleeping { session }, Event::Woke) => if now >= session.deadline {
            (Phase::Finished, Action::Fail { error: AuthError::DeviceCodeExpired })
        } else {
            (Phase::Polling { session }, Action::Poll { device_code: session.device_code })
        },
        (Phase::Polling { session }, Event::PollAnswered(res)) => match res {
            Ok(reply) => on_poll_reply(session, reply, now),
            Err(msg) => (Phase::Finished, Action::Fail { error: AuthError::TransportError(msg) }),
        },
        (Phase::SavingGrant { access_token }, Event::Saved(res)) => match res {
            Ok(_) => (Phase::Finished, Action::Finish { access_token }),
            Err(msg) => (Phase::Finished, Action::Fail { error: AuthError::PersistenceError(msg) }),
        },
        (p, _) => (p, Action::Ignore),
    }
}

fn exec_after_invalid(t: TokenData) -> (r: (Phase, Action))
    ensures
        r == after_invalid(t),
{
    match t.refresh_token {
        Some(r) => {
            let a = r.clone();
            (Phase::Refreshing { refresh_token: r }, Action::Refresh { refresh_token: a })
        },
        None => (Phase::Requesting, Action::RequestDeviceCode),
    }
}

fn exec_schedule(session: DeviceSession, now: u64) -> (r: (Phase, Action))
    ensures
        r == schedule(session, now),
{
    if now >= session.deadline {
        (Phase::Finished, Action::Fail { error: AuthError::DeviceCodeExpired })
    } else {
        let secs = session.interval;
        (Phase::Sleeping { session }, Action::Sleep { secs })
    }
}

fn exec_on_poll_reply(session: DeviceSession, reply: PollReply, now: u64) -> (r: (Phase, Action))
    ensures
        r == on_poll_reply(session, reply, now),
{
    match classify(&reply) {
        PollVerdict::Pending => exec_schedule(session, now),
        PollVerdict::Silent => exec_schedule(session, now),
        PollVerdict::SlowDown => {
            let interval = session.interval.saturating_add(session.interval);
            exec_schedule(DeviceSession { interval, ..session }, now)
        },
        PollVerdict::Denied => {
            let msg = reply.error.unwrap();
            (Phase::Finished, Action::Fail { error: AuthError::AuthorizationDenied(msg) })
        },
        PollVerdict::Granted => {
            if now >= session.deadline {
                return (Phase::Finished, Action::Fail { error: AuthError::DeviceCodeExpired });
            }
            let rec = record_after_grant(reply, now);
            let access_token = rec.access_token.clone();
            (Phase::SavingGrant { access_token }, Action::Save { record: rec })
        },
    }
}

/// Computes one transition of the manager.
pub fn next(phase: Phase, event: Event, now: u64) -> (r: (Phase, Action))
    ensures
        r == spec_step(phase, event, now),
{
    match (phase, event) {
        (Phase::Start, Event::Begin) => (Phase::Loading, Action::ReadToken),
        (Phase::Fresh, Event::Begin) => (Phase::Requesting, Action::RequestDeviceCode),
        (Phase::Loading, Event::TokenRead(None)) => (Phase::Requesting, Action::RequestDeviceCode),
        (Phase::Loading, Event::TokenRead(Some(t))) => {
            if !t.is_well_formed() || t.is_expired(now) {
                exec_after_invalid(t)
            } else {
                let a = t.access_token.clone();
                (Phase::Probing { token: t }, Action::Probe { access_token: a })
            }
        },
        (Phase::Probing { token }, Event::ProbeAnswered(ok)) => {
            if ok {
                (Phase::Finished, Action::Finish { access_token: token.access_token })
            } else {
                exec_after_invalid(token)
            }
        },
        (Phase::Refreshing { refresh_token }, Event::RefreshAnswered(reply)) => match reply {
            Some(rep) => match record_after_refresh(&refresh_token, rep, now) {
                Some(rec) => {
                    let access_token = rec.access_token.clone();
                    (Phase::SavingRefreshed { access_token }, Action::Save { record: rec })
                },
                None => (Phase::Requesting, Action::RequestDeviceCode),
            },
            None => (Phase::Requesting, Action::RequestDeviceCode),
        },
        (Phase::SavingRefreshed { access_token }, Event::Saved(res)) => match res {
            Ok(_) => (Phase::Finished, Action::Finish { access_token }),
            Err(_) => (Phase::Requesting, Action::RequestDeviceCode),
        },
        (Phase::Requesting, Event::DeviceCodeAnswered(res)) => match res {
            Ok(d) => {
                let deadline = now.saturating_add(d.expires_in);
                (
                    Phase::Showing {
                        session: DeviceSession { device_code: d.device_code, deadline, interval: d.interval },
                    },
                    Action::ShowCode {
                        user_code: d.user_code,
                        verification_url: d.verification_url,
                        verification_url_complete: d.verification_url_complete,
                    },
                )
            },
            Err(msg) => (Phase::Finished, Action::Fail { error: AuthError::DeviceCodeRequestFailed(msg) }),
        },
        (Phase::Showing { session }, Event::Shown) => exec_schedule(session, now),
        (Phase::Sleeping { session }, Event::Woke) => {
            if now >= session.deadline {
                return (Phase::Finished, Action::Fail { error: AuthError::DeviceCodeExpired });
            }
            let device_code = session.device_code.clone();
            (Phase::Polling { session }, Action::Poll { device_code })
        },
        (Phase::Polling { session }, Event::PollAnswered(res)) => match res {
            Ok(reply) => exec_on_poll_reply(session, reply, now),
            Err(msg) => (Phase::Finished, Action::Fail { error: AuthError::TransportError(msg) }),
        },
        (Phase::SavingGrant { access_token }, Event::Saved(res)) => match res {
            Ok(_) => (Phase::Finished, Action::Finish { access_token }),
            Err(msg) => (Phase::Finished, Action::Fail { error: AuthError::PersistenceError(msg) }),
        },
        (p, _) => (p, Action::Ignore),
    }
}

} // verus!
