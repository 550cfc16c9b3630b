//! Properties of the token manager, stated over its transition function.
use vstd::prelude::*;
use crate::token::{TokenData, sat_add};
use crate::flow::{
    Action, AuthError, DeviceCodeReply, DeviceSession, Event, Phase, PollReply, PollVerdict, RefreshReply, granted_record,
    next_interval, poll_verdict, populated, refreshed_record, spec_step,
};

verus! {

/// The effect of feeding a sequence of timed events to the manager: the
/// phase it ends in and the actions it asked for, in order.
pub open spec fn run(phase: Phase, events: Seq<(Event, u64)>) -> (Phase, Seq<Action>)
    decreases events.len(),
{
    if events.len() == 0 {
        (phase, Seq::empty())
    } else {
        let (p, a) = spec_step(phase, events[0].0, events[0].1);
        let (q, rest) = run(p, events.drop_first());
        (q, seq![a] + rest)
    }
}

/// The device session a phase holds, if any.
pub open spec fn session_of(p: Phase) -> Option<DeviceSession> {
    match p {
        Phase::Showing { session } => Some(session),
        Phase::Sleeping { session } => Some(session),
        Phase::Polling { session } => Some(session),
        _ => None,
    }
}

/// A stored record whose timestamp has passed, or which holds no token, is
/// never handed back as it stands: the manager goes on to a refresh (where
/// it holds a refresh token) or to the device flow, and asks for no probe.
pub proof fn lemma_expired_record_not_reused(t: TokenData, now: u64)
    requires
        t.expired_at(now) || !t.wf(),
    ensures
        ({
            let (p, a) = spec_step(Phase::Loading, Event::TokenRead(Some(t)), now);
            &&& t.refresh_token is Some ==> p == Phase::Refreshing { refresh_token: t.refresh_token->0 }
                && a == Action::Refresh { refresh_token: t.refresh_token->0 }
            &&& t.refresh_token is None ==> p is Requesting && a is RequestDeviceCode
        }),
{
}

/// A failed liveness probe sends the manager to the refresh path (where the
/// record holds a refresh token) or to the device flow.
pub proof fn lemma_failed_probe_falls_back(t: TokenData, now: u64)
    ensures
        ({
            let (p, a) = spec_step(Phase::Probing { token: t }, Event::ProbeAnswered(false), now);
            &&& t.refresh_token is Some ==> p == Phase::Refreshing { refresh_token: t.refresh_token->0 }
                && a == Action::Refresh { refresh_token: t.refresh_token->0 }
            &&& t.refresh_token is None ==> p is Requesting && a is RequestDeviceCode
        }),
{
}

/// A token is handed back only after a successful live probe of the stored
/// record, or after a freshly obtained record has been written.
pub proof fn lemma_finish_only_after_probe_or_save(phase: Phase, event: Event, now: u64)
    ensures
        ({
            let (p, a) = spec_step(phase, event, now);
            a is Finish ==> p is Finished && (
                (phase is Probing && event == Event::ProbeAnswered(true)
                    && a->Finish_access_token == phase->Probing_token.access_token)
                || ((phase is SavingRefreshed || phase is SavingGrant) && event is Saved
                    && event->Saved_0 is Ok)
            )
        }),
{
}

/// A refresh keeps the refresh token it was made with: the record to be
/// written carries the previous value, whatever the answer held.
pub proof fn lemma_refresh_keeps_refresh_token(previous: String, reply: RefreshReply, now: u64)
    requires
        populated(reply.access_token),
    ensures
        ({
            let (p, a) = spec_step(
                Phase::Refreshing { refresh_token: previous },
                Event::RefreshAnswered(Some(reply)),
                now,
            );
            &&& a is Save
            &&& a->Save_record.refresh_token == Some(previous)
            &&& a->Save_record.access_token == reply.access_token->0
        }),
{
}

/// With a stored record that is still within its lifetime and a probe that
/// succeeds, each of two successive calls asks only to read the record and
/// to probe it once, then returns the stored token: no refresh, no device
/// flow, no write.
pub proof fn lemma_cached_token_reused_twice(
    t: TokenData,
    first: (u64, u64, u64),
    second: (u64, u64, u64),
)
    requires
        t.wf(),
        !t.expired_at(first.1),
        !t.expired_at(second.1),
    ensures
        ({
            let expected = seq![
                Action::ReadToken,
                Action::Probe { access_token: t.access_token },
                Action::Finish { access_token: t.access_token },
            ];
            let one = seq![
                (Event::Begin, first.0),
                (Event::TokenRead(Some(t)), first.1),
                (Event::ProbeAnswered(true), first.2),
            ];
            let two = seq![
                (Event::Begin, second.0),
                (Event::TokenRead(Some(t)), second.1),
                (Event::ProbeAnswered(true), second.2),
            ];
            &&& run(Phase::Start, one) == (Phase::Finished, expected)
            &&& run(Phase::Start, two) == (Phase::Finished, expected)
        }),
{
    lemma_cached_token_reused_once(t, first);
    lemma_cached_token_reused_once(t, second);
}

proof fn lemma_cached_token_reused_once(t: TokenData, times: (u64, u64, u64))
    requires
        t.wf(),
        !t.expired_at(times.1),
    ensures
        run(
            Phase::Start,
            seq![
                (Event::Begin, times.0),
                (Event::TokenRead(Some(t)), times.1),
                (Event::ProbeAnswered(true), times.2),
            ],
        ) == (
            Phase::Finished,
            seq![
                Action::ReadToken,
                Action::Probe { access_token: t.access_token },
                Action::Finish { access_token: t.access_token },
            ],
        ),
{
    let ev = seq![
        (Event::Begin, times.0),
        (Event::TokenRead(Some(t)), times.1),
        (Event::ProbeAnswered(true), times.2),
    ];
    let e1 = ev.drop_first();
    let e2 = e1.drop_first();
    let e3 = e2.drop_first();
    assert(e3.len() == 0);
    assert(run(Phase::Finished, e3) == (Phase::Finished, Seq::<Action>::empty()));
    let r2 = run(Phase::Probing { token: t }, e2);
    assert(r2.1 =~= seq![Action::Finish { access_token: t.access_token }]);
    let r1 = run(Phase::Loading, e1);
    assert(r1.1 =~= seq![
        Action::Probe { access_token: t.access_token },
        Action::Finish { access_token: t.access_token },
    ]);
    assert(run(Phase::Start, ev).1 =~= seq![
        Action::ReadToken,
        Action::Probe { access_token: t.access_token },
        Action::Finish { access_token: t.access_token },
    ]);
}

/// Poll back-off: within a session the poll interval never shrinks, it
/// doubles (saturating) exactly on a `slow_down` answer and is otherwise
/// kept, and every sleep asked for lasts the session's current interval.
pub proof fn lemma_poll_interval_monotone(phase: Phase, event: Event, now: u64)
    requires
        session_of(phase) is Some,
    ensures
        ({
            let (p, a) = spec_step(phase, event, now);
            let s = session_of(phase)->0;
            &&& session_of(p) is Some ==> {
                let s2 = session_of(p)->0;
                &&& s2.interval >= s.interval
                &&& s2.device_code == s.device_code
                &&& s2.deadline == s.deadline
                &&& if phase is Polling && event is PollAnswered && event->PollAnswered_0 is Ok
                    && poll_verdict(event->PollAnswered_0->Ok_0) is SlowDown {
                    s2.interval == sat_add(s.interval, s.interval)
                } else {
                    s2.interval == s.interval
                }
            }
            &&& a is Sleep ==> session_of(p) is Some && a->Sleep_secs == session_of(p)->0.interval
        }),
{
}

/// The sleeps of one session: the first lasts `initial`, and each answer
/// sets the next one.
pub open spec fn sleep_schedule(initial: u64, verdicts: Seq<PollVerdict>) -> Seq<u64>
    decreases verdicts.len(),
{
    if verdicts.len() == 0 {
        seq![initial]
    } else {
        seq![initial] + sleep_schedule(next_interval(initial, verdicts[0]), verdicts.drop_first())
    }
}

/// Over any sequence of answers, the sleeps are non-decreasing, and the one
/// after a `slow_down` is twice (saturating) the one before it, while every
/// other answer keeps it.
pub proof fn lemma_sleep_schedule_monotone(initial: u64, verdicts: Seq<PollVerdict>)
    ensures
        sleep_schedule(initial, verdicts).len() == verdicts.len() + 1,
        forall|i: int|
            0 <= i < verdicts.len() ==> {
                let s = sleep_schedule(initial, verdicts);
                &&& s[i + 1] >= s[i]
                &&& #[trigger] verdicts[i] is SlowDown ==> s[i + 1] == sat_add(s[i], s[i])
                &&& !(verdicts[i] is SlowDown) ==> s[i + 1] == s[i]
            },
    decreases verdicts.len(),
{
    if verdicts.len() > 0 {
        let next = next_interval(initial, verdicts[0]);
        lemma_sleep_schedule_monotone(next, verdicts.drop_first());
        let s = sleep_schedule(initial, verdicts);
        let t = sleep_schedule(next, verdicts.drop_first());
        assert(s == seq![initial] + t);
        assert forall|i: int| 0 <= i < verdicts.len() implies {
            &&& s[i + 1] >= s[i]
            &&& #[trigger] verdicts[i] is SlowDown ==> s[i + 1] == sat_add(s[i], s[i])
            &&& !(verdicts[i] is SlowDown) ==> s[i + 1] == s[i]
        } by {
            if i > 0 {
                assert(verdicts[i] == verdicts.drop_first()[i - 1]);
            }
        }
    }
}

/// Once the clock reaches the device code's expiry, the session ends with
/// `DeviceCodeExpired`: before a sleep, on waking (so no poll is sent), and
/// on any answer but a terminal error, a grant included (so nothing is
/// written).
pub proof fn lemma_expired_session_fails(session: DeviceSession, reply: PollReply, now: u64)
    requires
        now >= session.deadline,
    ensures
        spec_step(Phase::Showing { session }, Event::Shown, now)
            == (Phase::Finished, Action::Fail { error: AuthError::DeviceCodeExpired }),
        spec_step(Phase::Sleeping { session }, Event::Woke, now)
            == (Phase::Finished, Action::Fail { error: AuthError::DeviceCodeExpired }),
        !(poll_verdict(reply) is Denied) ==>
            spec_step(Phase::Polling { session }, Event::PollAnswered(Ok(reply)), now)
                == (Phase::Finished, Action::Fail { error: AuthError::DeviceCodeExpired }),
{
}

/// The phases a call can reach from its start: a record being probed holds
/// a token, and a token awaiting its write is non-empty.
pub open spec fn phase_ok(p: Phase) -> bool {
    match p {
        Phase::Probing { token } => token.wf(),
        Phase::SavingRefreshed { access_token } => access_token@.len() > 0,
        Phase::SavingGrant { access_token } => access_token@.len() > 0,
        _ => true,
    }
}

/// Every step keeps the phase well-formed, never writes a record without a
/// token, and never hands back an empty token.
pub proof fn lemma_returned_token_non_empty(phase: Phase, event: Event, now: u64)
    requires
        phase_ok(phase),
    ensures
        ({
            let (p, a) = spec_step(phase, event, now);
            &&& phase_ok(p)
            &&& a is Save ==> a->Save_record.wf()
            &&& a is Finish ==> a->Finish_access_token@.len() > 0
        }),
{
}

/// A finished call stays finished and asks for nothing more.
pub proof fn lemma_finished_is_final(event: Event, now: u64)
    ensures
        spec_step(Phase::Finished, event, now) == (Phase::Finished, Action::Ignore),
{
}

/// A record is written only after a granting poll answer or a refresh
/// answer that carries a token, and it is the record built from that answer.
pub proof fn lemma_save_only_after_grant_or_refresh(phase: Phase, event: Event, now: u64)
    ensures
        ({
            let (p, a) = spec_step(phase, event, now);
            a is Save ==> (
                (phase is Polling && event is PollAnswered && event->PollAnswered_0 is Ok
                    && poll_verdict(event->PollAnswered_0->Ok_0) is Granted
                    && now < phase->Polling_session.deadline
                    && a->Save_record == granted_record(event->PollAnswered_0->Ok_0, now))
                || (phase is Refreshing && event is RefreshAnswered
                    && event->RefreshAnswered_0 is Some
                    && refreshed_record(phase->Refreshing_refresh_token, event->RefreshAnswered_0->0, now)
                        == Some(a->Save_record))
            )
        }),
{
}

/// An answer that carries an error is not a grant, whatever token it also
/// carries: no record is written nor token returned. Before the deadline,
/// `authorization_pending` and `slow_down` keep the session polling, and
/// any other error ends it as `AuthorizationDenied` with that error's text.
pub proof fn lemma_error_takes_precedence(session: DeviceSession, reply: PollReply, now: u64)
    requires
        reply.error is Some,
    ensures
        !(poll_verdict(reply) is Granted),
        ({
            let (p, a) = spec_step(Phase::Polling { session }, Event::PollAnswered(Ok(reply)), now);
            let e = reply.error->0@;
            &&& !(a is Save) && !(a is Finish)
            &&& now < session.deadline && (e == "authorization_pending"@ || e == "slow_down"@)
                ==> p is Sleeping && a is Sleep
            &&& e != "authorization_pending"@ && e != "slow_down"@ ==> p is Finished
                && a == Action::Fail { error: AuthError::AuthorizationDenied(reply.error->0) }
        }),
{
}

/// Phases after a session from which no sleep can follow.
pub open spec fn after_session(p: Phase) -> bool {
    p is Finished || p is SavingGrant
}

pub open spec fn sleeps_never_shrink(acts: Seq<Action>) -> bool {
    forall|i: int, j: int|
        0 <= i < j < acts.len() && #[trigger] acts[i] is Sleep && #[trigger] acts[j] is Sleep
            ==> acts[i]->Sleep_secs <= acts[j]->Sleep_secs
}

pub open spec fn sleeps_at_least(acts: Seq<Action>, m: u64) -> bool {
    forall|i: int| 0 <= i < acts.len() && #[trigger] acts[i] is Sleep ==> acts[i]->Sleep_secs >= m
}

pub open spec fn no_sleeps(acts: Seq<Action>) -> bool {
    forall|i: int| 0 <= i < acts.len() ==> !(#[trigger] acts[i] is Sleep)
}

proof fn lemma_step_sessions(phase: Phase, event: Event, now: u64)
    ensures
        ({
            let (q, a) = spec_step(phase, event, now);
            &&& session_of(phase) is Some ==> (session_of(q) is Some && session_of(q)->0.interval
                >= session_of(phase)->0.interval) || after_session(q)
            &&& a is Sleep ==> session_of(q) is Some && a->Sleep_secs == session_of(q)->0.interval
            &&& after_session(phase) ==> after_session(q) && !(a is Sleep)
        }),
{
    if session_of(phase) is Some {
        lemma_poll_interval_monotone(phase, event, now);
    }
}

/// Over a whole call, whatever the answers, the sleeps asked for never get
/// shorter; within a session none is shorter than the session's current
/// interval, and once the session has ended no sleep follows.
pub proof fn lemma_sleeps_never_shrink(phase: Phase, events: Seq<(Event, u64)>)
    ensures
        sleeps_never_shrink(run(phase, events).1),
        session_of(phase) is Some ==> sleeps_at_least(run(phase, events).1, session_of(phase)->0.interval),
        after_session(phase) ==> no_sleeps(run(phase, events).1),
    decreases events.len(),
{
    if events.len() > 0 {
        let (q, a) = spec_step(phase, events[0].0, events[0].1);
        let rest_events = events.drop_first();
        lemma_step_sessions(phase, events[0].0, events[0].1);
        lemma_sleeps_never_shrink(q, rest_events);
        let rest = run(q, rest_events).1;
        let acts = run(phase, events).1;
        assert(acts == seq![a] + rest);
        assert forall|k: int| 1 <= k < acts.len() implies acts[k] == rest[k - 1] by {}
        if a is Sleep {
            assert(sleeps_at_least(rest, a->Sleep_secs));
        }
        assert forall|i: int, j: int|
            0 <= i < j < acts.len() && #[trigger] acts[i] is Sleep && #[trigger] acts[j] is Sleep
            implies acts[i]->Sleep_secs <= acts[j]->Sleep_secs by {
            if i == 0 {
                assert(rest[j - 1] is Sleep);
            } else {
                assert(rest[i - 1] is Sleep && rest[j - 1] is Sleep);
            }
        }
        if session_of(phase) is Some {
            let m = session_of(phase)->0.interval;
            assert forall|i: int| 0 <= i < acts.len() && #[trigger] acts[i] is Sleep implies acts[i]->Sleep_secs >= m by {
                if i > 0 {
                    assert(rest[i - 1] is Sleep);
                    if session_of(q) is Some {
                        assert(rest[i - 1]->Sleep_secs >= session_of(q)->0.interval);
                    } else {
                        assert(!(rest[i - 1] is Sleep));
                    }
                }
            }
        }
        if after_session(phase) {
            assert forall|i: int| 0 <= i < acts.len() implies !(#[trigger] acts[i] is Sleep) by {
                if i > 0 {
                    assert(!(rest[i - 1] is Sleep));
                }
            }
        }
    }
}

/// With no stored record, and a clock before the device code's deadline
/// until the grant arrives, a call of `get_access_token` asks to read the
/// record, then for exactly one device code, shows it, sleeps one interval,
/// polls with that device code, writes the granted record and returns its
/// token: no refresh is asked for.
pub proof fn lemma_device_flow_grant(
    d: DeviceCodeReply,
    grant: PollReply,
    times: (u64, u64, u64, u64, u64, u64, u64),
)
    requires
        poll_verdict(grant) is Granted,
        times.3 < sat_add(times.2, d.expires_in),
        times.4 < sat_add(times.2, d.expires_in),
        times.5 < sat_add(times.2, d.expires_in),
    ensures
        ({
            let events = seq![
                (Event::Begin, times.0),
                (Event::TokenRead(None), times.1),
                (Event::DeviceCodeAnswered(Ok(d)), times.2),
                (Event::Shown, times.3),
                (Event::Woke, times.4),
                (Event::PollAnswered(Ok(grant)), times.5),
                (Event::Saved(Ok(())), times.6),
            ];
            let rec = granted_record(grant, times.5);
            run(Phase::Start, events) == (
                Phase::Finished,
                seq![
                    Action::ReadToken,
                    Action::RequestDeviceCode,
                    Action::ShowCode {
                        user_code: d.user_code,
                        verification_url: d.verification_url,
                        verification_url_complete: d.verification_url_complete,
                    },
                    Action::Sleep { secs: d.interval },
                    Action::Poll { device_code: d.device_code },
                    Action::Save { record: rec },
                    Action::Finish { access_token: rec.access_token },
                ],
            )
        }),
{
    let e0 = seq![
        (Event::Begin, times.0),
        (Event::TokenRead(None), times.1),
        (Event::DeviceCodeAnswered(Ok(d)), times.2),
        (Event::Shown, times.3),
        (Event::Woke, times.4),
        (Event::PollAnswered(Ok(grant)), times.5),
        (Event::Saved(Ok(())), times.6),
    ];
    let session = DeviceSession {
        device_code: d.device_code,
        deadline: sat_add(times.2, d.expires_in),
        interval: d.interval,
    };
    let rec = granted_record(grant, times.5);
    let e1 = e0.drop_first();
    let e2 = e1.drop_first();
    let e3 = e2.drop_first();
    let e4 = e3.drop_first();
    let e5 = e4.drop_first();
    let e6 = e5.drop_first();
    let e7 = e6.drop_first();
    assert(e7.len() == 0);
    assert(run(Phase::Finished, e7) == (Phase::Finished, Seq::<Action>::empty()));
    let r6 = run(Phase::SavingGrant { access_token: rec.access_token }, e6);
    assert(r6.1 =~= seq![Action::Finish { access_token: rec.access_token }]);
    let r5 = run(Phase::Polling { session }, e5);
    assert(r5.1 =~= seq![Action::Save { record: rec }, Action::Finish { access_token: rec.access_token }]);
    let r4 = run(Phase::Sleeping { session }, e4);
    assert(r4.1 =~= seq![
        Action::Poll { device_code: d.device_code },
        Action::Save { record: rec },
        Action::Finish { access_token: rec.access_token },
    ]);
    let r3 = run(Phase::Showing { session }, e3);
    assert(r3.1 =~= seq![
        Action::Sleep { secs: d.interval },
        Action::Poll { device_code: d.device_code },
        Action::Save { record: rec },
        Action::Finish { access_token: rec.access_token },
    ]);
    let show = Action::ShowCode {
        user_code: d.user_code,
        verification_url: d.verification_url,
        verification_url_complete: d.verification_url_complete,
    };
    let r2 = run(Phase::Requesting, e2);
    assert(r2.1 =~= seq![
        show,
        Action::Sleep { secs: d.interval },
        Action::Poll { device_code: d.device_code },
        Action::Save { record: rec },
        Action::Finish { access_token: rec.access_token },
    ]);
    let r1 = run(Phase::Loading, e1);
    assert(r1.1 =~= seq![
        Action::RequestDeviceCode,
        show,
        Action::Sleep { secs: d.interval },
        Action::Poll { device_code: d.device_code },
        Action::Save { record: rec },
        Action::Finish { access_token: rec.access_token },
    ]);
    assert(run(Phase::Start, e0).1 =~= seq![
        Action::ReadToken,
        Action::RequestDeviceCode,
        show,
        Action::Sleep { secs: d.interval },
        Action::Poll { device_code: d.device_code },
        Action::Save { record: rec },
        Action::Finish { access_token: rec.access_token },
    ]);
}

} // verus!
