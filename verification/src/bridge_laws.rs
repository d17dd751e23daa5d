//! What holds of the bridge, whatever events come in.
use crate::formula::operator_tree;
use crate::requests::{
    auth_request, authenticates, creates, status_request, Pending, RequestData,
};
use crate::session_laws::lemma_filter_first;
use crate::text::{decimal, law_decimal_round_trip, parsed_unsigned};
use crate::tracking::{
    bound, evaluation_context, frame_context, injects, law_missing_variables_are_zero, Outcome,
    TrackingResponce,
};
use crate::transform::{all_build, creation_requests, formulas_of, CalcFn};
use crate::vtspc::{
    authentications, away, creations, effect_of, elapsed, queue_after, reauthenticated, stepped,
    token_after, Action, Bridge, Effect, Event, Phase, Received, Reply, Step, VtsPc, SECOND,
};
use vstd::prelude::*;

verus! {

/// Is this the event that the phase waits for?
pub open spec fn awaited(phase: Phase, event: Event) -> bool {
    match phase {
        Phase::Idle | Phase::Connecting(_) | Phase::Ready => event is Active,
        Phase::Dialing(_) => event is Dialed,
        Phase::Discovering(_) => event is Discovered,
        Phase::Opening => event is Opened,
        Phase::Sending | Phase::Injecting => event is Sent,
        Phase::Polling => event is Polled,
        Phase::Evaluating => event is Evaluated,
        Phase::Reading => event is Received,
        Phase::Stopped => false,
    }
}

/// Is this the action that the phase's event is the answer to?
pub open spec fn asked(phase: Phase, action: Action) -> bool {
    match phase {
        Phase::Idle | Phase::Connecting(_) | Phase::Ready => action is CheckActive,
        Phase::Dialing(_) => action is Dial,
        Phase::Discovering(_) => action is Discover,
        Phase::Opening => action is Open,
        Phase::Sending => action is Send,
        Phase::Injecting => action is Inject,
        Phase::Polling => action is Poll,
        Phase::Evaluating => action is Evaluate,
        Phase::Reading => action is Read,
        Phase::Stopped => action is Stop,
    }
}

/// Does the request authenticate with a token?
pub open spec fn presents_token(request: Pending) -> bool {
    request.data matches Some(data) && data is Auth
}

/// Only the first request of a queue presents a token, and that is the token of the session.
pub open spec fn presents_current_token(queue: Seq<Pending>, token: Option<String>) -> bool {
    &&& forall|i: int| 1 <= i < queue.len() ==> !presents_token(#[trigger] queue[i])
    &&& queue.len() > 0 && presents_token(queue[0]) ==> token is Some && queue[0] == auth_request(
        token,
    )
}

/// Requests wait in the queue only while one of them is being sent, and tracking data is dealt
/// with only while none waits; no request presents another token than that of the session; the
/// face is reported lost only where that is wanted; the formulas are what their trees say.
pub open spec fn invariant_holds(bridge: Bridge) -> bool {
    &&& presents_current_token(bridge.queue, bridge.token)
    &&& bridge.phase is Sending ==> bridge.queue.len() > 0 && !bridge.dont_send
    &&& bridge.phase is Polling || bridge.phase is Evaluating || bridge.phase is Injecting
        ==> bridge.queue.len() == 0 && !bridge.dont_send
    &&& bridge.afk_active ==> bridge.afk.enabled
    &&& forall|i: int| 0 <= i < bridge.formulas.len() ==> (#[trigger] bridge.formulas[i]).wf()
}

/// Every step keeps the invariant, and the settings of the bridge.
pub proof fn law_invariant_is_kept(before: Bridge, event: Event, after: Bridge, step: Step)
    requires
        invariant_holds(before),
        stepped(before, event, after, step),
    ensures
        invariant_holds(after),
        after.port == before.port,
        after.mirror == before.mirror,
        after.afk == before.afk,
{
    match event {
        Event::Received(Received::Reply(reply)) => {
            lemma_reply_keeps_token_current(reply, before.queue, before.token);
        },
        Event::Opened { entries: Some(entries), .. } => {
            let queue = seq![status_request()] + creation_requests(entries@);
            assert forall|i: int| 0 <= i < queue.len() implies !presents_token(
                #[trigger] queue[i],
            ) by {
                assert(i > 0 ==> queue[i] == creation_requests(entries@)[i - 1]);
            }
        },
        _ => {},
    }
}

/// A reply leaves a queue in which only the first request can present a token, that of the
/// session.
proof fn lemma_reply_keeps_token_current(reply: Reply, queue: Seq<Pending>, token: Option<String>)
    requires
        presents_current_token(queue, token),
    ensures
        presents_current_token(queue_after(reply, queue, token), token_after(reply, token)),
{
    if let Reply::APIError(error) = reply {
        if error.error_id == 8 || error.error_id == 51 {
            lemma_reauthentication_keeps_token_current(queue, token);
        }
    }
}

proof fn lemma_reauthentication_keeps_token_current(queue: Seq<Pending>, token: Option<String>)
    requires
        presents_current_token(queue, token),
    ensures
        presents_current_token(reauthenticated(queue, token), token),
{
    let asks = |request: Pending| authenticates(request);
    let makes = |request: Pending| creates(request);
    let asked = authentications(queue);
    let parameters = creations(queue);
    assert forall|i: int| 0 <= i < parameters.len() implies !presents_token(
        #[trigger] parameters[i],
    ) by {
        queue.lemma_filter_pred(makes, i);
        assert(makes(queue.filter(makes)[i]));
    }
    if queue.len() > 0 {
        let rest = queue.drop_first();
        lemma_filter_first(queue, asks);
        assert forall|request: Pending| #[trigger]
            rest.filter(asks).contains(request) implies !presents_token(request) by {
            rest.lemma_filter_contains_rev(asks, request);
            let i = choose|i: int| 0 <= i < rest.len() && rest[i] == request;
            assert(queue[i + 1] == request);
        }
        assert forall|i: int| 1 <= i < asked.len() implies !presents_token(#[trigger] asked[i]) by {
            if asks(queue[0]) {
                assert(asked[i] == rest.filter(asks)[i - 1]);
                assert(rest.filter(asks).contains(rest.filter(asks)[i - 1]));
            } else {
                assert(rest.filter(asks).contains(rest.filter(asks)[i]));
            }
        }
        if asked.len() > 0 && !asks(queue[0]) {
            assert(rest.filter(asks).contains(rest.filter(asks)[0]));
        }
    } else {
        reveal(Seq::filter);
    }
    let next = reauthenticated(queue, token);
    let first = if asked.len() == 0 {
        seq![auth_request(token)]
    } else {
        asked
    };
    assert(next == first + parameters);
    assert forall|i: int| 1 <= i < next.len() implies !presents_token(#[trigger] next[i]) by {
        if i < first.len() {
            assert(next[i] == first[i]);
        } else {
            assert(next[i] == parameters[i - first.len()]);
        }
    }
}

/// The machine never loses its driver: an awaited event always leads to an action, the action is
/// the one whose answer the new phase waits for, and any other event changes nothing.
pub proof fn law_every_action_is_answered(before: Bridge, event: Event, after: Bridge, step: Step)
    requires
        stepped(before, event, after, step),
    ensures
        awaited(before.phase, event) ==> asked(after.phase, step.action),
        !awaited(before.phase, event) ==> after == before && step.action is Ignored
            && step.effect is None,
{
}

/// The bridge stops only when it is told that it is not wanted, and then for good.
pub proof fn law_stops_only_when_unwanted(before: Bridge, event: Event, after: Bridge, step: Step)
    requires
        stepped(before, event, after, step),
    ensures
        step.action is Stop <==> event == Event::Active(false) && (before.phase is Idle
            || before.phase is Connecting),
        after.phase is Stopped <==> step.action is Stop || before.phase is Stopped,
        before.phase is Stopped ==> after == before,
{
}

/// Whatever ends a session, the next one starts at the port that was set; a port that is
/// announced is tried next, and one that fails without announcement is tried again.
pub proof fn law_dials(before: Bridge, event: Event, after: Bridge, step: Step)
    requires
        stepped(before, event, after, step),
    ensures
        before.phase is Idle && event == Event::Active(true) ==> after.phase == Phase::Connecting(
            before.port,
        ),
        before.phase matches Phase::Discovering(port) ==> (event matches Event::Discovered(found)
            ==> after.phase == Phase::Connecting(
            match found {
                Some(announced) => announced.port,
                None => port,
            },
        )),
        step.action is Dial <==> (before.phase matches Phase::Connecting(_) && event
            == Event::Active(true)),
{
}

/// A request waits until it is answered: the queue changes with a reply and with a new session,
/// and with nothing else.
pub proof fn law_requests_wait_for_answers(before: Bridge, event: Event, after: Bridge, step: Step)
    requires
        stepped(before, event, after, step),
        !(event is Opened),
        !(event matches Event::Received(Received::Reply(_))),
    ensures
        after.queue == before.queue,
        after.token == before.token,
        step.action matches Action::Send(request) ==> before.queue.len() > 0 && request
            == before.queue[0],
{
}

/// Tracking data is polled and injected only while no request waits for an answer.
pub proof fn law_tracking_waits_for_requests(
    before: Bridge,
    event: Event,
    after: Bridge,
    step: Step,
)
    requires
        invariant_holds(before),
        stepped(before, event, after, step),
        step.action is Poll || step.action is Evaluate || step.action is Inject,
    ensures
        before.queue.len() == 0,
        !before.dont_send,
{
}

/// After a ping or a pong nothing is sent before a message has been read.
pub proof fn law_silent_after_control(before: Bridge, event: Event, after: Bridge, step: Step)
    requires
        before.dont_send,
        invariant_holds(before),
        stepped(before, event, after, step),
    ensures
        !(step.action is Send),
        !(step.action is Inject),
        !after.dont_send ==> event is Opened || (event matches Event::Received(
            Received::Reply(_),
        )),
{
}

/// Does the event end a session in this phase: is the bridge not wanted, or has the connection
/// failed?
pub open spec fn ends_session(phase: Phase, event: Event) -> bool {
    match phase {
        Phase::Ready => event == Event::Active(false),
        Phase::Sending | Phase::Injecting => event == Event::Sent(false),
        Phase::Reading => event == Event::Received(Received::Failed),
        _ => false,
    }
}

/// VTube Studio counts as connected once it has accepted the authentication, and no longer once
/// the session ends or another connection has been made.
pub proof fn law_connected_means_accepted(before: Bridge, event: Event, after: Bridge, step: Step)
    requires
        stepped(before, event, after, step),
    ensures
        step.effect == Some(Effect::SetConnected(true)) <==> before.phase is Reading && (
        event matches Event::Received(Received::Reply(Reply::AuthenticationResponse(result)))
            && result.authenticated),
        step.effect == Some(Effect::SetConnected(false)) <==> ends_session(before.phase, event) || (
        before.phase is Dialing && event == Event::Dialed(true)),
{
}

/// Is a session going on?
pub open spec fn in_session(phase: Phase) -> bool {
    match phase {
        Phase::Ready
        | Phase::Sending
        | Phase::Polling
        | Phase::Evaluating
        | Phase::Injecting
        | Phase::Reading => true,
        _ => false,
    }
}

/// Whether VTube Studio is shown as connected after a step.
pub open spec fn shown_after(shown: bool, step: Step) -> bool {
    match step.effect {
        Some(Effect::SetConnected(connected)) => connected,
        _ => shown,
    }
}

/// Whether VTube Studio is shown as connected after the first `n` steps of a run that starts
/// without it.
pub open spec fn shown(steps: Seq<Step>, n: int) -> bool
    decreases n,
{
    if n <= 0 {
        false
    } else {
        shown_after(shown(steps, n - 1), steps[n - 1])
    }
}

/// While VTube Studio is shown as connected, a session is going on: it is not shown while the
/// bridge is idle, dials, looks for a port, opens a session or has stopped.
pub proof fn law_connected_only_in_session(
    states: Seq<Bridge>,
    events: Seq<Event>,
    steps: Seq<Step>,
    n: int,
)
    requires
        is_run(states, events, steps),
        0 <= n < states.len(),
    ensures
        shown(steps, n) ==> in_session(states[n].phase),
    decreases n,
{
    if n > 0 {
        law_connected_only_in_session(states, events, steps, n - 1);
        assert(stepped(states[n - 1], events[n - 1], states[n], steps[n - 1]));
    }
}

/// A session that ends is shown as ended with the same step, and the bridge is idle again.
pub proof fn law_end_of_session_is_shown(before: Bridge, event: Event, after: Bridge, step: Step)
    requires
        stepped(before, event, after, step),
        in_session(before.phase),
    ensures
        ends_session(before.phase, event) <==> !in_session(after.phase),
        ends_session(before.phase, event) ==> after.phase is Idle && step.effect == Some(
            Effect::SetConnected(false),
        ),
{
}

/// A token that is saved is the one that the bridge authenticates with next. A token that was
/// refused is forgotten, and another one is asked for after what waits already.
pub proof fn law_token_is_used(before: Bridge, event: Event, after: Bridge, step: Step)
    requires
        stepped(before, event, after, step),
    ensures
        step.effect matches Some(Effect::SaveToken(token)) ==> after.token == Some(token)
            && after.queue.len() > 0 && after.queue[0] == auth_request(Some(token)),
        step.effect == Some(Effect::RemoveToken) ==> after.token is None && after.queue.len() > 0
            && after.queue.last() == auth_request(None),
{
}

/// Does the event grant this token?
pub open spec fn grants(event: Event, token: Seq<char>) -> bool {
    event matches Event::Received(Received::Reply(Reply::AuthenticationTokenResponse(granted)))
        && granted.authentication_token@ == token
}

/// Is the token of the session this one?
pub open spec fn holds_token(bridge: Bridge, token: Seq<char>) -> bool {
    bridge.token matches Some(held) && held@ == token
}

/// Does the step present this token to VTube Studio?
pub open spec fn presents(step: Step, token: Seq<char>) -> bool {
    step.action matches Action::Send(request) && (request.data matches Some(RequestData::Auth(auth))
        && auth.authentication_token@ == token)
}

/// After a refusal no token is presented in the session, the refused one or any other, before
/// VTube Studio has granted it.
pub proof fn law_refused_token_is_not_presented_again(
    states: Seq<Bridge>,
    events: Seq<Event>,
    steps: Seq<Step>,
    refusal: int,
    n: int,
    token: Seq<char>,
)
    requires
        is_run(states, events, steps),
        invariant_holds(states[0]),
        0 <= refusal < n < events.len(),
        steps[refusal].effect == Some(Effect::RemoveToken),
        forall|i: int|
            refusal < i < n ==> !(#[trigger] events[i] is Opened) && !grants(events[i], token),
    ensures
        !presents(steps[n], token),
{
    lemma_token_is_not_held(states, events, steps, refusal, n, token);
    law_invariant_holds_throughout(states, events, steps, n);
    assert(stepped(states[n], events[n], states[n + 1], steps[n]));
}

proof fn lemma_token_is_not_held(
    states: Seq<Bridge>,
    events: Seq<Event>,
    steps: Seq<Step>,
    refusal: int,
    n: int,
    token: Seq<char>,
)
    requires
        is_run(states, events, steps),
        0 <= refusal < n < states.len(),
        steps[refusal].effect == Some(Effect::RemoveToken),
        forall|i: int|
            refusal < i < n ==> !(#[trigger] events[i] is Opened) && !grants(events[i], token),
    ensures
        !holds_token(states[n], token),
    decreases n,
{
    assert(stepped(states[n - 1], events[n - 1], states[n], steps[n - 1]));
    if n - 1 > refusal {
        lemma_token_is_not_held(states, events, steps, refusal, n - 1, token);
        assert(!(events[n - 1] is Opened));
    }
}

/// With AFK detection on, a frame without a face is reported exactly from the moment on at which
/// no face has been seen for the time set; with it off, never. While a face is seen, nothing is
/// reported lost.
pub proof fn law_afk_is_reported_after_timeout(
    before: Bridge,
    frames: Vec<TrackingResponce>,
    now: u64,
    after: Bridge,
    step: Step,
)
    requires
        invariant_holds(before),
        before.phase is Polling,
        stepped(before, Event::Polled { frames, now }, after, step),
        frames@.len() > 0,
    ensures
        ({
            let lost = before.afk.enabled && (before.afk_active || elapsed(
                before.last_face_found,
                now,
            ) >= before.afk.timeout_secs * SECOND);
            &&& frames@.last().face_found ==> step.action is Evaluate && !after.afk_active
                && after.last_face_found == now
            &&& !frames@.last().face_found && lost ==> after.afk_active && (
            step.action matches Action::Inject(request) && injects(
                request,
                false,
                before.formulas,
                Seq::empty(),
            ))
            &&& !frames@.last().face_found && !lost ==> !after.afk_active && step.action is CheckActive
        }),
{
}

/// The time without a face is counted from the last frame with one, or from the start of the
/// session: nothing else moves it.
pub proof fn law_time_without_face(before: Bridge, event: Event, after: Bridge, step: Step)
    requires
        stepped(before, event, after, step),
        after.last_face_found != before.last_face_found || after.afk_active != before.afk_active,
    ensures
        event matches Event::Opened { now, .. } ==> after.last_face_found == now
            && !after.afk_active,
        event matches Event::Polled { frames, now } ==> frames@.len() > 0 && (
        if frames@.last().face_found {
            after.last_face_found == now && !after.afk_active
        } else {
            after.last_face_found == before.last_face_found && after.afk_active
        }),
        event is Opened || event is Polled,
{
}

/// A run of the bridge: `events[i]` leads from `states[i]` to `states[i + 1]`.
pub open spec fn is_run(states: Seq<Bridge>, events: Seq<Event>, steps: Seq<Step>) -> bool {
    &&& states.len() == events.len() + 1
    &&& steps.len() == events.len()
    &&& forall|i: int|
        0 <= i < events.len() ==> stepped(
            states[i],
            #[trigger] events[i],
            states[i + 1],
            steps[i],
        )
}

/// Does the event start a session or show a face, in this state?
pub open spec fn clock_restarts(bridge: Bridge, event: Event) -> bool {
    match (bridge.phase, event) {
        (Phase::Opening, Event::Opened { entries: Some(entries), .. }) => all_build(entries@),
        (Phase::Polling, Event::Polled { frames, .. }) => frames@.len() > 0
            && frames@.last().face_found,
        _ => false,
    }
}

/// The invariant holds throughout every run that starts with it.
pub proof fn law_invariant_holds_throughout(
    states: Seq<Bridge>,
    events: Seq<Event>,
    steps: Seq<Step>,
    n: int,
)
    requires
        is_run(states, events, steps),
        invariant_holds(states[0]),
        0 <= n < states.len(),
    ensures
        invariant_holds(states[n]),
        states[n].port == states[0].port,
        states[n].mirror == states[0].mirror,
        states[n].afk == states[0].afk,
    decreases n,
{
    if n > 0 {
        law_invariant_holds_throughout(states, events, steps, n - 1);
        law_invariant_is_kept(states[n - 1], events[n - 1], states[n], steps[n - 1]);
    }
}

/// However many events go by, VTube Studio is told that the face is lost with the first frame
/// without a face that comes when none has been seen for the time set, and with no frame before.
pub proof fn law_afk_over_a_run(
    states: Seq<Bridge>,
    events: Seq<Event>,
    steps: Seq<Step>,
    n: int,
)
    requires
        is_run(states, events, steps),
        invariant_holds(states[0]),
        !states[0].afk_active,
        0 <= n < events.len(),
        forall|i: int| 0 <= i <= n ==> !clock_restarts(states[i], #[trigger] events[i]),
        forall|i: int|
            0 <= i < n ==> (#[trigger] events[i] matches Event::Polled { now, .. } ==> elapsed(
                states[0].last_face_found,
                now,
            ) < states[0].afk.timeout_secs * SECOND),
        states[n].phase is Polling,
        states[0].afk.enabled,
    ensures
        events[n] matches Event::Polled { frames, now } ==> frames@.len() > 0 ==> (if elapsed(
            states[0].last_face_found,
            now,
        ) >= states[0].afk.timeout_secs * SECOND {
            states[n + 1].afk_active && (steps[n].action matches Action::Inject(request)
                && injects(request, false, states[n].formulas, Seq::empty()))
        } else {
            !states[n + 1].afk_active && steps[n].action is CheckActive
        }),
{
    lemma_clock_runs_on(states, events, steps, n);
    law_invariant_holds_throughout(states, events, steps, n);
    assert(stepped(states[n], events[n], states[n + 1], steps[n]));
}

proof fn lemma_clock_runs_on(
    states: Seq<Bridge>,
    events: Seq<Event>,
    steps: Seq<Step>,
    n: int,
)
    requires
        is_run(states, events, steps),
        invariant_holds(states[0]),
        !states[0].afk_active,
        0 <= n < events.len(),
        forall|i: int| 0 <= i < n ==> !clock_restarts(states[i], #[trigger] events[i]),
        forall|i: int|
            0 <= i < n ==> (#[trigger] events[i] matches Event::Polled { now, .. } ==> elapsed(
                states[0].last_face_found,
                now,
            ) < states[0].afk.timeout_secs * SECOND),
    ensures
        states[n].last_face_found == states[0].last_face_found,
        !states[n].afk_active,
    decreases n,
{
    if n > 0 {
        lemma_clock_runs_on(states, events, steps, n - 1);
        law_invariant_holds_throughout(states, events, steps, n - 1);
        assert(!clock_restarts(states[n - 1], events[n - 1]));
        assert(stepped(states[n - 1], events[n - 1], states[n], steps[n - 1]));
    }
}

/// The time that an event tells.
pub open spec fn time_of(event: Event) -> Option<u64> {
    match event {
        Event::Opened { now, .. } => Some(now),
        Event::Polled { now, .. } => Some(now),
        _ => None,
    }
}

/// When, by the first `n` events of a run, a face was last seen or the session started.
pub open spec fn last_seen(states: Seq<Bridge>, events: Seq<Event>, n: int) -> u64
    decreases n,
{
    if n <= 0 {
        states[0].last_face_found
    } else if clock_restarts(states[n - 1], events[n - 1]) {
        time_of(events[n - 1])->0
    } else {
        last_seen(states, events, n - 1)
    }
}

/// Does the step tell VTube Studio that the face is lost?
pub open spec fn reports_lost(step: Step) -> bool {
    step.action matches Action::Inject(request) && (request.data matches Some(params)
        && !params.face_found)
}

/// Was a frame polled, among the first `n` events, when no face had been seen since `since` for
/// the time set?
spec fn overdue(events: Seq<Event>, n: int, since: u64, timeout: int) -> bool {
    exists|j: int|
        0 <= j < n && (#[trigger] events[j] matches Event::Polled { now, .. } && elapsed(
            since,
            now,
        ) >= timeout)
}

proof fn lemma_away_is_overdue(
    states: Seq<Bridge>,
    events: Seq<Event>,
    steps: Seq<Step>,
    n: int,
)
    requires
        is_run(states, events, steps),
        !states[0].afk_active,
        0 <= n < states.len(),
    ensures
        states[n].last_face_found == last_seen(states, events, n),
        states[n].afk == states[0].afk,
        states[n].afk_active ==> overdue(
            events,
            n,
            states[n].last_face_found,
            states[0].afk.timeout_secs * SECOND,
        ),
    decreases n,
{
    if n > 0 {
        lemma_away_is_overdue(states, events, steps, n - 1);
        let timeout = states[0].afk.timeout_secs * SECOND;
        let since = states[n - 1].last_face_found;
        assert(stepped(states[n - 1], events[n - 1], states[n], steps[n - 1]));
        if overdue(events, n - 1, since, timeout) {
            let j = choose|j: int|
                0 <= j < n - 1 && (#[trigger] events[j] matches Event::Polled { now, .. }
                    && elapsed(since, now) >= timeout);
            assert(events[j] matches Event::Polled { now, .. } && elapsed(since, now) >= timeout);
            assert(overdue(events, n, since, timeout));
        }
        if states[n].afk_active && !states[n - 1].afk_active {
            assert(events[n - 1] matches Event::Polled { now, .. } && elapsed(since, now)
                >= timeout);
            assert(overdue(events, n, since, timeout));
        }
    }
}

/// Whenever VTube Studio is told that the face is lost, AFK detection is on and at least the time
/// set has gone by since a face was last seen or the session started, on a clock that does not go
/// back.
pub proof fn law_lost_face_is_reported_late_enough(
    states: Seq<Bridge>,
    events: Seq<Event>,
    steps: Seq<Step>,
    n: int,
)
    requires
        is_run(states, events, steps),
        !states[0].afk_active,
        0 <= n < events.len(),
        forall|i: int, j: int|
            0 <= i <= j <= n && time_of(events[i]) is Some && time_of(events[j]) is Some
                ==> time_of(#[trigger] events[i])->0 <= time_of(#[trigger] events[j])->0,
        reports_lost(steps[n]),
    ensures
        states[n].afk.enabled,
        events[n] matches Event::Polled { now, .. } && elapsed(last_seen(states, events, n), now)
            >= states[0].afk.timeout_secs * SECOND,
{
    lemma_away_is_overdue(states, events, steps, n);
    assert(stepped(states[n], events[n], states[n + 1], steps[n]));
    let timeout = states[0].afk.timeout_secs * SECOND;
    let since = states[n].last_face_found;
    if states[n].afk_active {
        let j = choose|j: int|
            0 <= j < n && (#[trigger] events[j] matches Event::Polled { now, .. } && elapsed(
                since,
                now,
            ) >= timeout);
        assert(time_of(events[j])->0 <= time_of(events[n])->0);
    }
}

/// Only the newest frame of a poll counts.
pub proof fn law_newest_frame_counts(
    before: Bridge,
    older: Vec<TrackingResponce>,
    newest: Vec<TrackingResponce>,
    now: u64,
    after: Bridge,
    step: Step,
)
    requires
        older@.len() > 0,
        newest@ == seq![older@.last()],
        before.phase is Polling,
    ensures
        stepped(before, Event::Polled { frames: older, now }, after, step) <==> stepped(
            before,
            Event::Polled { frames: newest, now },
            after,
            step,
        ),
{
    assert(newest@.last() == older@.last());
}

/// With nothing waiting, a frame with a face is evaluated and injected, and the session goes on
/// as it was but for the time at which a face was seen.
pub proof fn law_frame_round_trip(
    states: Seq<Bridge>,
    events: Seq<Event>,
    steps: Seq<Step>,
    frames: Vec<TrackingResponce>,
    now: u64,
    outcomes: Vec<Outcome>,
)
    requires
        is_run(states, events, steps),
        states[0].phase is Ready,
        !states[0].dont_send,
        states[0].queue.len() == 0,
        frames@.len() > 0,
        frames@.last().face_found,
        events == seq![
            Event::Active(true),
            Event::Polled { frames, now },
            Event::Evaluated(outcomes),
            Event::Sent(true),
            Event::Received(Received::Reply(Reply::InjectParameterDataResponse)),
        ],
    ensures
        steps[1].action matches Action::Evaluate(bindings) && bound(bindings@)
            == evaluation_context(frames@.last(), states[0].mirror, states[0].formulas),
        steps[2].action matches Action::Inject(request) && injects(
            request,
            true,
            states[0].formulas,
            outcomes@,
        ),
        states[5] == (Bridge { last_face_found: now, afk_active: false, ..states[0] }),
{
    assert(events[0] == Event::Active(true));
    assert(events[1] == Event::Polled { frames, now });
    assert(events[2] == Event::Evaluated(outcomes));
    assert(events[3] == Event::Sent(true));
    assert(events[4] == Event::Received(Received::Reply(Reply::InjectParameterDataResponse)));
    assert(stepped(states[0], events[0], states[1], steps[0]));
    assert(stepped(states[1], events[1], states[2], steps[1]));
    assert(stepped(states[2], events[2], states[3], steps[2]));
    assert(stepped(states[3], events[3], states[4], steps[3]));
    assert(stepped(states[4], events[4], states[5], steps[4]));
}

/// A port is dialed at its own address on this machine: different ports have different addresses,
/// and the port can be read from the end of each.
pub proof fn law_port_is_dialed(before: Bridge, after: Bridge, step: Step, port: u16)
    requires
        before.phase == Phase::Connecting(port),
        stepped(before, Event::Active(true), after, step),
    ensures
        after == (Bridge { phase: Phase::Dialing(port), ..before }),
        step.effect is None,
        step.action matches Action::Dial(place) && "ws://localhost:"@.is_prefix_of(place@)
            && parsed_unsigned(place@.skip(15), 0xffff) == Some(port as nat),
{
    reveal_strlit("ws://localhost:");
    law_decimal_round_trip(port as nat, 0xffff);
    let place = step.action->Dial_0@;
    assert(place.skip(15) =~= decimal(port as nat));
    assert(place.subrange(0, 15) =~= "ws://localhost:"@);
}

/// The clock counts nanoseconds. A face is away once AFK detection is on and the time since it was
/// last seen has come up to the seconds that were set, or that is known already.
pub proof fn law_time_is_counted(bridge: Bridge, since: u64, now: u64)
    ensures
        now >= since ==> elapsed(since, now) == now - since,
        now < since ==> elapsed(since, now) == 0,
        away(bridge, now) <==> bridge.afk.enabled && (bridge.afk_active || now
            - bridge.last_face_found >= bridge.afk.timeout_secs * 1_000_000_000
            || bridge.afk.timeout_secs == 0),
{
    assert(bridge.afk.timeout_secs * SECOND == bridge.afk.timeout_secs * 1_000_000_000);
}

/// What a reply does to the queue. An answer takes away the first request and keeps the others in
/// their order; where the session has to be authenticated, the request to do so comes first; where
/// a token was refused, the request for another one comes last; and what is no answer to a request
/// that waits leaves all of them.
pub proof fn law_reply_moves_the_queue(reply: Reply, queue: Seq<Pending>, token: Option<String>)
    ensures
        ({
            let next = queue_after(reply, queue, token);
            let rest = if queue.len() > 0 {
                queue.skip(1)
            } else {
                queue
            };
            match reply {
                Reply::APIStateResponse(state) => if state.current_session_authenticated {
                    next == rest
                } else {
                    next.len() == rest.len() + 1 && next[0] == auth_request(token) && next.skip(1)
                        == rest
                },
                Reply::AuthenticationTokenResponse(granted) => next.len() == rest.len() + 1
                    && next[0] == auth_request(Some(granted.authentication_token)) && next.skip(1)
                    == rest,
                Reply::AuthenticationResponse(result) => if result.authenticated {
                    next == rest
                } else {
                    next.len() == rest.len() + 1 && next.last() == auth_request(None)
                        && next.drop_last() == rest
                },
                Reply::ParameterCreationResponse => next == rest,
                Reply::APIError(error) => if error.error_id == 352 || error.error_id == 354 {
                    next == rest
                } else if error.error_id == 8 || error.error_id == 51 {
                    true
                } else {
                    next == queue
                },
                Reply::InjectParameterDataResponse
                | Reply::HotkeyTriggerResponse
                | Reply::Unknown
                | Reply::Untyped => next == queue,
            }
        }),
{
    let rest = if queue.len() > 0 {
        queue.skip(1)
    } else {
        queue
    };
    if queue.len() > 0 {
        assert(queue.drop_first() =~= rest);
    }
    assert((seq![auth_request(token)] + rest).skip(1) =~= rest);
    assert(rest.push(auth_request(None)).drop_last() =~= rest);
    if let Reply::AuthenticationTokenResponse(granted) = reply {
        assert((seq![auth_request(Some(granted.authentication_token))] + rest).skip(1) =~= rest);
    }
}

/// What a reply does to the token, and what it leads to besides: a token that is granted is the one
/// of the session and is saved, one that is refused is given up in both places, and one that is
/// accepted makes VTube Studio count as connected. No other reply does any of this.
pub proof fn law_reply_moves_the_token(reply: Reply, token: Option<String>)
    ensures
        match reply {
            Reply::AuthenticationTokenResponse(granted) => token_after(reply, token) == Some(
                granted.authentication_token,
            ) && effect_of(reply) == Some(Effect::SaveToken(granted.authentication_token)),
            Reply::AuthenticationResponse(result) => if result.authenticated {
                token_after(reply, token) == token && effect_of(reply) == Some(
                    Effect::SetConnected(true),
                )
            } else {
                token_after(reply, token) is None && effect_of(reply) == Some(Effect::RemoveToken)
            },
            _ => token_after(reply, token) == token && effect_of(reply) is None,
        },
{
}

/// What is read. A reply is taken into account and sending goes on; after a ping or a pong nothing
/// is sent before a reply; any other message changes nothing; a failure ends the session. The
/// formulas, the time of the last face and what is known of it stay.
pub proof fn law_message_is_read(
    before: Bridge,
    received: Received,
    after: Bridge,
    step: Step,
)
    requires
        before.phase is Reading,
        stepped(before, Event::Received(received), after, step),
    ensures
        step.action is CheckActive,
        after.formulas == before.formulas,
        after.last_face_found == before.last_face_found,
        after.afk_active == before.afk_active,
        match received {
            Received::Reply(reply) => {
                &&& after.phase is Ready && !after.dont_send
                &&& after.queue == queue_after(reply, before.queue, before.token)
                &&& after.token == token_after(reply, before.token)
                &&& step.effect == effect_of(reply)
            },
            Received::Control => {
                &&& after.phase is Ready && after.dont_send
                &&& after.queue == before.queue && after.token == before.token
                &&& step.effect is None
            },
            Received::Other => {
                &&& after.phase is Ready && after.dont_send == before.dont_send
                &&& after.queue == before.queue && after.token == before.token
                &&& step.effect is None
            },
            Received::Failed => {
                &&& after.phase is Idle
                &&& after.queue == before.queue && after.token == before.token
                &&& step.effect == Some(Effect::SetConnected(false))
            },
        },
{
}

/// How a session goes on while it is wanted: it reads where nothing may be sent, sends the first
/// request where one waits, and asks for frames where none does. Nothing of the session changes by
/// that.
pub proof fn law_session_goes_on(before: Bridge, after: Bridge, step: Step)
    requires
        before.phase is Ready,
        stepped(before, Event::Active(true), after, step),
    ensures
        step.effect is None,
        after == (Bridge { phase: after.phase, ..before }),
        before.dont_send ==> step.action is Read && after.phase is Reading,
        !before.dont_send && before.queue.len() > 0 ==> step.action == Action::Send(
            before.queue[0],
        ) && after.phase is Sending,
        !before.dont_send && before.queue.len() == 0 ==> step.action is Poll
            && after.phase is Polling,
{
}

/// What was sent is followed by a read, and what the formulas gave is injected; nothing of the
/// session changes by either.
pub proof fn law_sending_is_followed_by_reading(
    before: Bridge,
    event: Event,
    after: Bridge,
    step: Step,
)
    requires
        stepped(before, event, after, step),
    ensures
        (before.phase is Sending || before.phase is Injecting) && event == Event::Sent(true)
            ==> step.action is Read && step.effect is None && after == (Bridge {
            phase: Phase::Reading,
            ..before
        }),
        before.phase is Evaluating ==> (event matches Event::Evaluated(outcomes) ==> after == (
        Bridge { phase: Phase::Injecting, ..before }) && step.effect is None && (
        step.action matches Action::Inject(request) && injects(
            request,
            true,
            before.formulas,
            outcomes@,
        ))),
{
}

/// What a poll leads to. Without frames the session goes on. A face in the newest frame is
/// evaluated with the variables of that frame, in mirror mode where that is set, and with zero for
/// what the frame does not provide; no face is passed on once it has been away long enough, and
/// else not.
pub proof fn law_frames_are_looked_at(
    before: Bridge,
    frames: Vec<TrackingResponce>,
    now: u64,
    after: Bridge,
    step: Step,
)
    requires
        before.phase is Polling,
        stepped(before, Event::Polled { frames, now }, after, step),
    ensures
        step.effect is None,
        after.queue == before.queue && after.token == before.token,
        after.formulas == before.formulas && after.dont_send == before.dont_send,
        frames@.len() == 0 ==> step.action is CheckActive && after == (Bridge {
            phase: Phase::Ready,
            ..before
        }),
        frames@.len() > 0 && frames@.last().face_found ==> {
            &&& after.phase is Evaluating && after.last_face_found == now && !after.afk_active
            &&& step.action matches Action::Evaluate(bindings)
            &&& forall|name: Seq<char>|
                frame_context(frames@.last(), before.mirror).dom().contains(name) ==> #[trigger]
                    bound(bindings@).dom().contains(name) && bound(bindings@)[name]
                        == frame_context(frames@.last(), before.mirror)[name]
            &&& forall|i: int, j: int|
                0 <= i < before.formulas.len() && 0 <= j < before.formulas[i].variables@.len() && !(
                frame_context(frames@.last(), before.mirror).dom().contains(
                    #[trigger] before.formulas[i].variables@[j]@,
                )) ==> bound(bindings@).dom().contains(before.formulas[i].variables@[j]@) && bound(
                    bindings@,
                )[before.formulas[i].variables@[j]@].bits == 0
        },
        frames@.len() > 0 && !frames@.last().face_found && away(before, now)
            ==> after.phase is Injecting && after.afk_active && after.last_face_found
            == before.last_face_found && reports_lost(step),
        frames@.len() > 0 && !frames@.last().face_found && !away(before, now)
            ==> step.action is CheckActive && after == (Bridge { phase: Phase::Ready, ..before }),
{
    if frames@.len() > 0 && frames@.last().face_found {
        let frame = frames@.last();
        let given = frame_context(frame, before.mirror);
        let bindings = step.action->Evaluate_0;
        assert forall|i: int, j: int|
            0 <= i < before.formulas.len() && 0 <= j < before.formulas[i].variables@.len() && !(
            given.dom().contains(#[trigger] before.formulas[i].variables@[j]@)) implies bound(
            bindings@,
        ).dom().contains(before.formulas[i].variables@[j]@) && bound(
            bindings@,
        )[before.formulas[i].variables@[j]@].bits == 0 by {
            law_missing_variables_are_zero(frame, before.mirror, before.formulas, i, j);
        }
    }
}

/// A session starts afresh: with the token and the config that were read, with the time at which
/// they were, and with nothing of an earlier session. A config that is missing or has a formula
/// that cannot be built ends the session before it starts.
pub proof fn law_session_starts_afresh(
    before: Bridge,
    token: Option<String>,
    entries: Option<Vec<CalcFn>>,
    now: u64,
    after: Bridge,
    step: Step,
)
    requires
        before.phase is Opening,
        stepped(before, Event::Opened { token, entries, now }, after, step),
    ensures
        step.action is CheckActive && step.effect is None,
        entries matches Some(list) && (forall|i: int|
            0 <= i < list@.len() ==> operator_tree(#[trigger] list@[i].func@) is Some) ==> {
            &&& after.phase is Ready
            &&& after.token == token
            &&& after.queue.len() > 0 && after.queue[0] == status_request() && after.queue.skip(1)
                == creation_requests(entries->0@)
            &&& formulas_of(after.formulas, entries->0@)
            &&& !after.dont_send && !after.afk_active && after.last_face_found == now
            &&& after.port == before.port && after.mirror == before.mirror && after.afk
                == before.afk
        },
        entries is None || (exists|i: int|
            0 <= i < entries->0@.len() && operator_tree(#[trigger] entries->0@[i].func@) is None)
            ==> after == (Bridge { phase: Phase::Idle, ..before }),
{
    if let Some(list) = entries {
        let requests = creation_requests(list@);
        assert((seq![status_request()] + requests).skip(1) =~= requests);
    }
}

/// On the way to a session only the phase changes. The bridge asks whether it is wanted before it
/// dials and after it has listened for an announcement; a connection opens a session, which is not
/// shown as connected yet; and without one an announcement is listened for, with the port that
/// failed kept in mind.
pub proof fn law_way_to_a_session(before: Bridge, event: Event, after: Bridge, step: Step)
    requires
        stepped(before, event, after, step),
        !in_session(before.phase),
        !(event is Opened),
    ensures
        after == (Bridge { phase: after.phase, ..before }),
        before.phase is Idle && event == Event::Active(true) ==> step.action is CheckActive
            && step.effect is None && after.phase == Phase::Connecting(before.port),
        (before.phase is Idle || before.phase is Connecting) && event == Event::Active(false)
            ==> step.action is Stop && step.effect is None && after.phase is Stopped,
        before.phase is Dialing && event == Event::Dialed(true) ==> step.action is Open
            && step.effect == Some(Effect::SetConnected(false)) && after.phase is Opening,
        before.phase matches Phase::Dialing(port) ==> (event == Event::Dialed(false)
            ==> step.action is Discover && step.effect is None && after.phase
            == Phase::Discovering(port)),
        before.phase matches Phase::Discovering(port) ==> (event matches Event::Discovered(found)
            ==> step.action is CheckActive && step.effect is None && after.phase
            == Phase::Connecting(
            match found {
                Some(announced) => announced.port,
                None => port,
            },
        )),
{
}

/// The model of a bridge says all that the bridge holds.
pub proof fn law_model_says_all(bridge: VtsPc)
    ensures
        bridge@.port == bridge.port && bridge@.mirror == bridge.mirror && bridge@.afk == bridge.afk,
        bridge@.phase == bridge.phase,
        bridge@.queue == bridge.session.queue@ && bridge@.token == bridge.session.token,
        bridge@.formulas == bridge.session.formulas@,
        bridge@.dont_send == bridge.session.dont_send,
        bridge@.last_face_found == bridge.session.last_face_found,
        bridge@.afk_active == bridge.session.afk_active,
{
}

} // verus!
