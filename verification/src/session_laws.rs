//! What holds of a session with VTube Studio, from its start to the first tracking data.
use crate::bridge_laws::{invariant_holds, is_run, law_invariant_holds_throughout};
use crate::requests::{auth_request, authenticates, creates, status_request, Pending};
use crate::responces::{APIError, AuthenticationToken};
use crate::transform::{all_build, creation_requests, formulas_of, CalcFn};
use crate::vtspc::{
    answered, authentications, creations, effect_of, queue_after, reauthenticated, stepped,
    token_after, Action, Bridge, Effect, Event, Phase, Received, Reply, Step,
};
use vstd::prelude::*;

verus! {

/// The start of a session: once the connection stands and the config has been read, the state of
/// the API is asked for and then one parameter after the other.
pub proof fn law_session_starts(
    states: Seq<Bridge>,
    events: Seq<Event>,
    steps: Seq<Step>,
    token: Option<String>,
    entries: Vec<CalcFn>,
    now: u64,
)
    requires
        is_run(states, events, steps),
        states[0].phase is Dialing,
        events == seq![
            Event::Dialed(true),
            Event::Opened { token, entries: Some(entries), now },
            Event::Active(true),
        ],
        all_build(entries@),
    ensures
        steps[0].effect == Some(Effect::SetConnected(false)),
        states[2].queue == seq![status_request()] + creation_requests(entries@),
        creations(states[2].queue) == creation_requests(entries@),
        states[2].token == token,
        formulas_of(states[2].formulas, entries@),
        steps[2].action == Action::Send(status_request()),
        states[3].phase is Sending,
{
    assert(events[0] == Event::Dialed(true));
    assert(events[1] == Event::Opened { token, entries: Some(entries), now });
    assert(events[2] == Event::Active(true));
    assert(stepped(states[0], events[0], states[1], steps[0]));
    assert(stepped(states[1], events[1], states[2], steps[1]));
    assert(stepped(states[2], events[2], states[3], steps[2]));
    lemma_creations_of_new_session(entries@);
}

proof fn lemma_creations_of_new_session(entries: Seq<CalcFn>)
    ensures
        creations(seq![status_request()] + creation_requests(entries)) == creation_requests(
            entries,
        ),
{
    let keep = |request: Pending| creates(request);
    let first = seq![status_request()];
    let requests = creation_requests(entries);
    Seq::filter_distributes_over_add(first, requests, keep);
    lemma_filter_none(first, keep);
    lemma_filter_all(requests, keep);
    assert(Seq::<Pending>::empty() + requests =~= requests);
}

/// Nothing is filtered out of a list in which all is kept.
proof fn lemma_filter_all(list: Seq<Pending>, keep: spec_fn(Pending) -> bool)
    requires
        forall|i: int| 0 <= i < list.len() ==> keep(#[trigger] list[i]),
    ensures
        list.filter(keep) == list,
    decreases list.len(),
{
    reveal(Seq::filter);
    if list.len() > 0 {
        lemma_filter_all(list.drop_last(), keep);
        assert(list.drop_last().push(list.last()) =~= list);
    }
}

/// Nothing is left of a list in which nothing is kept.
proof fn lemma_filter_none(list: Seq<Pending>, keep: spec_fn(Pending) -> bool)
    requires
        forall|i: int| 0 <= i < list.len() ==> !keep(#[trigger] list[i]),
    ensures
        list.filter(keep) == Seq::<Pending>::empty(),
    decreases list.len(),
{
    reveal(Seq::filter);
    if list.len() > 0 {
        lemma_filter_none(list.drop_last(), keep);
    }
}

/// What is kept of a list, by whether its first element is.
pub(crate) proof fn lemma_filter_first(list: Seq<Pending>, keep: spec_fn(Pending) -> bool)
    requires
        list.len() > 0,
    ensures
        list.filter(keep) == if keep(list[0]) {
            seq![list[0]] + list.drop_first().filter(keep)
        } else {
            list.drop_first().filter(keep)
        },
{
    let first = seq![list[0]];
    assert(list =~= first + list.drop_first());
    Seq::filter_distributes_over_add(first, list.drop_first(), keep);
    let rest = list.drop_first().filter(keep);
    if keep(list[0]) {
        lemma_filter_all(first, keep);
    } else {
        lemma_filter_none(first, keep);
        assert(Seq::<Pending>::empty() + rest =~= rest);
    }
}

/// Does the run of events go on at `at` with a request that is sent and answered by `reply`?
pub open spec fn exchanges(events: Seq<Event>, at: int, reply: Reply) -> bool {
    &&& 0 <= at && at + 3 <= events.len()
    &&& events[at] == Event::Active(true)
    &&& events[at + 1] == Event::Sent(true)
    &&& events[at + 2] == Event::Received(Received::Reply(reply))
}

/// One request at a time: the first request of the queue is sent, its reply is read, and the
/// session goes on with the queue that the reply leaves.
pub proof fn law_request_round_trip(
    states: Seq<Bridge>,
    events: Seq<Event>,
    steps: Seq<Step>,
    at: int,
    reply: Reply,
)
    requires
        is_run(states, events, steps),
        exchanges(events, at, reply),
        states[at].phase is Ready,
        !states[at].dont_send,
        states[at].queue.len() > 0,
    ensures
        steps[at].action == Action::Send(states[at].queue[0]),
        steps[at + 1].action is Read,
        steps[at + 2].effect == effect_of(reply),
        states[at + 3] == (Bridge {
            queue: queue_after(reply, states[at].queue, states[at].token),
            token: token_after(reply, states[at].token),
            ..states[at]
        }),
{
    assert(stepped(states[at], events[at], states[at + 1], steps[at]));
    assert(stepped(states[at + 1], events[at + 1], states[at + 2], steps[at + 1]));
    assert(stepped(states[at + 2], events[at + 2], states[at + 3], steps[at + 2]));
}

/// Is this an answer to the request for a parameter: that it was created, or that it cannot be?
pub open spec fn settles_parameter(reply: Reply) -> bool {
    match reply {
        Reply::ParameterCreationResponse => true,
        Reply::APIError(error) => error.error_id == 352 || error.error_id == 354,
        _ => false,
    }
}

/// The parameters are asked for one after the other, in the order of the config, and none of them
/// twice; once each has been answered, the next of the queue is what waits.
pub proof fn law_parameters_are_asked_for_in_order(
    states: Seq<Bridge>,
    events: Seq<Event>,
    steps: Seq<Step>,
    at: int,
    replies: Seq<Reply>,
)
    requires
        is_run(states, events, steps),
        0 <= at < states.len(),
        states[at].phase is Ready,
        !states[at].dont_send,
        replies.len() <= states[at].queue.len(),
        forall|k: int|
            0 <= k < replies.len() ==> settles_parameter(#[trigger] replies[k]) && exchanges(
                events,
                at + 3 * k,
                replies[k],
            ),
    ensures
        at + 3 * replies.len() < states.len(),
        states[at + 3 * replies.len() as int] == (Bridge {
            queue: states[at].queue.skip(replies.len() as int),
            ..states[at]
        }),
        forall|k: int|
            0 <= k < replies.len() ==> (#[trigger] steps[at + 3 * k]).action == Action::Send(
                states[at].queue[k],
            ),
    decreases replies.len(),
{
    let n = replies.len() as int;
    if n == 0 {
        assert(states[at].queue.skip(0) =~= states[at].queue);
    } else {
        let fewer = replies.drop_last();
        assert forall|k: int| 0 <= k < fewer.len() implies settles_parameter(#[trigger] fewer[k])
            && exchanges(events, at + 3 * k, fewer[k]) by {
            assert(fewer[k] == replies[k]);
        }
        law_parameters_are_asked_for_in_order(states, events, steps, at, fewer);
        let here = at + 3 * (n - 1);
        let last = replies[n - 1];
        assert(states[here].queue == states[at].queue.skip(n - 1));
        law_request_round_trip(states, events, steps, here, last);
        assert(states[here].queue.drop_first() =~= states[at].queue.skip(n));
        assert forall|k: int| 0 <= k < n implies (#[trigger] steps[at + 3 * k]).action
            == Action::Send(states[at].queue[k]) by {
            if k < n - 1 {
                assert(steps[at + 3 * k].action == Action::Send(states[at].queue[k]));
            }
        }
    }
}

/// A whole session with a stored token: VTube Studio is dialed, asked for its state, and accepts
/// the token; each custom parameter of the config is asked for once; and from then on tracking
/// data is polled, with VTube Studio shown as connected and no request left.
pub proof fn law_session_comes_to_tracking(
    states: Seq<Bridge>,
    events: Seq<Event>,
    steps: Seq<Step>,
    token: String,
    entries: Vec<CalcFn>,
    now: u64,
    state: Reply,
    accepted: Reply,
    replies: Seq<Reply>,
)
    requires
        is_run(states, events, steps),
        states[0].phase is Dialing,
        all_build(entries@),
        events.len() > 2,
        events[0] == Event::Dialed(true),
        events[1] == (Event::Opened { token: Some(token), entries: Some(entries), now }),
        state matches Reply::APIStateResponse(s) && !s.current_session_authenticated,
        accepted matches Reply::AuthenticationResponse(a) && a.authenticated,
        exchanges(events, 2, state),
        exchanges(events, 5, accepted),
        replies.len() == creation_requests(entries@).len(),
        forall|k: int|
            0 <= k < replies.len() ==> settles_parameter(#[trigger] replies[k]) && exchanges(
                events,
                8 + 3 * k,
                replies[k],
            ),
        8 + 3 * replies.len() < events.len(),
        events[8 + 3 * replies.len() as int] == Event::Active(true),
    ensures
        steps[0].effect == Some(Effect::SetConnected(false)),
        steps[2].action == Action::Send(status_request()),
        steps[5].action == Action::Send(auth_request(Some(token))),
        steps[7].effect == Some(Effect::SetConnected(true)),
        forall|k: int|
            0 <= k < replies.len() ==> (#[trigger] steps[8 + 3 * k]).action == Action::Send(
                creation_requests(entries@)[k],
            ),
        steps[8 + 3 * replies.len() as int].action is Poll,
        states[8 + 3 * replies.len() as int].queue.len() == 0,
        formulas_of(states[8 + 3 * replies.len() as int].formulas, entries@),
{
    let parameters = creation_requests(entries@);
    assert(stepped(states[0], events[0], states[1], steps[0]));
    assert(stepped(states[1], events[1], states[2], steps[1]));
    law_handshake_with_token(state, accepted, parameters, token);
    law_request_round_trip(states, events, steps, 2, state);
    law_request_round_trip(states, events, steps, 5, accepted);
    assert(states[8].queue == parameters);
    law_parameters_are_asked_for_in_order(states, events, steps, 8, replies);
    let end: int = 8 + 3 * replies.len() as int;
    assert(stepped(states[end], events[end], states[end + 1], steps[end]));
}

/// The handshake with a stored token: once the state has been reported and the token accepted,
/// the parameters are all that waits.
pub proof fn law_handshake_with_token(
    state: Reply,
    accepted: Reply,
    parameters: Seq<Pending>,
    token: String,
)
    requires
        state matches Reply::APIStateResponse(s) && !s.current_session_authenticated,
        accepted matches Reply::AuthenticationResponse(a) && a.authenticated,
    ensures
        ({
            let stored = Some(token);
            let asked = queue_after(state, seq![status_request()] + parameters, stored);
            let done = queue_after(accepted, asked, token_after(state, stored));
            &&& asked == seq![auth_request(stored)] + parameters
            &&& done == parameters
            &&& token_after(accepted, token_after(state, stored)) == stored
            &&& effect_of(accepted) == Some(Effect::SetConnected(true))
        }),
{
    let first = seq![status_request()] + parameters;
    assert(first.drop_first() =~= parameters);
    let second = seq![auth_request(Some(token))] + parameters;
    assert(second.drop_first() =~= parameters);
}

/// The handshake without a token: the bridge asks for one, authenticates with what is granted,
/// and then the parameters are all that waits.
pub proof fn law_handshake_without_token(
    state: Reply,
    granted: AuthenticationToken,
    accepted: Reply,
    parameters: Seq<Pending>,
)
    requires
        state matches Reply::APIStateResponse(s) && !s.current_session_authenticated,
        accepted matches Reply::AuthenticationResponse(a) && a.authenticated,
    ensures
        ({
            let token = Some(granted.authentication_token);
            let grant = Reply::AuthenticationTokenResponse(granted);
            let asked = queue_after(state, seq![status_request()] + parameters, None);
            let told = queue_after(grant, asked, None);
            &&& asked == seq![auth_request(None)] + parameters
            &&& told == seq![auth_request(token)] + parameters
            &&& token_after(grant, None) == token
            &&& queue_after(accepted, told, token) == parameters
            &&& effect_of(grant) == Some(Effect::SaveToken(granted.authentication_token))
        }),
{
    let first = seq![status_request()] + parameters;
    assert(first.drop_first() =~= parameters);
    let second = seq![auth_request(None)] + parameters;
    assert(second.drop_first() =~= parameters);
    let third = seq![auth_request(Some(granted.authentication_token))] + parameters;
    assert(third.drop_first() =~= parameters);
}

/// The handshake with a token that is refused: another one is asked for after the parameters; the
/// first of those is refused for want of authentication, which brings the request for a token to
/// the front; the bridge authenticates with what is granted, and then all of the parameters are
/// what waits. Where there are none, the request for a token is the first at once.
pub proof fn law_handshake_with_stale_token(
    state: Reply,
    refused: Reply,
    denied: APIError,
    granted: AuthenticationToken,
    accepted: Reply,
    parameters: Seq<Pending>,
    stale: String,
)
    requires
        state matches Reply::APIStateResponse(s) && !s.current_session_authenticated,
        refused matches Reply::AuthenticationResponse(r) && !r.authenticated,
        denied.error_id == 8 || denied.error_id == 51,
        accepted matches Reply::AuthenticationResponse(a) && a.authenticated,
        forall|i: int| 0 <= i < parameters.len() ==> creates(#[trigger] parameters[i]),
    ensures
        ({
            let token = Some(granted.authentication_token);
            let grant = Reply::AuthenticationTokenResponse(granted);
            let tried = queue_after(state, seq![status_request()] + parameters, Some(stale));
            let behind = queue_after(refused, tried, Some(stale));
            let asked = queue_after(Reply::APIError(denied), behind, None);
            let told = queue_after(grant, asked, None);
            &&& tried == seq![auth_request(Some(stale))] + parameters
            &&& behind == parameters.push(auth_request(None))
            &&& asked == seq![auth_request(None)] + parameters
            &&& told == seq![auth_request(token)] + parameters
            &&& queue_after(accepted, told, token) == parameters
            &&& token_after(refused, Some(stale)) is None
            &&& effect_of(refused) == Some(Effect::RemoveToken)
            &&& parameters.len() == 0 ==> behind == asked
        }),
{
    let tried = seq![auth_request(Some(stale))] + parameters;
    let behind = parameters.push(auth_request(None));
    assert((seq![status_request()] + parameters).drop_first() =~= parameters);
    assert(tried.drop_first() =~= parameters);
    assert(queue_after(refused, tried, Some(stale)) == behind);
    lemma_token_request_comes_to_front(parameters);
    assert(queue_after(Reply::APIError(denied), behind, None) == seq![auth_request(None)]
        + parameters);
    assert((seq![auth_request(None)] + parameters).drop_first() =~= parameters);
    assert((seq![auth_request(Some(granted.authentication_token))] + parameters).drop_first()
        =~= parameters);
    if parameters.len() == 0 {
        assert(behind =~= seq![auth_request(None)] + parameters);
    }
}

proof fn lemma_token_request_comes_to_front(parameters: Seq<Pending>)
    requires
        forall|i: int| 0 <= i < parameters.len() ==> creates(#[trigger] parameters[i]),
    ensures
        reauthenticated(parameters.push(auth_request(None)), None) == seq![auth_request(None)]
            + parameters,
{
    let asks = |request: Pending| authenticates(request);
    let makes = |request: Pending| creates(request);
    let behind = parameters.push(auth_request(None));
    lemma_filter_push(parameters, auth_request(None), asks);
    lemma_filter_push(parameters, auth_request(None), makes);
    lemma_filter_none(parameters, asks);
    lemma_filter_all(parameters, makes);
    assert(authentications(behind) =~= seq![auth_request(None)]);
    assert(creations(behind) == parameters);
}

/// What is kept of a list, by whether its last element is.
proof fn lemma_filter_push(list: Seq<Pending>, last: Pending, keep: spec_fn(Pending) -> bool)
    ensures
        list.push(last).filter(keep) == if keep(last) {
            list.filter(keep).push(last)
        } else {
            list.filter(keep)
        },
{
    reveal(Seq::filter);
    assert(list.push(last).drop_last() =~= list);
}

/// Where the session is authenticated already, the parameters are all that waits.
pub proof fn law_handshake_already_authenticated(
    state: Reply,
    parameters: Seq<Pending>,
    token: Option<String>,
)
    requires
        state matches Reply::APIStateResponse(s) && s.current_session_authenticated,
    ensures
        queue_after(state, seq![status_request()] + parameters, token) == parameters,
{
    let first = seq![status_request()] + parameters;
    assert(first.drop_first() =~= parameters);
}

/// A whole session with a token that is refused, and with custom parameters in the config: the
/// first parameter is refused for want of authentication; another token is asked for, granted and
/// accepted; then each parameter is asked for, the first one again; and from then on tracking data
/// is polled.
pub proof fn law_stale_token_session_comes_to_tracking(
    states: Seq<Bridge>,
    events: Seq<Event>,
    steps: Seq<Step>,
    stale: String,
    entries: Vec<CalcFn>,
    now: u64,
    state: Reply,
    refused: Reply,
    denied: APIError,
    granted: AuthenticationToken,
    accepted: Reply,
    replies: Seq<Reply>,
)
    requires
        is_run(states, events, steps),
        states[0].phase is Dialing,
        all_build(entries@),
        events.len() > 2,
        events[0] == Event::Dialed(true),
        events[1] == (Event::Opened { token: Some(stale), entries: Some(entries), now }),
        state matches Reply::APIStateResponse(s) && !s.current_session_authenticated,
        refused matches Reply::AuthenticationResponse(r) && !r.authenticated,
        denied.error_id == 8 || denied.error_id == 51,
        accepted matches Reply::AuthenticationResponse(a) && a.authenticated,
        exchanges(events, 2, state),
        exchanges(events, 5, refused),
        exchanges(events, 8, Reply::APIError(denied)),
        exchanges(events, 11, Reply::AuthenticationTokenResponse(granted)),
        exchanges(events, 14, accepted),
        creation_requests(entries@).len() > 0,
        replies.len() == creation_requests(entries@).len(),
        forall|k: int|
            0 <= k < replies.len() ==> settles_parameter(#[trigger] replies[k]) && exchanges(
                events,
                17 + 3 * k,
                replies[k],
            ),
        17 + 3 * replies.len() < events.len(),
        events[17 + 3 * replies.len() as int] == Event::Active(true),
    ensures
        steps[5].action == Action::Send(auth_request(Some(stale))),
        steps[7].effect == Some(Effect::RemoveToken),
        steps[8].action == Action::Send(creation_requests(entries@)[0]),
        steps[11].action == Action::Send(auth_request(None)),
        steps[13].effect == Some(Effect::SaveToken(granted.authentication_token)),
        steps[14].action == Action::Send(auth_request(Some(granted.authentication_token))),
        steps[16].effect == Some(Effect::SetConnected(true)),
        forall|k: int|
            0 <= k < replies.len() ==> (#[trigger] steps[17 + 3 * k]).action == Action::Send(
                creation_requests(entries@)[k],
            ),
        steps[17 + 3 * replies.len() as int].action is Poll,
{
    let parameters = creation_requests(entries@);
    assert(stepped(states[0], events[0], states[1], steps[0]));
    assert(stepped(states[1], events[1], states[2], steps[1]));
    law_handshake_with_stale_token(state, refused, denied, granted, accepted, parameters, stale);
    law_request_round_trip(states, events, steps, 2, state);
    law_request_round_trip(states, events, steps, 5, refused);
    law_request_round_trip(states, events, steps, 8, Reply::APIError(denied));
    law_request_round_trip(
        states,
        events,
        steps,
        11,
        Reply::AuthenticationTokenResponse(granted),
    );
    law_request_round_trip(states, events, steps, 14, accepted);
    assert(states[17].queue == parameters);
    law_parameters_are_asked_for_in_order(states, events, steps, 17, replies);
    let end: int = 17 + 3 * replies.len() as int;
    assert(stepped(states[end], events[end], states[end + 1], steps[end]));
}

/// A request that VTube Studio refuses for want of authentication is answered by authenticating:
/// what authenticates comes first, what already waited to do so still does, every request for a
/// parameter stays, in its order, and nothing else waits.
pub proof fn law_unauthenticated_request_is_answered(
    error: APIError,
    queue: Seq<Pending>,
    token: Option<String>,
)
    requires
        error.error_id == 8 || error.error_id == 51,
    ensures
        ({
            let next = queue_after(Reply::APIError(error), queue, token);
            &&& next.len() > 0
            &&& authenticates(next[0])
            &&& authentications(next) == if authentications(queue).len() == 0 {
                seq![auth_request(token)]
            } else {
                authentications(queue)
            }
            &&& creations(next) == creations(queue)
            &&& next == authentications(next) + creations(next)
        }),
{
    let asks = |request: Pending| authenticates(request);
    let makes = |request: Pending| creates(request);
    let waiting = authentications(queue);
    let asked = if waiting.len() == 0 {
        seq![auth_request(token)]
    } else {
        waiting
    };
    let parameters = creations(queue);
    assert forall|i: int| 0 <= i < asked.len() implies asks(#[trigger] asked[i]) && !makes(
        asked[i],
    ) by {
        if waiting.len() > 0 {
            queue.lemma_filter_pred(asks, i);
        }
    }
    assert forall|i: int| 0 <= i < parameters.len() implies makes(#[trigger] parameters[i])
        && !asks(parameters[i]) by {
        queue.lemma_filter_pred(makes, i);
    }
    Seq::filter_distributes_over_add(asked, parameters, asks);
    Seq::filter_distributes_over_add(asked, parameters, makes);
    lemma_filter_all(asked, asks);
    lemma_filter_none(asked, makes);
    lemma_filter_all(parameters, makes);
    lemma_filter_none(parameters, asks);
    let next = queue_after(Reply::APIError(error), queue, token);
    assert(next == asked + parameters);
    assert(asked + Seq::<Pending>::empty() =~= asked);
    assert(Seq::<Pending>::empty() + parameters =~= parameters);
    assert(asks(asked[0]));
}

/// Is this a reply about the state or the authentication that comes while a request for a
/// parameter is the one to be answered?
pub open spec fn out_of_turn(bridge: Bridge, event: Event) -> bool {
    &&& bridge.queue.len() > 0
    &&& creates(bridge.queue[0])
    &&& event matches Event::Received(Received::Reply(reply))
    &&& (reply is APIStateResponse || reply is AuthenticationTokenResponse
        || reply is AuthenticationResponse)
}

proof fn lemma_authentication_in_front(token: Option<String>, rest: Seq<Pending>)
    ensures
        creations(seq![auth_request(token)] + rest) == creations(rest),
{
    let list = seq![auth_request(token)] + rest;
    lemma_filter_first(list, |request: Pending| creates(request));
    assert(list.drop_first() =~= rest);
}

/// Is the first request one for a parameter?
spec fn creates_first(queue: Seq<Pending>) -> bool {
    queue.len() > 0 && creates(queue[0])
}

proof fn lemma_answer_takes_first(queue: Seq<Pending>)
    ensures
        creates_first(queue) ==> creations(queue) == seq![queue[0]] + creations(answered(queue)),
        !creates_first(queue) ==> creations(queue) == creations(answered(queue)),
{
    if queue.len() > 0 {
        lemma_filter_first(queue, |request: Pending| creates(request));
    }
}

/// What a reply leaves of the requests for parameters, where it is none out of turn.
proof fn lemma_reply_keeps_parameters(reply: Reply, queue: Seq<Pending>, token: Option<String>)
    requires
        creates_first(queue) ==> !(reply is APIStateResponse) && !(
        reply is AuthenticationTokenResponse) && !(reply is AuthenticationResponse),
    ensures
        creates_first(queue) && settles_parameter(reply) ==> creations(
            queue_after(reply, queue, token),
        ) == creations(answered(queue)),
        !(creates_first(queue) && settles_parameter(reply)) ==> creations(
            queue_after(reply, queue, token),
        ) == creations(queue),
{
    let cut = answered(queue);
    lemma_answer_takes_first(queue);
    match reply {
        Reply::APIError(error) => {
            if error.error_id == 8 || error.error_id == 51 {
                law_unauthenticated_request_is_answered(error, queue, token);
            }
        },
        Reply::APIStateResponse(state) => {
            if !state.current_session_authenticated {
                lemma_authentication_in_front(token, cut);
            }
        },
        Reply::AuthenticationTokenResponse(granted) => {
            lemma_authentication_in_front(Some(granted.authentication_token), cut);
        },
        Reply::AuthenticationResponse(result) => {
            if !result.authenticated {
                lemma_filter_push(cut, auth_request(None), |request: Pending| creates(request));
            }
        },
        _ => {},
    }
}

/// A request for a parameter leaves the queue only when VTube Studio says that the parameter was
/// created or cannot be, or with a new session; the others stay, in their order. This holds of
/// every event but a reply out of turn, which counts as the answer to the first request.
pub proof fn law_parameter_requests_stay(before: Bridge, event: Event, after: Bridge, step: Step)
    requires
        stepped(before, event, after, step),
        !(event is Opened),
        !out_of_turn(before, event),
    ensures
        creations(after.queue) == creations(before.queue) || {
            &&& event matches Event::Received(Received::Reply(reply))
            &&& settles_parameter(reply)
            &&& before.phase is Reading
            &&& before.queue.len() > 0
            &&& creates(before.queue[0])
            &&& creations(before.queue) == seq![before.queue[0]] + creations(after.queue)
        },
{
    if before.phase is Reading {
        if let Event::Received(Received::Reply(reply)) = event {
            lemma_reply_keeps_parameters(reply, before.queue, before.token);
            lemma_answer_takes_first(before.queue);
            assert(after.queue == queue_after(reply, before.queue, before.token));
        } else {
            assert(after.queue == before.queue);
        }
    } else {
        assert(after.queue == before.queue);
    }
}

/// Was the request sent among the first `n` steps?
pub open spec fn sent(steps: Seq<Step>, n: int, request: Pending) -> bool {
    exists|i: int| 0 <= i < n && (#[trigger] steps[i]).action == Action::Send(request)
}

proof fn lemma_sent_stays(steps: Seq<Step>, n: int, request: Pending)
    requires
        sent(steps, n, request),
    ensures
        sent(steps, n + 1, request),
{
    let i = choose|i: int| 0 <= i < n && (#[trigger] steps[i]).action == Action::Send(request);
    assert(steps[i].action == Action::Send(request));
}

/// Does the request that waits for its reply in this state count among those that were sent?
spec fn front_was_sent(bridge: Bridge, steps: Seq<Step>, n: int) -> bool {
    bridge.queue.len() > 0 && (bridge.phase is Sending || bridge.phase is Reading
        || bridge.dont_send) ==> sent(steps, n, bridge.queue[0])
}

/// Are all of the parameters but the last `rest.len()` sent, and those the ones that wait?
spec fn sent_but(steps: Seq<Step>, n: int, all: Seq<Pending>, rest: Seq<Pending>) -> bool {
    &&& rest.len() <= all.len()
    &&& rest == all.skip(all.len() - rest.len())
    &&& forall|k: int| 0 <= k < all.len() - rest.len() ==> sent(steps, n, #[trigger] all[k])
}

proof fn lemma_parameters_are_sent(
    states: Seq<Bridge>,
    events: Seq<Event>,
    steps: Seq<Step>,
    n: int,
)
    requires
        is_run(states, events, steps),
        invariant_holds(states[0]),
        states[0].phase is Ready,
        !states[0].dont_send,
        0 <= n < states.len(),
        forall|i: int|
            0 <= i < n ==> !(#[trigger] events[i] is Opened) && !out_of_turn(states[i], events[i]),
    ensures
        front_was_sent(states[n], steps, n),
        sent_but(steps, n, creations(states[0].queue), creations(states[n].queue)),
    decreases n,
{
    let all = creations(states[0].queue);
    if n == 0 {
        assert(all.skip(0) =~= all);
    } else {
        lemma_parameters_are_sent(states, events, steps, n - 1);
        law_invariant_holds_throughout(states, events, steps, n - 1);
        let before = states[n - 1];
        let after = states[n];
        let event = events[n - 1];
        let step = steps[n - 1];
        assert(!(event is Opened));
        assert(stepped(before, event, after, step));
        law_parameter_requests_stay(before, event, after, step);
        if before.queue.len() > 0 && sent(steps, n - 1, before.queue[0]) {
            lemma_sent_stays(steps, n - 1, before.queue[0]);
        }
        if after.phase is Sending && !(before.phase is Sending) {
            assert(step.action == Action::Send(after.queue[0]));
            assert(sent(steps, n, after.queue[0]));
        }
        let rest = creations(before.queue);
        assert forall|k: int| 0 <= k < all.len() - rest.len() implies sent(
            steps,
            n,
            #[trigger] all[k],
        ) by {
            lemma_sent_stays(steps, n - 1, all[k]);
        }
        let left = creations(after.queue);
        if left != rest {
            assert(rest[0] == before.queue[0]);
            assert(rest[0] == all[all.len() - rest.len()]);
            assert(rest.drop_first() =~= left);
            assert(left =~= all.skip(all.len() - left.len()));
        }
    }
}

/// In a session, tracking data is polled or injected only after every parameter of the config has
/// been asked for, however the session came to be authenticated. This holds of every course of
/// events without a reply out of turn.
pub proof fn law_parameters_are_asked_for_before_tracking(
    states: Seq<Bridge>,
    events: Seq<Event>,
    steps: Seq<Step>,
    n: int,
    k: int,
)
    requires
        is_run(states, events, steps),
        invariant_holds(states[0]),
        states[0].phase is Ready,
        !states[0].dont_send,
        0 <= n < events.len(),
        forall|i: int|
            0 <= i <= n ==> !(#[trigger] events[i] is Opened) && !out_of_turn(states[i], events[i]),
        steps[n].action is Poll || steps[n].action is Evaluate || steps[n].action is Inject,
        0 <= k < creations(states[0].queue).len(),
    ensures
        sent(steps, n, creations(states[0].queue)[k]),
{
    lemma_parameters_are_sent(states, events, steps, n);
    law_invariant_holds_throughout(states, events, steps, n);
    assert(stepped(states[n], events[n], states[n + 1], steps[n]));
    reveal(Seq::filter);
    assert(creations(states[n].queue).len() == 0);
}

/// A parameter that cannot be created is passed over as if it had been.
pub proof fn law_refused_parameter_is_passed_over(
    error: APIError,
    queue: Seq<Pending>,
    token: Option<String>,
)
    requires
        error.error_id == 352 || error.error_id == 354,
    ensures
        queue_after(Reply::APIError(error), queue, token) == queue_after(
            Reply::ParameterCreationResponse,
            queue,
            token,
        ),
{
}

/// The requests for parameters, and those that authenticate, are picked from a queue one by one:
/// those of two queues in a row are those of the first and then those of the second, and a request
/// alone is picked exactly if it is one.
pub proof fn law_requests_are_picked_one_by_one(a: Seq<Pending>, b: Seq<Pending>, request: Pending)
    ensures
        creations(a + b) == creations(a) + creations(b),
        authentications(a + b) == authentications(a) + authentications(b),
        creations(seq![request]) == if request.data matches Some(data) && data
            is ParameterCreation {
            seq![request]
        } else {
            Seq::empty()
        },
        authentications(seq![request]) == if request.data matches Some(data) && (data is Auth
            || data is AuthToken) {
            seq![request]
        } else {
            Seq::empty()
        },
        creations(Seq::empty()).len() == 0,
        authentications(Seq::empty()).len() == 0,
{
    let asks = |r: Pending| authenticates(r);
    let makes = |r: Pending| creates(r);
    Seq::filter_distributes_over_add(a, b, asks);
    Seq::filter_distributes_over_add(a, b, makes);
    lemma_filter_push(Seq::empty(), request, asks);
    lemma_filter_push(Seq::empty(), request, makes);
    lemma_filter_none(Seq::empty(), asks);
    lemma_filter_none(Seq::empty(), makes);
    assert(Seq::<Pending>::empty().push(request) =~= seq![request]);
}

} // verus!
