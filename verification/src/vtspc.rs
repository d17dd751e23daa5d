//! The bridge to VTube Studio: a machine that says what to do next and is told what came of it.
//!
//! A driver performs each action that `VtsPc::run` asks for and hands the outcome back as an
//! event. The machine dials VTube Studio until a connection stands, authenticates, creates the
//! custom parameters and then injects tracking data, one request at a time.
use crate::bridge_laws::invariant_holds;
use crate::formula::Formula;
use crate::requests::{
    auth_request, authenticates, creates, envelope, is_authentication, is_creation, status_request,
    Auth, AuthToken, InjectParams, Pending, RequestData, VTSApiRequest,
};
use crate::responces::{
    APIError, APIStateResponse, AuthenticationResponse, AuthenticationToken, Discovery,
};
use crate::text::{decimal, decimal_text};
use crate::tracking::{
    bound, evaluation_bindings, evaluation_context, injects, Binding, Outcome, TrackingResponce,
};
use crate::transform::{all_build, creation_requests, formulas_of, CalcFn};
use std::collections::VecDeque;
use vstd::prelude::*;

verus! {

/// Nanoseconds in a second.
pub const SECOND: u64 = 1_000_000_000;

/// AFK detection: after `timeout_secs` without a face, VTube Studio is told that the face is lost.
#[derive(Clone, Copy, Debug)]
pub struct AfkConfig {
    pub enabled: bool,
    pub timeout_secs: u32,
}

/// What the machine waits for.
#[derive(Clone, Copy, Debug, PartialEq, Eq, Structural)]
pub enum Phase {
    /// Whether to connect at all.
    Idle,
    /// Whether to dial this port.
    Connecting(u16),
    /// Whether this port answered.
    Dialing(u16),
    /// The port that VTube Studio announces, this one having failed.
    Discovering(u16),
    /// What the session starts with.
    Opening,
    /// Whether to go on with the session.
    Ready,
    /// Whether the first request of the queue was sent.
    Sending,
    /// The frames that have come in.
    Polling,
    /// The outcomes of the formulas.
    Evaluating,
    /// Whether the tracking data was sent.
    Injecting,
    /// The next message.
    Reading,
    /// Nothing more.
    Stopped,
}

/// A message of VTube Studio.
#[derive(Debug)]
pub enum Reply {
    APIError(APIError),
    APIStateResponse(APIStateResponse),
    AuthenticationTokenResponse(AuthenticationToken),
    AuthenticationResponse(AuthenticationResponse),
    InjectParameterDataResponse,
    ParameterCreationResponse,
    HotkeyTriggerResponse,
    /// A message of another type.
    Unknown,
    /// A message without a type.
    Untyped,
}

/// What a read from the connection gave.
#[derive(Debug)]
pub enum Received {
    Reply(Reply),
    /// A ping or a pong.
    Control,
    /// Anything else that is no text.
    Other,
    /// The connection failed.
    Failed,
}

/// What came of the last action. Times are nanoseconds on one clock that does not go back.
#[derive(Debug)]
pub enum Event {
    /// Is the bridge still wanted?
    Active(bool),
    /// Did the connection come about?
    Dialed(bool),
    /// The announcement that was heard, if one was.
    Discovered(Option<Discovery>),
    /// The stored token and the config, as far as they could be read.
    Opened { token: Option<String>, entries: Option<Vec<CalcFn>>, now: u64 },
    /// Was the request sent?
    Sent(bool),
    /// The frames since the last poll, oldest first.
    Polled { frames: Vec<TrackingResponce>, now: u64 },
    /// The outcomes of the formulas, in their order.
    Evaluated(Vec<Outcome>),
    Received(Received),
}

/// What is to be done besides the next action.
#[derive(Debug)]
pub enum Effect {
    /// Show whether tracking data can flow: VTube Studio has accepted the bridge, and the session
    /// goes on.
    SetConnected(bool),
    SaveToken(String),
    RemoveToken,
}

/// What to do next; each action but the last two is answered by an event.
#[derive(Debug)]
pub enum Action {
    CheckActive,
    /// Connect to this address.
    Dial(String),
    /// Wait a little, then listen for an announcement.
    Discover,
    /// Read the stored token and the config.
    Open,
    Send(Pending),
    Poll,
    /// Evaluate the formulas with these bindings.
    Evaluate(Vec<Binding>),
    Inject(VTSApiRequest<InjectParams>),
    Read,
    Stop,
    /// The event was not the one awaited, and changed nothing.
    Ignored,
}

#[derive(Debug)]
pub struct Step {
    pub effect: Option<Effect>,
    pub action: Action,
}

/// What a connection carries with it.
pub struct Session {
    /// The requests that wait for an answer. The first one is sent until it has been answered.
    pub queue: VecDeque<Pending>,
    pub token: Option<String>,
    pub formulas: Vec<Formula>,
    /// Nothing is sent before the next message has been read.
    pub dont_send: bool,
    /// When a face was last seen.
    pub last_face_found: u64,
    /// Has VTube Studio been told that the face is lost?
    pub afk_active: bool,
}

/// The bridge.
pub struct VtsPc {
    pub port: u16,
    pub mirror: bool,
    pub afk: AfkConfig,
    pub phase: Phase,
    pub session: Session,
}

/// The state of a bridge.
pub struct Bridge {
    pub port: u16,
    pub mirror: bool,
    pub afk: AfkConfig,
    pub phase: Phase,
    pub queue: Seq<Pending>,
    pub token: Option<String>,
    pub formulas: Seq<Formula>,
    pub dont_send: bool,
    pub last_face_found: u64,
    pub afk_active: bool,
}

impl View for VtsPc {
    type V = Bridge;

    open spec fn view(&self) -> Bridge {
        Bridge {
            port: self.port,
            mirror: self.mirror,
            afk: self.afk,
            phase: self.phase,
            queue: self.session.queue@,
            token: self.session.token,
            formulas: self.session.formulas@,
            dont_send: self.session.dont_send,
            last_face_found: self.session.last_face_found,
            afk_active: self.session.afk_active,
        }
    }
}

/// The address of a port of VTube Studio.
pub open spec fn address(port: u16) -> Seq<char> {
    "ws://localhost:"@ + decimal(port as nat)
}

/// The queue once its first request has been answered.
pub open spec fn answered(queue: Seq<Pending>) -> Seq<Pending> {
    if queue.len() == 0 {
        queue
    } else {
        queue.drop_first()
    }
}

/// The requests of a queue that authenticate.
pub open spec fn authentications(queue: Seq<Pending>) -> Seq<Pending> {
    queue.filter(|request: Pending| authenticates(request))
}

/// The requests of a queue that create parameters.
pub open spec fn creations(queue: Seq<Pending>) -> Seq<Pending> {
    queue.filter(|request: Pending| creates(request))
}

/// The queue of a session that turns out not to be authenticated: what authenticates it comes
/// first, and the parameters are created after that.
pub open spec fn reauthenticated(queue: Seq<Pending>, token: Option<String>) -> Seq<Pending> {
    let asked = authentications(queue);
    if asked.len() == 0 {
        seq![auth_request(token)] + creations(queue)
    } else {
        asked + creations(queue)
    }
}

/// The token after a reply.
pub open spec fn token_after(reply: Reply, token: Option<String>) -> Option<String> {
    match reply {
        Reply::AuthenticationTokenResponse(granted) => Some(granted.authentication_token),
        Reply::AuthenticationResponse(result) => if result.authenticated {
            token
        } else {
            None
        },
        _ => token,
    }
}

/// The queue after a reply.
pub open spec fn queue_after(reply: Reply, queue: Seq<Pending>, token: Option<String>) -> Seq<
    Pending,
> {
    match reply {
        // the session is not authenticated
        Reply::APIError(error) => if error.error_id == 8 || error.error_id == 51 {
            reauthenticated(queue, token)
        } else if error.error_id == 352 || error.error_id == 354 {
            // the parameter cannot be created: go on without it
            answered(queue)
        } else {
            queue
        },
        Reply::APIStateResponse(state) => if state.current_session_authenticated {
            answered(queue)
        } else {
            seq![auth_request(token)] + answered(queue)
        },
        Reply::AuthenticationTokenResponse(granted) => seq![
            auth_request(Some(granted.authentication_token)),
        ] + answered(queue),
        Reply::AuthenticationResponse(result) => if result.authenticated {
            answered(queue)
        } else {
            answered(queue).push(auth_request(None))
        },
        Reply::ParameterCreationResponse => answered(queue),
        _ => queue,
    }
}

/// The effect of a reply.
pub open spec fn effect_of(reply: Reply) -> Option<Effect> {
    match reply {
        Reply::AuthenticationTokenResponse(granted) => Some(
            Effect::SaveToken(granted.authentication_token),
        ),
        Reply::AuthenticationResponse(result) => if result.authenticated {
            Some(Effect::SetConnected(true))
        } else {
            Some(Effect::RemoveToken)
        },
        _ => None,
    }
}

/// The time from `since` to `now`; none where the clock is said to have gone back.
pub open spec fn elapsed(since: u64, now: u64) -> int {
    if now >= since {
        now - since
    } else {
        0
    }
}

/// Has no face been seen for the time set, or is that known already?
pub open spec fn away(bridge: Bridge, now: u64) -> bool {
    bridge.afk.enabled && (bridge.afk_active || elapsed(bridge.last_face_found, now)
        >= bridge.afk.timeout_secs * SECOND)
}

/// The step that only goes on to another phase.
pub open spec fn moves(
    before: Bridge,
    after: Bridge,
    step: Step,
    phase: Phase,
    action: Action,
) -> bool {
    after == (Bridge { phase, ..before }) && step == (Step { effect: None, action })
}

/// The step that ends a session: VTube Studio is connected no longer.
pub open spec fn ends(before: Bridge, after: Bridge, step: Step) -> bool {
    &&& after == (Bridge { phase: Phase::Idle, ..before })
    &&& step == (Step { effect: Some(Effect::SetConnected(false)), action: Action::CheckActive })
}

/// Where a session goes on: it reads where nothing may be sent, else it sends the first request
/// that waits, else it asks for tracking data.
pub open spec fn goes_on(before: Bridge, after: Bridge, step: Step) -> bool {
    if before.dont_send {
        moves(before, after, step, Phase::Reading, Action::Read)
    } else if before.queue.len() > 0 {
        moves(before, after, step, Phase::Sending, Action::Send(before.queue[0]))
    } else {
        moves(before, after, step, Phase::Polling, Action::Poll)
    }
}

/// What the start of a session leads to. It needs a config in which every formula can be built;
/// it starts by asking for the state of the API and then creates the custom parameters.
pub open spec fn opens(
    before: Bridge,
    after: Bridge,
    step: Step,
    token: Option<String>,
    entries: Option<Vec<CalcFn>>,
    now: u64,
) -> bool {
    match entries {
        Some(entries) if all_build(entries@) => {
            &&& formulas_of(after.formulas, entries@)
            &&& after == (Bridge {
                phase: Phase::Ready,
                queue: seq![status_request()] + creation_requests(entries@),
                token,
                formulas: after.formulas,
                dont_send: false,
                last_face_found: now,
                afk_active: false,
                ..before
            })
            &&& step == (Step { effect: None, action: Action::CheckActive })
        },
        _ => moves(before, after, step, Phase::Idle, Action::CheckActive),
    }
}

/// What the frames of a poll lead to. Only the newest one counts. A face is evaluated; that there
/// is none is passed on once the face has been away for the time set.
pub open spec fn looks(
    before: Bridge,
    after: Bridge,
    step: Step,
    frames: Seq<TrackingResponce>,
    now: u64,
) -> bool {
    if frames.len() == 0 {
        moves(before, after, step, Phase::Ready, Action::CheckActive)
    } else if frames.last().face_found {
        &&& after == (Bridge {
            phase: Phase::Evaluating,
            last_face_found: now,
            afk_active: false,
            ..before
        })
        &&& step.effect is None
        &&& step.action matches Action::Evaluate(bindings)
        &&& bound(bindings@) == evaluation_context(frames.last(), before.mirror, before.formulas)
    } else if away(before, now) {
        &&& after == (Bridge { phase: Phase::Injecting, afk_active: true, ..before })
        &&& step.effect is None
        &&& step.action matches Action::Inject(request)
        &&& injects(request, false, before.formulas, Seq::empty())
    } else {
        moves(before, after, step, Phase::Ready, Action::CheckActive)
    }
}

/// What a read leads to.
pub open spec fn reads(before: Bridge, after: Bridge, step: Step, received: Received) -> bool {
    match received {
        Received::Reply(reply) => {
            &&& after == (Bridge {
                phase: Phase::Ready,
                queue: queue_after(reply, before.queue, before.token),
                token: token_after(reply, before.token),
                dont_send: false,
                ..before
            })
            &&& step == (Step { effect: effect_of(reply), action: Action::CheckActive })
        },
        Received::Control => {
            &&& after == (Bridge { phase: Phase::Ready, dont_send: true, ..before })
            &&& step == (Step { effect: None, action: Action::CheckActive })
        },
        Received::Other => moves(before, after, step, Phase::Ready, Action::CheckActive),
        Received::Failed => ends(before, after, step),
    }
}

/// What an event leads to, in every phase.
pub open spec fn stepped(before: Bridge, event: Event, after: Bridge, step: Step) -> bool {
    match (before.phase, event) {
        (Phase::Idle, Event::Active(wanted)) => if wanted {
            moves(before, after, step, Phase::Connecting(before.port), Action::CheckActive)
        } else {
            moves(before, after, step, Phase::Stopped, Action::Stop)
        },
        (Phase::Connecting(port), Event::Active(wanted)) => if wanted {
            &&& after == (Bridge { phase: Phase::Dialing(port), ..before })
            &&& step.effect is None
            &&& step.action matches Action::Dial(place)
            &&& place@ == address(port)
        } else {
            moves(before, after, step, Phase::Stopped, Action::Stop)
        },
        (Phase::Dialing(port), Event::Dialed(connected)) => if connected {
            &&& after == (Bridge { phase: Phase::Opening, ..before })
            &&& step == (Step { effect: Some(Effect::SetConnected(false)), action: Action::Open })
        } else {
            moves(before, after, step, Phase::Discovering(port), Action::Discover)
        },
        (Phase::Discovering(port), Event::Discovered(found)) => moves(
            before,
            after,
            step,
            Phase::Connecting(
                match found {
                    Some(announced) => announced.port,
                    None => port,
                },
            ),
            Action::CheckActive,
        ),
        (Phase::Opening, Event::Opened { token, entries, now }) => opens(
            before,
            after,
            step,
            token,
            entries,
            now,
        ),
        (Phase::Ready, Event::Active(wanted)) => if wanted {
            goes_on(before, after, step)
        } else {
            ends(before, after, step)
        },
        (Phase::Sending, Event::Sent(sent)) | (Phase::Injecting, Event::Sent(sent)) => if sent {
            moves(before, after, step, Phase::Reading, Action::Read)
        } else {
            ends(before, after, step)
        },
        (Phase::Polling, Event::Polled { frames, now }) => looks(
            before,
            after,
            step,
            frames@,
            now,
        ),
        (Phase::Evaluating, Event::Evaluated(outcomes)) => {
            &&& after == (Bridge { phase: Phase::Injecting, ..before })
            &&& step.effect is None
            &&& step.action matches Action::Inject(request)
            &&& injects(request, true, before.formulas, outcomes@)
        },
        (Phase::Reading, Event::Received(received)) => reads(before, after, step, received),
        _ => moves(before, after, step, before.phase, Action::Ignored),
    }
}

impl VtsPc {
    /// A bridge to the given port that has yet to be told whether to connect.
    pub fn new(port: u16, mirror: bool, afk: AfkConfig) -> (bridge: VtsPc)
        ensures
            bridge@ == (Bridge {
                port,
                mirror,
                afk,
                phase: Phase::Idle,
                queue: Seq::empty(),
                token: None,
                formulas: Seq::empty(),
                dont_send: false,
                last_face_found: 0,
                afk_active: false,
            }),
            invariant_holds(bridge@),
    {
        VtsPc {
            port,
            mirror,
            afk,
            phase: Phase::Idle,
            session: Session {
                queue: VecDeque::new(),
                token: None,
                formulas: Vec::new(),
                dont_send: false,
                last_face_found: 0,
                afk_active: false,
            },
        }
    }

    /// Takes the event that the last action led to, and says what to do next.
    pub fn run(&mut self, event: Event) -> (step: Step)
        ensures
            stepped(old(self)@, event, final(self)@, step),
    {
        match (self.phase, event) {
            (Phase::Idle, Event::Active(wanted)) => if wanted {
                let port: u16 = self.port;
                self.proceed(Phase::Connecting(port), Action::CheckActive)
            } else {
                self.proceed(Phase::Stopped, Action::Stop)
            },
            (Phase::Connecting(port), Event::Active(wanted)) => if wanted {
                let place: String = "ws://localhost:".to_owned().concat(
                    decimal_text(port as u64).as_str(),
                );
                self.proceed(Phase::Dialing(port), Action::Dial(place))
            } else {
                self.proceed(Phase::Stopped, Action::Stop)
            },
            (Phase::Dialing(port), Event::Dialed(connected)) => if connected {
                self.phase = Phase::Opening;
                Step { effect: Some(Effect::SetConnected(false)), action: Action::Open }
            } else {
                self.proceed(Phase::Discovering(port), Action::Discover)
            },
            (Phase::Discovering(port), Event::Discovered(found)) => {
                let next: u16 = match found {
                    Some(announced) => announced.port,
                    None => port,
                };
                self.proceed(Phase::Connecting(next), Action::CheckActive)
            },
            (Phase::Opening, Event::Opened { token, entries, now }) => self.open(
                token,
                entries,
                now,
            ),
            (Phase::Ready, Event::Active(wanted)) => if wanted {
                self.go_on()
            } else {
                self.end()
            },
            (Phase::Sending, Event::Sent(sent)) | (Phase::Injecting, Event::Sent(sent)) => if sent {
                self.proceed(Phase::Reading, Action::Read)
            } else {
                self.end()
            },
            (Phase::Polling, Event::Polled { frames, now }) => self.look(&frames, now),
            (Phase::Evaluating, Event::Evaluated(outcomes)) => {
                let request = VtsPc::tracking_msg(true, &self.session.formulas, &outcomes);
                self.proceed(Phase::Injecting, Action::Inject(request))
            },
            (Phase::Reading, Event::Received(received)) => self.read(received),
            _ => Step { effect: None, action: Action::Ignored },
        }
    }

    fn proceed(&mut self, phase: Phase, action: Action) -> (step: Step)
        ensures
            moves(old(self)@, final(self)@, step, phase, action),
    {
        self.phase = phase;
        Step { effect: None, action }
    }

    fn end(&mut self) -> (step: Step)
        ensures
            ends(old(self)@, final(self)@, step),
    {
        self.phase = Phase::Idle;
        Step { effect: Some(Effect::SetConnected(false)), action: Action::CheckActive }
    }

    fn open(&mut self, token: Option<String>, entries: Option<Vec<CalcFn>>, now: u64) -> (step:
        Step)
        ensures
            opens(old(self)@, final(self)@, step, token, entries, now),
    {
        match VtsPc::precalc_cfg(entries) {
            Some((formulas, requests)) => {
                let mut requests = requests;
                let mut queue: VecDeque<Pending> = VecDeque::new();
                queue.push_back(VtsPc::req_status_msg());
                queue.append(&mut requests);
                self.session = Session {
                    queue,
                    token,
                    formulas,
                    dont_send: false,
                    last_face_found: now,
                    afk_active: false,
                };
                self.phase = Phase::Ready;
                assert(self.session.queue@ =~= seq![status_request()] + creation_requests(
                    entries->0@,
                ));
                Step { effect: None, action: Action::CheckActive }
            },
            None => self.proceed(Phase::Idle, Action::CheckActive),
        }
    }

    fn go_on(&mut self) -> (step: Step)
        ensures
            goes_on(old(self)@, final(self)@, step),
    {
        if self.session.dont_send {
            self.proceed(Phase::Reading, Action::Read)
        } else if self.session.queue.len() > 0 {
            let request: Pending = self.session.queue[0].clone();
            self.proceed(Phase::Sending, Action::Send(request))
        } else {
            self.proceed(Phase::Polling, Action::Poll)
        }
    }

    fn look(&mut self, frames: &Vec<TrackingResponce>, now: u64) -> (step: Step)
        ensures
            looks(old(self)@, final(self)@, step, frames@, now),
    {
        if frames.len() == 0 {
            return self.proceed(Phase::Ready, Action::CheckActive);
        }
        let frame: &TrackingResponce = &frames[frames.len() - 1];
        if frame.face_found {
            self.session.last_face_found = now;
            self.session.afk_active = false;
            let bindings: Vec<Binding> = evaluation_bindings(
                frame,
                self.mirror,
                &self.session.formulas,
            );
            self.proceed(Phase::Evaluating, Action::Evaluate(bindings))
        } else if self.is_away(now) {
            self.session.afk_active = true;
            let none: Vec<Outcome> = Vec::new();
            let request = VtsPc::tracking_msg(false, &self.session.formulas, &none);
            self.proceed(Phase::Injecting, Action::Inject(request))
        } else {
            self.proceed(Phase::Ready, Action::CheckActive)
        }
    }

    fn is_away(&self, now: u64) -> (yes: bool)
        ensures
            yes == away(self@, now),
    {
        let timeout: u64 = self.afk.timeout_secs as u64 * SECOND;
        let gone: u64 = if now >= self.session.last_face_found {
            now - self.session.last_face_found
        } else {
            0
        };
        self.afk.enabled && (self.session.afk_active || gone >= timeout)
    }

    fn read(&mut self, received: Received) -> (step: Step)
        ensures
            reads(old(self)@, final(self)@, step, received),
    {
        match received {
            Received::Reply(reply) => {
                let effect: Option<Effect> = self.answer(reply);
                self.session.dont_send = false;
                self.phase = Phase::Ready;
                Step { effect, action: Action::CheckActive }
            },
            Received::Control => {
                self.session.dont_send = true;
                self.proceed(Phase::Ready, Action::CheckActive)
            },
            Received::Other => self.proceed(Phase::Ready, Action::CheckActive),
            Received::Failed => self.end(),
        }
    }

    /// The request for the state of the API.
    pub fn req_status_msg() -> (request: Pending)
        ensures
            request == status_request(),
    {
        envelope("APIStateRequest", None)
    }

    /// The request that authenticates with the token, or asks for one.
    pub fn auth(token: &Option<String>) -> (request: Pending)
        ensures
            request == auth_request(*token),
    {
        match token {
            Some(token) => envelope(
                "AuthenticationRequest",
                Some(
                    RequestData::Auth(
                        Auth {
                            plugin_name: "RustyBridgeUi",
                            plugin_developer: "ovROG",
                            authentication_token: token.clone(),
                        },
                    ),
                ),
            ),
            None => envelope(
                "AuthenticationTokenRequest",
                Some(
                    RequestData::AuthToken(
                        AuthToken {
                            plugin_name: "RustyBridgeUi",
                            plugin_developer: "ovROG",
                            plugin_icon: None,
                        },
                    ),
                ),
            ),
        }
    }

    fn pop(&mut self)
        ensures
            final(self)@ == (Bridge { queue: answered(old(self)@.queue), ..old(self)@ }),
    {
        let _ = self.session.queue.pop_front();
        assert(self.session.queue@ =~= answered(old(self)@.queue));
    }

    /// Puts what authenticates the session first and keeps the requests for parameters after it.
    fn reauthenticate(&mut self)
        ensures
            final(self)@ == (Bridge {
                queue: reauthenticated(old(self)@.queue, old(self)@.token),
                ..old(self)@
            }),
    {
        let ghost all = self.session.queue@;
        let ghost asks = |request: Pending| authenticates(request);
        let ghost makes = |request: Pending| creates(request);
        let mut asked: VecDeque<Pending> = VecDeque::new();
        let mut parameters: VecDeque<Pending> = VecDeque::new();
        proof {
            reveal(Seq::filter);
            assert(all.take(0) =~= Seq::<Pending>::empty());
            assert(all.skip(0) =~= all);
        }
        let ghost mut done: int = 0;
        while self.session.queue.len() > 0
            invariant
                0 <= done <= all.len(),
                asks == (|request: Pending| authenticates(request)),
                makes == (|request: Pending| creates(request)),
                self@ == (Bridge { queue: all.skip(done), ..old(self)@ }),
                old(self)@.queue == all,
                asked@ == all.take(done).filter(asks),
                parameters@ == all.take(done).filter(makes),
            decreases self.session.queue@.len(),
        {
            let ghost front = all[done];
            match self.session.queue.pop_front() {
                Some(request) => {
                    assert(request == front);
                    if is_authentication(&request) {
                        asked.push_back(request);
                    } else if is_creation(&request) {
                        parameters.push_back(request);
                    }
                },
                None => {},
            }
            proof {
                reveal(Seq::filter);
                assert(all.take(done + 1).drop_last() =~= all.take(done));
                assert(self.session.queue@ =~= all.skip(done + 1));
                done = done + 1;
            }
        }
        assert(all.take(done) =~= all);
        if asked.len() == 0 {
            asked.push_back(VtsPc::auth(&self.session.token));
            assert(asked@ =~= seq![auth_request(self.session.token)]);
        }
        asked.append(&mut parameters);
        self.session.queue = asked;
    }

    /// Takes a reply into account.
    fn answer(&mut self, reply: Reply) -> (effect: Option<Effect>)
        ensures
            final(self)@ == (Bridge {
                queue: queue_after(reply, old(self)@.queue, old(self)@.token),
                token: token_after(reply, old(self)@.token),
                ..old(self)@
            }),
            effect == effect_of(reply),
    {
        match reply {
            Reply::APIError(error) => {
                if error.error_id == 8 || error.error_id == 51 {
                    self.reauthenticate();
                } else if error.error_id == 352 || error.error_id == 354 {
                    self.pop();
                }
                None
            },
            Reply::APIStateResponse(state) => {
                self.pop();
                if !state.current_session_authenticated {
                    let request: Pending = VtsPc::auth(&self.session.token);
                    self.session.queue.push_front(request);
                }
                None
            },
            Reply::AuthenticationTokenResponse(granted) => {
                let token: String = granted.authentication_token.clone();
                self.session.token = Some(granted.authentication_token);
                self.pop();
                let request: Pending = VtsPc::auth(&self.session.token);
                self.session.queue.push_front(request);
                Some(Effect::SaveToken(token))
            },
            Reply::AuthenticationResponse(result) => {
                self.pop();
                if result.authenticated {
                    Some(Effect::SetConnected(true))
                } else {
                    self.session.token = None;
                    let request: Pending = VtsPc::auth(&self.session.token);
                    self.session.queue.push_back(request);
                    Some(Effect::RemoveToken)
                }
            },
            Reply::ParameterCreationResponse => {
                self.pop();
                None
            },
            _ => None,
        }
    }
}

} // verus!
