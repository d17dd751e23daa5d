use rbridger::number::Real;
use rbridger::requests::RequestData;
use rbridger::responces::{
    APIError, APIStateResponse, AuthenticationResponse, AuthenticationToken, Discovery,
};
use rbridger::tracking::{Outcome, TrackingResponce, Vector};
use rbridger::transform::{CalcFn, Number};
use rbridger::vtspc::{
    Action, AfkConfig, Effect, Event, Phase, Received, Reply, Step, VtsPc, SECOND,
};

fn number(x: f64) -> Number {
    Number { value: Real { bits: x.to_bits() }, text: x.to_string() }
}

fn entry(name: &str) -> CalcFn {
    CalcFn {
        name: name.to_string(),
        func: "HeadRotX + Missing".to_string(),
        min: number(-1.0),
        max: number(1.0),
        default_value: number(0.0),
    }
}

fn frame(face_found: bool) -> TrackingResponce {
    let r = Real { bits: 1.5f64.to_bits() };
    TrackingResponce {
        face_found,
        blend_shapes: vec![],
        rotation: Vector { x: r, y: r, z: r },
        position: Vector { x: r, y: r, z: r },
    }
}

fn bridge(afk: bool) -> VtsPc {
    VtsPc::new(8001, false, AfkConfig { enabled: afk, timeout_secs: 3 })
}

/// A bridge with an open session.
fn open(afk: bool, token: Option<&str>, names: &[&str]) -> VtsPc {
    let mut b = bridge(afk);
    b.run(Event::Active(true));
    b.run(Event::Active(true));
    b.run(Event::Dialed(true));
    let step = b.run(Event::Opened {
        token: token.map(|t| t.to_string()),
        entries: Some(names.iter().map(|n| entry(n)).collect()),
        now: 0,
    });
    assert!(matches!(step.action, Action::CheckActive));
    b
}

fn types(b: &VtsPc) -> Vec<&'static str> {
    b.session.queue.iter().map(|r| r.message_type).collect()
}

fn state(authenticated: bool) -> Reply {
    Reply::APIStateResponse(APIStateResponse {
        active: true,
        v_tube_studio_version: "1".to_string(),
        current_session_authenticated: authenticated,
    })
}

fn verdict(authenticated: bool) -> Reply {
    Reply::AuthenticationResponse(AuthenticationResponse { authenticated, reason: String::new() })
}

fn error(error_id: u16) -> Reply {
    Reply::APIError(APIError { error_id, message: String::new() })
}

/// Sends the first request of the queue and hands in its reply.
fn exchange(b: &mut VtsPc, reply: Reply) -> Step {
    assert!(matches!(b.run(Event::Active(true)).action, Action::Send(_)));
    assert!(matches!(b.run(Event::Sent(true)).action, Action::Read));
    b.run(Event::Received(Received::Reply(reply)))
}

/// Hands in a frame at the given time, and gives the step it led to.
fn poll(b: &mut VtsPc, face_found: bool, now: u64) -> Step {
    assert!(matches!(b.run(Event::Active(true)).action, Action::Poll));
    b.run(Event::Polled { frames: vec![frame(face_found)], now })
}

fn finish(b: &mut VtsPc) {
    assert!(matches!(b.run(Event::Sent(true)).action, Action::Read));
    b.run(Event::Received(Received::Reply(Reply::InjectParameterDataResponse)));
}

#[test]
fn dials_the_port_that_was_set() {
    let mut b = bridge(false);
    assert!(matches!(b.run(Event::Active(true)).action, Action::CheckActive));
    match b.run(Event::Active(true)).action {
        Action::Dial(place) => assert_eq!(place, "ws://localhost:8001"),
        other => panic!("{other:?}"),
    }
}

#[test]
fn an_announced_port_is_tried_next() {
    let mut b = bridge(false);
    b.run(Event::Active(true));
    b.run(Event::Active(true));
    assert!(matches!(b.run(Event::Dialed(false)).action, Action::Discover));
    b.run(Event::Discovered(Some(Discovery {
        active: true,
        port: 9000,
        instance_id: String::new(),
        window_title: String::new(),
    })));
    assert_eq!(b.phase, Phase::Connecting(9000));
    match b.run(Event::Active(true)).action {
        Action::Dial(place) => assert_eq!(place, "ws://localhost:9000"),
        other => panic!("{other:?}"),
    }
    b.run(Event::Dialed(false));
    b.run(Event::Discovered(None));
    assert_eq!(b.phase, Phase::Connecting(9000));
}

#[test]
fn stops_when_it_is_not_wanted() {
    let mut b = bridge(false);
    assert!(matches!(b.run(Event::Active(false)).action, Action::Stop));
    assert_eq!(b.phase, Phase::Stopped);
    assert!(matches!(b.run(Event::Active(true)).action, Action::Ignored));
    let mut b = bridge(false);
    b.run(Event::Active(true));
    assert!(matches!(b.run(Event::Active(false)).action, Action::Stop));
}

#[test]
fn an_event_that_is_not_awaited_is_ignored() {
    let mut b = bridge(false);
    let step = b.run(Event::Sent(true));
    assert!(matches!(step.action, Action::Ignored));
    assert!(step.effect.is_none());
    assert_eq!(b.phase, Phase::Idle);
}

#[test]
fn a_new_connection_is_not_yet_accepted() {
    let mut b = bridge(false);
    b.run(Event::Active(true));
    b.run(Event::Active(true));
    let step = b.run(Event::Dialed(true));
    assert!(matches!(step.effect, Some(Effect::SetConnected(false))));
    assert!(matches!(step.action, Action::Open));
}

#[test]
fn a_bad_config_ends_the_session() {
    let mut b = bridge(false);
    b.run(Event::Active(true));
    b.run(Event::Active(true));
    b.run(Event::Dialed(true));
    let step = b.run(Event::Opened { token: None, entries: None, now: 0 });
    assert!(matches!(step.action, Action::CheckActive));
    assert_eq!(b.phase, Phase::Idle);
}

#[test]
fn session_asks_for_state_and_parameters() {
    let b = open(false, None, &["MyParam", "Brows", "Other"]);
    assert_eq!(
        types(&b),
        ["APIStateRequest", "ParameterCreationRequest", "ParameterCreationRequest"]
    );
}

#[test]
fn handshake_with_stored_token() {
    let mut b = open(false, Some("secret"), &["MyParam"]);
    exchange(&mut b, state(false));
    assert_eq!(types(&b), ["AuthenticationRequest", "ParameterCreationRequest"]);
    match &b.session.queue[0].data {
        Some(RequestData::Auth(auth)) => {
            assert_eq!(auth.plugin_name, "RustyBridgeUi");
            assert_eq!(auth.plugin_developer, "ovROG");
            assert_eq!(auth.authentication_token, "secret");
        }
        other => panic!("{other:?}"),
    }
    let step = exchange(&mut b, verdict(true));
    assert!(matches!(step.effect, Some(Effect::SetConnected(true))));
    assert_eq!(types(&b), ["ParameterCreationRequest"]);
    exchange(&mut b, Reply::ParameterCreationResponse);
    assert!(types(&b).is_empty());
    assert!(matches!(b.run(Event::Active(true)).action, Action::Poll));
}

#[test]
fn handshake_without_token() {
    let mut b = open(false, None, &["MyParam"]);
    exchange(&mut b, state(false));
    assert_eq!(types(&b), ["AuthenticationTokenRequest", "ParameterCreationRequest"]);
    match &b.session.queue[0].data {
        Some(RequestData::AuthToken(ask)) => assert!(ask.plugin_icon.is_none()),
        other => panic!("{other:?}"),
    }
    let granted = AuthenticationToken { authentication_token: "new".to_string() };
    let step = exchange(&mut b, Reply::AuthenticationTokenResponse(granted));
    match step.effect {
        Some(Effect::SaveToken(token)) => assert_eq!(token, "new"),
        other => panic!("{other:?}"),
    }
    assert_eq!(b.session.token.as_deref(), Some("new"));
    assert_eq!(types(&b), ["AuthenticationRequest", "ParameterCreationRequest"]);
}

#[test]
fn whole_session_comes_to_tracking() {
    let mut b = bridge(false);
    b.run(Event::Active(true));
    b.run(Event::Active(true));
    let dialed = b.run(Event::Dialed(true));
    assert!(matches!(dialed.effect, Some(Effect::SetConnected(false))));
    b.run(Event::Opened {
        token: Some("t".to_string()),
        entries: Some(vec![entry("A"), entry("Brows"), entry("B"), entry("C")]),
        now: 0,
    });
    let mut sent = vec![];
    let mut accepted = false;
    for reply in [
        state(false),
        verdict(true),
        Reply::ParameterCreationResponse,
        error(352),
        Reply::ParameterCreationResponse,
    ] {
        match b.run(Event::Active(true)).action {
            Action::Send(request) => sent.push(match request.data {
                Some(RequestData::ParameterCreation(creation)) => creation.parameter_name,
                _ => request.message_type.to_string(),
            }),
            other => panic!("{other:?}"),
        }
        b.run(Event::Sent(true));
        let step = b.run(Event::Received(Received::Reply(reply)));
        accepted = accepted || matches!(step.effect, Some(Effect::SetConnected(true)));
    }
    assert_eq!(sent, ["APIStateRequest", "AuthenticationRequest", "A", "B", "C"]);
    assert!(accepted);
    assert!(types(&b).is_empty());
    assert!(matches!(b.run(Event::Active(true)).action, Action::Poll));
    assert_eq!(b.session.formulas.len(), 4);
}

#[test]
fn authenticated_session_goes_straight_on() {
    let mut b = open(false, None, &["MyParam"]);
    exchange(&mut b, state(true));
    assert_eq!(types(&b), ["ParameterCreationRequest"]);
}

#[test]
fn refused_token_is_forgotten() {
    let mut b = open(false, Some("old"), &["MyParam"]);
    exchange(&mut b, state(false));
    let step = exchange(&mut b, verdict(false));
    assert!(matches!(step.effect, Some(Effect::RemoveToken)));
    assert!(b.session.token.is_none());
    assert_eq!(types(&b), ["ParameterCreationRequest", "AuthenticationTokenRequest"]);
}

#[test]
fn refused_token_is_not_presented_again() {
    let mut b = open(false, Some("old"), &["MyParam"]);
    exchange(&mut b, state(false));
    exchange(&mut b, verdict(false));
    for reply in [error(8), error(51), state(false), error(8)] {
        match b.run(Event::Active(true)).action {
            Action::Send(request) => assert!(!matches!(request.data, Some(RequestData::Auth(_)))),
            other => panic!("{other:?}"),
        }
        b.run(Event::Sent(true));
        b.run(Event::Received(Received::Reply(reply)));
    }
    let granted = AuthenticationToken { authentication_token: "new".to_string() };
    exchange(&mut b, Reply::AuthenticationTokenResponse(granted));
    match b.run(Event::Active(true)).action {
        Action::Send(request) => assert!(matches!(
            request.data,
            Some(RequestData::Auth(auth)) if auth.authentication_token == "new"
        )),
        other => panic!("{other:?}"),
    }
}

#[test]
fn unauthenticated_requests_wait_for_authentication() {
    for id in [8, 51] {
        let mut b = open(false, Some("t"), &["MyParam", "AuthenticationRequest!"]);
        exchange(&mut b, state(true));
        exchange(&mut b, error(id));
        assert_eq!(
            types(&b),
            ["AuthenticationRequest", "ParameterCreationRequest", "ParameterCreationRequest"]
        );
        assert!(matches!(
            &b.session.queue[1].data,
            Some(RequestData::ParameterCreation(c)) if c.parameter_name == "MyParam"
        ));
        exchange(&mut b, error(id));
        assert_eq!(types(&b).len(), 3);
        exchange(&mut b, verdict(true));
        assert_eq!(types(&b), ["ParameterCreationRequest", "ParameterCreationRequest"]);
        let mut b = open(false, None, &["MyParam"]);
        exchange(&mut b, error(id));
        assert_eq!(types(&b), ["AuthenticationTokenRequest", "ParameterCreationRequest"]);
    }
}

/// Answers the first request, whatever it is, and gives its type.
fn answer_to(b: &mut VtsPc, reply: Reply) -> &'static str {
    let sent = match b.run(Event::Active(true)).action {
        Action::Send(request) => request.message_type,
        other => panic!("{other:?}"),
    };
    b.run(Event::Sent(true));
    b.run(Event::Received(Received::Reply(reply)));
    sent
}

#[test]
fn parameter_is_created_after_a_stale_token() {
    let granted = || {
        Reply::AuthenticationTokenResponse(AuthenticationToken {
            authentication_token: "new".to_string(),
        })
    };
    let mut b = open(false, Some("stale"), &["Foo"]);
    let sent = [
        answer_to(&mut b, state(false)),
        answer_to(&mut b, verdict(false)),
        answer_to(&mut b, error(8)),
        answer_to(&mut b, granted()),
        answer_to(&mut b, verdict(true)),
        answer_to(&mut b, Reply::ParameterCreationResponse),
    ];
    assert_eq!(
        sent,
        [
            "APIStateRequest",
            "AuthenticationRequest",
            "ParameterCreationRequest",
            "AuthenticationTokenRequest",
            "AuthenticationRequest",
            "ParameterCreationRequest",
        ]
    );
    assert!(matches!(b.run(Event::Active(true)).action, Action::Poll));
}

#[test]
fn a_reply_out_of_turn_counts_for_the_first_request() {
    let mut b = open(false, None, &["A", "B"]);
    exchange(&mut b, state(true));
    exchange(&mut b, verdict(true));
    assert_eq!(types(&b), ["ParameterCreationRequest"]);
}

#[test]
fn refused_parameters_are_passed_over() {
    for id in [352, 354] {
        let mut b = open(false, None, &["A", "B"]);
        exchange(&mut b, state(true));
        exchange(&mut b, error(id));
        assert_eq!(types(&b).len(), 1);
        assert!(matches!(
            &b.session.queue[0].data,
            Some(RequestData::ParameterCreation(c)) if c.parameter_name == "B"
        ));
    }
}

#[test]
fn other_replies_leave_the_queue() {
    let replies = [
        error(450),
        error(1),
        Reply::InjectParameterDataResponse,
        Reply::HotkeyTriggerResponse,
        Reply::Unknown,
        Reply::Untyped,
    ];
    for reply in replies {
        let mut b = open(false, None, &["A"]);
        let step = exchange(&mut b, reply);
        assert!(step.effect.is_none());
        assert_eq!(types(&b).len(), 2);
    }
}

#[test]
fn a_request_is_sent_until_it_is_answered() {
    let mut b = open(false, None, &[]);
    for _ in 0..3 {
        assert!(matches!(b.run(Event::Active(true)).action, Action::Send(_)));
        b.run(Event::Sent(true));
        b.run(Event::Received(Received::Other));
        assert_eq!(types(&b), ["APIStateRequest"]);
    }
}

#[test]
fn nothing_is_sent_after_a_ping() {
    let mut b = open(false, None, &[]);
    b.run(Event::Active(true));
    b.run(Event::Sent(true));
    b.run(Event::Received(Received::Control));
    assert!(matches!(b.run(Event::Active(true)).action, Action::Read));
    b.run(Event::Received(Received::Other));
    assert!(matches!(b.run(Event::Active(true)).action, Action::Read));
    b.run(Event::Received(Received::Reply(Reply::Unknown)));
    assert!(matches!(b.run(Event::Active(true)).action, Action::Send(_)));
}

fn is_shown_as_ended(b: &VtsPc, step: Step) {
    assert_eq!(b.phase, Phase::Idle);
    assert!(matches!(step.effect, Some(Effect::SetConnected(false))));
    assert!(matches!(step.action, Action::CheckActive));
}

#[test]
fn failures_end_the_session() {
    let mut b = open(false, None, &[]);
    b.run(Event::Active(true));
    let step = b.run(Event::Sent(false));
    is_shown_as_ended(&b, step);

    let mut b = open(false, None, &[]);
    b.run(Event::Active(true));
    b.run(Event::Sent(true));
    let step = b.run(Event::Received(Received::Failed));
    is_shown_as_ended(&b, step);

    let mut b = open(false, None, &[]);
    exchange(&mut b, state(true));
    poll(&mut b, true, 1);
    b.run(Event::Evaluated(vec![]));
    let step = b.run(Event::Sent(false));
    is_shown_as_ended(&b, step);

    let mut b = open(false, None, &[]);
    let step = b.run(Event::Active(false));
    is_shown_as_ended(&b, step);
    assert!(matches!(b.run(Event::Active(false)).action, Action::Stop));
}

#[test]
fn a_face_is_evaluated_and_injected() {
    let mut b = open(false, None, &["Brows"]);
    exchange(&mut b, state(true));
    match poll(&mut b, true, 7).action {
        Action::Evaluate(bindings) => {
            let of = |name: &str| {
                f64::from_bits(bindings.iter().find(|b| b.name == name).unwrap().value.bits)
            };
            assert_eq!(of("HeadRotX"), 1.5);
            assert_eq!(of("Missing"), 0.0);
        }
        other => panic!("{other:?}"),
    }
    match b.run(Event::Evaluated(vec![Outcome::Integer(4)])).action {
        Action::Inject(request) => {
            let params = request.data.unwrap();
            assert!(params.face_found);
            assert_eq!(params.parameter_values[0].id, "Brows");
            assert_eq!(f64::from_bits(params.parameter_values[0].value.bits), 4.0);
        }
        other => panic!("{other:?}"),
    }
    finish(&mut b);
    assert_eq!(b.phase, Phase::Ready);
    assert_eq!(b.session.last_face_found, 7);
}

#[test]
fn only_the_newest_frame_counts() {
    let mut b = open(false, None, &[]);
    exchange(&mut b, state(true));
    b.run(Event::Active(true));
    let step = b.run(Event::Polled { frames: vec![frame(true), frame(false)], now: 1 });
    assert!(matches!(step.action, Action::CheckActive));
    b.run(Event::Active(true));
    let step = b.run(Event::Polled { frames: vec![frame(false), frame(true)], now: 1 });
    assert!(matches!(step.action, Action::Evaluate(_)));
}

#[test]
fn no_frame_leads_to_nothing() {
    let mut b = open(true, None, &[]);
    exchange(&mut b, state(true));
    b.run(Event::Active(true));
    let step = b.run(Event::Polled { frames: vec![], now: 100 * SECOND });
    assert!(matches!(step.action, Action::CheckActive));
    assert!(!b.session.afk_active);
}

#[test]
fn a_lost_face_is_reported_after_the_timeout() {
    let mut b = open(true, None, &["Brows"]);
    exchange(&mut b, state(true));
    poll(&mut b, true, 10 * SECOND);
    b.run(Event::Evaluated(vec![]));
    finish(&mut b);
    assert!(matches!(poll(&mut b, false, 12 * SECOND).action, Action::CheckActive));
    assert!(matches!(poll(&mut b, false, 13 * SECOND - 1).action, Action::CheckActive));
    match poll(&mut b, false, 13 * SECOND).action {
        Action::Inject(request) => {
            let params = request.data.unwrap();
            assert!(!params.face_found);
            assert!(params.parameter_values.is_empty());
        }
        other => panic!("{other:?}"),
    }
    assert!(b.session.afk_active);
    finish(&mut b);
    assert!(matches!(poll(&mut b, false, 13 * SECOND + 1).action, Action::Inject(_)));
    finish(&mut b);
    assert!(matches!(poll(&mut b, true, 14 * SECOND).action, Action::Evaluate(_)));
    assert!(!b.session.afk_active);
}

#[test]
fn a_lost_face_is_not_reported_without_afk_detection() {
    let mut b = open(false, None, &[]);
    exchange(&mut b, state(true));
    assert!(matches!(poll(&mut b, false, 1000 * SECOND).action, Action::CheckActive));
    assert!(!b.session.afk_active);
}

#[test]
fn another_session_starts_afresh() {
    let mut b = open(true, Some("t"), &["A"]);
    exchange(&mut b, state(false));
    b.run(Event::Active(true));
    b.run(Event::Sent(false));
    b.run(Event::Active(true));
    assert_eq!(b.phase, Phase::Connecting(8001));
    b.run(Event::Active(true));
    b.run(Event::Dialed(true));
    b.run(Event::Opened { token: None, entries: Some(vec![entry("B")]), now: 5 });
    assert_eq!(types(&b), ["APIStateRequest", "ParameterCreationRequest"]);
    assert!(b.session.token.is_none());
    assert_eq!(b.session.formulas[0].name, "B");
}

/// An event of each sort.
fn any_event(sort: u32, now: u64) -> Event {
    match sort % 14 {
        0 | 1 | 2 | 3 => Event::Active(sort % 29 != 0),
        4 => Event::Dialed(sort % 3 != 0),
        5 => Event::Discovered(None),
        6 => Event::Opened { token: None, entries: Some(vec![entry("A"), entry("B")]), now },
        7 => Event::Sent(sort % 5 != 0),
        8 => Event::Polled { frames: vec![frame(sort % 2 == 0)], now },
        9 => Event::Evaluated(vec![]),
        10 => Event::Received(Received::Control),
        11 => Event::Received(Received::Reply(state(false))),
        12 => Event::Received(Received::Reply(verdict(true))),
        _ => Event::Received(Received::Reply(Reply::ParameterCreationResponse)),
    }
}

#[test]
fn invariant_holds_whatever_comes() {
    let mut b = bridge(true);
    let mut sort: u32 = 1;
    let mut seen = vec![];
    let mut shown = false;
    let mut since = 0;
    for now in 0..20000u64 {
        sort = sort.wrapping_mul(1664525).wrapping_add(1013904223);
        let before = b.phase;
        let time = now * SECOND / 10;
        let step = b.run(any_event(sort >> 8, time));
        if let Some(Effect::SetConnected(connected)) = step.effect {
            shown = connected;
        }
        match (before, b.phase) {
            (Phase::Opening, Phase::Ready) | (Phase::Polling, Phase::Evaluating) => since = time,
            _ => {}
        }
        if let Action::Inject(request) = &step.action {
            if !request.data.as_ref().unwrap().face_found {
                assert!(time - since >= 3 * SECOND);
            }
        }
        if matches!(step.action, Action::Ignored) {
            assert_eq!(b.phase, before);
            assert!(step.effect.is_none());
        }
        match b.phase {
            Phase::Sending => assert!(!b.session.queue.is_empty() && !b.session.dont_send),
            Phase::Polling | Phase::Evaluating | Phase::Injecting => {
                assert!(b.session.queue.is_empty() && !b.session.dont_send)
            }
            Phase::Idle
            | Phase::Connecting(_)
            | Phase::Dialing(_)
            | Phase::Discovering(_)
            | Phase::Opening => assert!(!shown),
            Phase::Stopped => {
                assert!(!shown);
                b = bridge(true);
            }
            _ => {}
        }
        assert_eq!(b.port, 8001);
        assert!(!b.mirror && b.afk.enabled);
        if !seen.contains(&b.phase) {
            seen.push(b.phase);
        }
    }
    assert!(seen.contains(&Phase::Injecting));
}
