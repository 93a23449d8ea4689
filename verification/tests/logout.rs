use ory_auth::logout::{
    find_session_cookie, flow_id_from_location, flow_id_from_query, step, Cookie, LogoutAction,
    LogoutError, LogoutEvent, LogoutFlow, LogoutState,
};

fn cookie(name: &str, value: &str) -> Cookie {
    Cookie { name: name.to_string(), value: value.to_string() }
}

fn begin(cookies: Vec<Cookie>) -> LogoutEvent {
    LogoutEvent::Begin { cookies }
}

/// Drives the machine from the start and collects its actions.
fn drive(events: Vec<LogoutEvent>) -> (LogoutState, Vec<LogoutAction>) {
    let mut state = LogoutState::Start;
    let mut actions = Vec::new();
    for e in events {
        let (s, a) = step(state, e);
        state = s;
        actions.push(a);
    }
    (state, actions)
}

#[test]
fn session_cookie_is_found_by_name() {
    let cookies = vec![cookie("theme", "dark"), cookie("ory_kratos_session", "abc"), cookie("ory_kratos_session", "later")];
    assert_eq!(find_session_cookie(&cookies), Some(cookie("ory_kratos_session", "abc")));
    assert_eq!(find_session_cookie(&vec![cookie("ory_kratos_session_x", "a")]), None);
    assert_eq!(find_session_cookie(&vec![]), None);
}

#[test]
fn successful_logout_follows_the_flow_and_clears_cookies() {
    let (state, actions) = drive(vec![
        begin(vec![cookie("csrf", "1"), cookie("ory_kratos_session", "s3cr3t")]),
        LogoutEvent::FlowReply { status: 200, location: None },
        LogoutEvent::FlowBody(Ok(LogoutFlow {
            logout_token: "tok".to_string(),
            logout_url: "http://127.0.0.1:4433/self-service/logout?token=tok".to_string(),
        })),
        LogoutEvent::LoggedOut(Ok(())),
        LogoutEvent::CookiesCleared(Ok(())),
    ]);
    assert_eq!(state, LogoutState::Done);
    assert_eq!(
        actions,
        vec![
            LogoutAction::RequestFlow {
                url: "http://127.0.0.1:4433/self-service/logout/browser".to_string(),
                cookie: "ory_kratos_session=s3cr3t".to_string(),
            },
            LogoutAction::ReadFlow,
            LogoutAction::FollowLogout {
                url: "http://127.0.0.1:4433/self-service/logout?token=tok".to_string(),
                query: vec![
                    ("token".to_string(), "tok".to_string()),
                    ("return_to".to_string(), "/".to_string())
                ],
            },
            LogoutAction::ClearCookies,
            LogoutAction::Finish(Ok(())),
        ]
    );
}

#[test]
fn no_content_also_grants_a_flow() {
    let (state, actions) = drive(vec![
        begin(vec![cookie("ory_kratos_session", "s")]),
        LogoutEvent::FlowReply { status: 204, location: None },
    ]);
    assert_eq!(state, LogoutState::ReadingFlow);
    assert_eq!(actions[1], LogoutAction::ReadFlow);
}

#[test]
fn missing_session_cookie_never_reaches_kratos() {
    let (state, actions) = drive(vec![
        begin(vec![cookie("csrf", "1")]),
        LogoutEvent::FlowReply { status: 200, location: None },
    ]);
    assert_eq!(state, LogoutState::Done);
    assert_eq!(actions, vec![LogoutAction::Finish(Err(LogoutError::NoSessionCookie)), LogoutAction::Ignore]);
    assert_eq!(
        LogoutError::NoSessionCookie.message(),
        "No `ory_kratos_session` cookie found. Logout shouldn't be visible."
    );
}

#[test]
fn refusal_fetches_the_kratos_error() {
    let (state, actions) = drive(vec![
        begin(vec![cookie("ory_kratos_session", "s")]),
        LogoutEvent::FlowReply {
            status: 303,
            location: Some(Ok("http://127.0.0.1:4455/error?id=9f2c-11&x=y".to_string())),
        },
        LogoutEvent::ErrorFetched(Ok("session expired".to_string())),
    ]);
    assert_eq!(state, LogoutState::Done);
    assert_eq!(actions[1], LogoutAction::FetchError { flow_id: "9f2c-11".to_string() });
    assert_eq!(actions[2], LogoutAction::Finish(Err(LogoutError::Kratos("session expired".to_string()))));
}

#[test]
fn flow_id_is_percent_decoded() {
    assert_eq!(
        flow_id_from_location(Some(Ok("http://localhost/error?flow=a%20b+c".to_string()))),
        Ok("a b c".to_string())
    );
}

#[test]
fn refusal_without_location_is_an_error() {
    let r = flow_id_from_location(None);
    assert_eq!(r, Err(LogoutError::NoLocation));
    assert_eq!(LogoutError::NoLocation.message(), "expecting location in headers");
}

#[test]
fn location_that_is_not_text_is_an_error() {
    let r = flow_id_from_location(Some(Err("failed to convert header to a str".to_string())));
    assert_eq!(r, Err(LogoutError::LocationNotText("failed to convert header to a str".to_string())));
}

#[test]
fn location_that_is_not_a_url_is_an_error() {
    let r = flow_id_from_location(Some(Ok("/error?id=1".to_string())));
    assert_eq!(r, Err(LogoutError::InvalidLocation("relative URL without a base".to_string())));
}

#[test]
fn location_without_query_is_an_error() {
    let r = flow_id_from_location(Some(Ok("http://127.0.0.1:4455/error".to_string())));
    assert_eq!(r, Err(LogoutError::NoFlowId));
    assert_eq!(LogoutError::NoFlowId.message(), "Expecting query in location header value");
}

#[test]
fn parsed_query_gives_the_flow_id() {
    assert_eq!(flow_id_from_query(Ok(Some("id".to_string()))), Ok("id".to_string()));
    assert_eq!(flow_id_from_query(Ok(None)), Err(LogoutError::NoFlowId));
    assert_eq!(
        flow_id_from_query(Err("empty host".to_string())),
        Err(LogoutError::InvalidLocation("empty host".to_string()))
    );
}

#[test]
fn failures_end_the_logout() {
    let (state, actions) = drive(vec![
        begin(vec![cookie("ory_kratos_session", "s")]),
        LogoutEvent::Failed("connection refused".to_string()),
        LogoutEvent::FlowReply { status: 200, location: None },
    ]);
    assert_eq!(state, LogoutState::Done);
    assert_eq!(actions[1], LogoutAction::Finish(Err(LogoutError::Service("connection refused".to_string()))));
    assert_eq!(actions[2], LogoutAction::Ignore);
}

#[test]
fn unreadable_flow_and_failed_steps_are_reported() {
    let (_, a) = drive(vec![
        begin(vec![cookie("ory_kratos_session", "s")]),
        LogoutEvent::FlowReply { status: 200, location: None },
        LogoutEvent::FlowBody(Err("EOF while parsing a value".to_string())),
    ]);
    assert_eq!(a[2], LogoutAction::Finish(Err(LogoutError::Service("EOF while parsing a value".to_string()))));
    let flow = LogoutFlow { logout_token: "t".to_string(), logout_url: "http://k/logout".to_string() };
    let (_, a) = drive(vec![
        begin(vec![cookie("ory_kratos_session", "s")]),
        LogoutEvent::FlowReply { status: 200, location: None },
        LogoutEvent::FlowBody(Ok(flow.clone())),
        LogoutEvent::LoggedOut(Err("timeout".to_string())),
    ]);
    assert_eq!(a[3], LogoutAction::Finish(Err(LogoutError::Service("timeout".to_string()))));
    let (_, a) = drive(vec![
        begin(vec![cookie("ory_kratos_session", "s")]),
        LogoutEvent::FlowReply { status: 200, location: None },
        LogoutEvent::FlowBody(Ok(flow)),
        LogoutEvent::LoggedOut(Ok(())),
        LogoutEvent::CookiesCleared(Err("no response options".to_string())),
    ]);
    assert_eq!(a[4], LogoutAction::Finish(Err(LogoutError::Service("no response options".to_string()))));
    let (_, a) = drive(vec![
        begin(vec![cookie("ory_kratos_session", "s")]),
        LogoutEvent::FlowReply { status: 400, location: Some(Ok("http://k/e?id=1".to_string())) },
        LogoutEvent::ErrorFetched(Err("404".to_string())),
    ]);
    assert_eq!(a[2], LogoutAction::Finish(Err(LogoutError::Service("404".to_string()))));
}

#[test]
fn events_out_of_turn_are_ignored() {
    let (state, actions) = drive(vec![
        LogoutEvent::CookiesCleared(Ok(())),
        begin(vec![cookie("ory_kratos_session", "s")]),
        begin(vec![cookie("ory_kratos_session", "t")]),
        LogoutEvent::LoggedOut(Ok(())),
    ]);
    assert_eq!(state, LogoutState::AwaitingFlow);
    assert_eq!(actions[0], LogoutAction::Ignore);
    assert!(matches!(actions[1], LogoutAction::RequestFlow { .. }));
    assert_eq!(actions[2], LogoutAction::Ignore);
    assert_eq!(actions[3], LogoutAction::Ignore);
}

#[test]
fn a_finished_logout_stays_finished() {
    let (s, a) = step(LogoutState::Done, begin(vec![cookie("ory_kratos_session", "s")]));
    assert_eq!(s, LogoutState::Done);
    assert_eq!(a, LogoutAction::Ignore);
    let (s, a) = step(LogoutState::Done, LogoutEvent::Failed("x".to_string()));
    assert_eq!(s, LogoutState::Done);
    assert_eq!(a, LogoutAction::Ignore);
}

#[test]
fn error_messages_carry_their_text() {
    assert_eq!(LogoutError::Kratos("k".to_string()).message(), "k");
    assert_eq!(LogoutError::Service("s".to_string()).message(), "s");
    assert_eq!(LogoutError::InvalidLocation("i".to_string()).message(), "i");
    assert_eq!(LogoutError::LocationNotText("t".to_string()).message(), "t");
}
