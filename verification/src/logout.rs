//! The logout flow of a browser session against Ory Kratos, as a state
//! machine: the caller performs each action (an HTTP request, reading a
//! reply, clearing cookies) and hands back what came of it as an event.
//!
//! The flow: find the Kratos session cookie, ask Kratos for a logout flow
//! with it; on 200 or 204 read the flow, follow its logout URL with its token
//! and clear the site's cookies; on any other status the `Location` header
//! names an error flow, whose message is fetched and returned.
use vstd::prelude::*;

verus! {

/// The name of the session cookie that Kratos sets.
pub const SESSION_COOKIE: &'static str = "ory_kratos_session";

/// Where Kratos creates logout flows for browsers.
pub const LOGOUT_BROWSER_URL: &'static str = "http://127.0.0.1:4433/self-service/logout/browser";

/// The query key that carries the logout token.
pub const TOKEN_KEY: &'static str = "token";

/// The query key that tells Kratos where to send the browser afterwards.
pub const RETURN_TO_KEY: &'static str = "return_to";

/// Where the browser goes after logging out.
pub const RETURN_TO: &'static str = "/";

pub const NO_SESSION_COOKIE_MSG: &'static str =
    "No `ory_kratos_session` cookie found. Logout shouldn't be visible.";

pub const NO_LOCATION_MSG: &'static str = "expecting location in headers";

pub const NO_FLOW_ID_MSG: &'static str = "Expecting query in location header value";

/// A cookie of the request, by name and value.
#[derive(Debug, Clone, PartialEq, Eq)]
pub struct Cookie {
    pub name: String,
    pub value: String,
}

/// The logout flow that Kratos hands out: a token and the URL to visit
/// with it.
#[derive(Debug, Clone, PartialEq, Eq)]
pub struct LogoutFlow {
    pub logout_token: String,
    pub logout_url: String,
}

/// Why a logout did not complete.
#[derive(Debug, Clone, PartialEq, Eq)]
pub enum LogoutError {
    /// The request carries no Kratos session cookie.
    NoSessionCookie,
    /// Kratos refused the logout flow without a `Location` header.
    NoLocation,
    /// The `Location` header is not visible ASCII; the header's message.
    LocationNotText(String),
    /// The `Location` header is not a URL; the parser's message.
    InvalidLocation(String),
    /// The `Location` URL has no query pair to take the flow id from.
    NoFlowId,
    /// Kratos reported an error flow; its message.
    Kratos(String),
    /// A request or a reply failed; the message of the failure.
    Service(String),
}

/// The mathematical form of [`LogoutError`].
pub enum ErrorModel {
    NoSessionCookie,
    NoLocation,
    LocationNotText(Seq<char>),
    InvalidLocation(Seq<char>),
    NoFlowId,
    Kratos(Seq<char>),
    Service(Seq<char>),
}

impl View for LogoutError {
    type V = ErrorModel;

    open spec fn view(&self) -> ErrorModel {
        match self {
            LogoutError::NoSessionCookie => ErrorModel::NoSessionCookie,
            LogoutError::NoLocation => ErrorModel::NoLocation,
            LogoutError::LocationNotText(m) => ErrorModel::LocationNotText(m@),
            LogoutError::InvalidLocation(m) => ErrorModel::InvalidLocation(m@),
            LogoutError::NoFlowId => ErrorModel::NoFlowId,
            LogoutError::Kratos(m) => ErrorModel::Kratos(m@),
            LogoutError::Service(m) => ErrorModel::Service(m@),
        }
    }
}

/// The message returned to the client for an error.
pub open spec fn error_message(e: ErrorModel) -> Seq<char> {
    match e {
        ErrorModel::NoSessionCookie => NO_SESSION_COOKIE_MSG@,
        ErrorModel::NoLocation => NO_LOCATION_MSG@,
        ErrorModel::LocationNotText(m) => m,
        ErrorModel::InvalidLocation(m) => m,
        ErrorModel::NoFlowId => NO_FLOW_ID_MSG@,
        ErrorModel::Kratos(m) => m,
        ErrorModel::Service(m) => m,
    }
}

impl LogoutError {
    /// The message returned to the client.
    pub fn message(&self) -> (m: String)
        ensures
            m@ == error_message(self@),
            *self == LogoutError::NoSessionCookie ==> m@
                == "No `ory_kratos_session` cookie found. Logout shouldn't be visible."@,
            *self == LogoutError::NoLocation ==> m@ == "expecting location in headers"@,
            *self == LogoutError::NoFlowId ==> m@ == "Expecting query in location header value"@,
            self matches LogoutError::LocationNotText(e) ==> m@ == e@,
            self matches LogoutError::InvalidLocation(e) ==> m@ == e@,
            self matches LogoutError::Kratos(e) ==> m@ == e@,
            self matches LogoutError::Service(e) ==> m@ == e@,
    {
        proof {
            reveal_strlit("No `ory_kratos_session` cookie found. Logout shouldn't be visible.");
            reveal_strlit("expecting location in headers");
            reveal_strlit("Expecting query in location header value");
        }
        match self {
            LogoutError::NoSessionCookie => String::from_str(NO_SESSION_COOKIE_MSG),
            LogoutError::NoLocation => String::from_str(NO_LOCATION_MSG),
            LogoutError::LocationNotText(m) => m.clone(),
            LogoutError::InvalidLocation(m) => m.clone(),
            LogoutError::NoFlowId => String::from_str(NO_FLOW_ID_MSG),
            LogoutError::Kratos(m) => m.clone(),
            LogoutError::Service(m) => m.clone(),
        }
    }
}

/// Where a logout stands.
#[derive(Debug, Clone, Copy, PartialEq, Eq, Structural)]
pub enum LogoutState {
    /// Nothing done yet.
    Start,
    /// The logout flow was requested from Kratos.
    AwaitingFlow,
    /// Kratos granted a flow; its body is being read.
    ReadingFlow,
    /// The logout URL is being followed.
    LoggingOut,
    /// The site's cookies are being cleared.
    ClearingCookies,
    /// Kratos refused; its error flow is being fetched.
    FetchingError,
    /// The logout has finished, one way or the other.
    Done,
}

/// What came of the last action.
#[derive(Debug, PartialEq, Eq)]
pub enum LogoutEvent {
    /// The logout was asked for; the cookies of the request.
    Begin { cookies: Vec<Cookie> },
    /// Kratos answered the flow request: its status and its `Location`
    /// header, as text or as the reason it is not text.
    FlowReply { status: u16, location: Option<Result<String, String>> },
    /// The flow's body was read, or could not be.
    FlowBody(Result<LogoutFlow, String>),
    /// The logout URL was followed.
    LoggedOut(Result<(), String>),
    /// The site's cookies were cleared.
    CookiesCleared(Result<(), String>),
    /// The error flow was fetched: its message.
    ErrorFetched(Result<String, String>),
    /// The action could not be carried out.
    Failed(String),
}

/// What the caller is to do next.
#[derive(Debug, PartialEq, Eq)]
pub enum LogoutAction {
    /// Send a GET to `url` with this `cookie` header.
    RequestFlow { url: String, cookie: String },
    /// Read the reply's body as a logout flow.
    ReadFlow,
    /// Send a GET to `url` with these query pairs, in order.
    FollowLogout { url: String, query: Vec<(String, String)> },
    /// Clear the site's cookies.
    ClearCookies,
    /// Fetch the Kratos error flow with this id and return its message.
    FetchError { flow_id: String },
    /// The logout is over with this result.
    Finish(Result<(), LogoutError>),
    /// Nothing: the event does not belong to the current state.
    Ignore,
}

/// The mathematical form of [`LogoutAction`].
pub enum ActionModel {
    RequestFlow { url: Seq<char>, cookie: Seq<char> },
    ReadFlow,
    FollowLogout { url: Seq<char>, query: Seq<(Seq<char>, Seq<char>)> },
    ClearCookies,
    FetchError { flow_id: Seq<char> },
    Finish(Result<(), ErrorModel>),
    Ignore,
}

pub open spec fn pairs_view(pairs: Seq<(String, String)>) -> Seq<(Seq<char>, Seq<char>)> {
    pairs.map_values(|p: (String, String)| (p.0@, p.1@))
}

pub open spec fn result_view(r: Result<(), LogoutError>) -> Result<(), ErrorModel> {
    match r {
        Ok(()) => Ok(()),
        Err(e) => Err(e@),
    }
}

impl View for LogoutAction {
    type V = ActionModel;

    open spec fn view(&self) -> ActionModel {
        match self {
            LogoutAction::RequestFlow { url, cookie } => ActionModel::RequestFlow {
                url: url@,
                cookie: cookie@,
            },
            LogoutAction::ReadFlow => ActionModel::ReadFlow,
            LogoutAction::FollowLogout { url, query } => ActionModel::FollowLogout {
                url: url@,
                query: pairs_view(query@),
            },
            LogoutAction::ClearCookies => ActionModel::ClearCookies,
            LogoutAction::FetchError { flow_id } => ActionModel::FetchError { flow_id: flow_id@ },
            LogoutAction::Finish(r) => ActionModel::Finish(result_view(*r)),
            LogoutAction::Ignore => ActionModel::Ignore,
        }
    }
}

/// The first cookie named like the Kratos session cookie.
pub open spec fn session_cookie(cookies: Seq<Cookie>) -> Option<Cookie>
    decreases cookies.len(),
{
    if cookies.len() == 0 {
        None
    } else if cookies[0].name@ == SESSION_COOKIE@ {
        Some(cookies[0])
    } else {
        session_cookie(cookies.drop_first())
    }
}

/// The `cookie` header that carries one cookie: `name=value`.
pub open spec fn cookie_header(c: Cookie) -> Seq<char> {
    c.name@ + "="@ + c.value@
}

/// The statuses with which Kratos grants a logout flow.
pub open spec fn grants_flow(status: u16) -> bool {
    status == 200 || status == 204
}

/// What `url::Url::parse` gives for a text: `Err` with the parser's
/// message when it is not an absolute URL, else the value of the first
/// pair of the URL's query (as `query_pairs` decodes it), if any.
pub uninterp spec fn first_query_value(location: Seq<char>) -> Result<Option<Seq<char>>, Seq<char>>;

pub open spec fn parsed_view(r: Result<Option<String>, String>) -> Result<Option<Seq<char>>, Seq<char>> {
    match r {
        Ok(Some(v)) => Ok(Some(v@)),
        Ok(None) => Ok(None),
        Err(e) => Err(e@),
    }
}

/// Parses `location` with `url::Url::parse` and takes the value of the
/// first pair of `query_pairs`, rendering a parse error with `to_string`.
///
/// Trusted: the result is what the url crate computes from the text alone;
/// it is named, not described.
#[verifier::external_body]
fn parse_first_query_value(location: &str) -> (r: Result<Option<String>, String>)
    ensures
        parsed_view(r) == first_query_value(location@),
{
    match url::Url::parse(location) {
        Ok(u) => Ok(u.query_pairs().next().map(|pair| pair.1.to_string())),
        Err(e) => Err(e.to_string()),
    }
}

/// The flow id that a parsed `Location` gives.
pub open spec fn flow_id_of_query(parsed: Result<Option<Seq<char>>, Seq<char>>) -> Result<Seq<char>, ErrorModel> {
    match parsed {
        Err(e) => Err(ErrorModel::InvalidLocation(e)),
        Ok(None) => Err(ErrorModel::NoFlowId),
        Ok(Some(id)) => Ok(id),
    }
}

/// The flow id that a refusal's `Location` header gives.
pub open spec fn flow_id_outcome(location: Option<Result<String, String>>) -> Result<Seq<char>, ErrorModel> {
    match location {
        None => Err(ErrorModel::NoLocation),
        Some(Err(e)) => Err(ErrorModel::LocationNotText(e@)),
        Some(Ok(text)) => flow_id_of_query(first_query_value(text@)),
    }
}

pub open spec fn id_result_view(r: Result<String, LogoutError>) -> Result<Seq<char>, ErrorModel> {
    match r {
        Ok(id) => Ok(id@),
        Err(e) => Err(e@),
    }
}

/// The flow id from the parsed `Location` URL: its first query value.
pub fn flow_id_from_query(parsed: Result<Option<String>, String>) -> (r: Result<String, LogoutError>)
    ensures
        id_result_view(r) == flow_id_of_query(parsed_view(parsed)),
        parsed matches Ok(Some(v)) ==> r == Ok::<String, LogoutError>(v),
        parsed matches Ok(None) ==> r == Err::<String, LogoutError>(LogoutError::NoFlowId),
        parsed matches Err(e) ==> r == Err::<String, LogoutError>(LogoutError::InvalidLocation(e)),
{
    match parsed {
        Err(e) => Err(LogoutError::InvalidLocation(e)),
        Ok(None) => Err(LogoutError::NoFlowId),
        Ok(Some(id)) => Ok(id),
    }
}

/// The flow id of the error that Kratos names in the `Location` header of
/// a refusal.
pub fn flow_id_from_location(location: Option<Result<String, String>>) -> (r: Result<String, LogoutError>)
    ensures
        id_result_view(r) == flow_id_outcome(location),
        location matches Some(Ok(t)) ==> (first_query_value(t@) matches Ok(Some(v)) ==> r matches Ok(id)
            && id@ == v),
        location is None ==> r == Err::<String, LogoutError>(LogoutError::NoLocation),
        location matches Some(Err(e)) ==> r == Err::<String, LogoutError>(LogoutError::LocationNotText(e)),
{
    match location {
        None => Err(LogoutError::NoLocation),
        Some(Err(e)) => Err(LogoutError::LocationNotText(e)),
        Some(Ok(text)) => flow_id_from_query(parse_first_query_value(text.as_str())),
    }
}

/// The Kratos session cookie among the cookies of a request, if any.
pub fn find_session_cookie(cookies: &Vec<Cookie>) -> (c: Option<Cookie>)
    ensures
        c == session_cookie(cookies@),
        c matches Some(found) ==> exists|i: int|
            0 <= i < cookies@.len() && cookies@[i] == found && (#[trigger] cookies@[i]).name@
                == "ory_kratos_session"@ && forall|j: int|
                0 <= j < i ==> (#[trigger] cookies@[j]).name@ != "ory_kratos_session"@,
        c is None ==> forall|i: int|
            0 <= i < cookies@.len() ==> (#[trigger] cookies@[i]).name@ != "ory_kratos_session"@,
{
    proof {
        lemma_session_cookie_is_first_named(cookies@);
    }
    let session = String::from_str(SESSION_COOKIE);
    let mut i: usize = 0;
    proof {
        assert(cookies@.subrange(0, cookies@.len() as int) =~= cookies@);
    }
    while i < cookies.len()
        invariant
            session@ == SESSION_COOKIE@,
            i <= cookies@.len(),
            session_cookie(cookies@) == session_cookie(cookies@.subrange(i as int, cookies@.len() as int)),
        decreases cookies@.len() - i,
    {
        let ghost rest = cookies@.subrange(i as int, cookies@.len() as int);
        proof {
            assert(rest[0] == cookies@[i as int]);
            assert(rest.drop_first() =~= cookies@.subrange(i + 1, cookies@.len() as int));
        }
        if cookies[i].name == session {
            proof {
                lemma_session_cookie_is_first_named(cookies@);
            }
            return Some(Cookie { name: cookies[i].name.clone(), value: cookies[i].value.clone() });
        }
        i = i + 1;
    }
    proof {
        assert(cookies@.subrange(i as int, cookies@.len() as int).len() == 0);
    }
    None
}

/// The session cookie of a request is its first cookie named
/// `ory_kratos_session`, and there is none exactly when no cookie has that
/// name.
pub proof fn lemma_session_cookie_is_first_named(cookies: Seq<Cookie>)
    ensures
        session_cookie(cookies) matches Some(found) ==> exists|i: int|
            0 <= i < cookies.len() && cookies[i] == found && (#[trigger] cookies[i]).name@
                == "ory_kratos_session"@ && forall|j: int|
                0 <= j < i ==> (#[trigger] cookies[j]).name@ != "ory_kratos_session"@,
        session_cookie(cookies) is None ==> forall|i: int|
            0 <= i < cookies.len() ==> (#[trigger] cookies[i]).name@ != "ory_kratos_session"@,
    decreases cookies.len(),
{
    reveal_strlit("ory_kratos_session");
    if cookies.len() > 0 {
        let rest = cookies.drop_first();
        lemma_session_cookie_is_first_named(rest);
        if cookies[0].name@ != SESSION_COOKIE@ {
            if let Some(found) = session_cookie(rest) {
                let k = choose|k: int|
                    0 <= k < rest.len() && rest[k] == found && (#[trigger] rest[k]).name@ == "ory_kratos_session"@
                        && forall|j: int| 0 <= j < k ==> (#[trigger] rest[j]).name@ != "ory_kratos_session"@;
                assert(cookies[k + 1] == rest[k]);
                assert forall|j: int| 0 <= j < k + 1 implies (#[trigger] cookies[j]).name@ != "ory_kratos_session"@ by {
                    if j > 0 {
                        assert(cookies[j] == rest[j - 1]);
                    }
                }
            } else {
                assert forall|i: int| 0 <= i < cookies.len() implies (#[trigger] cookies[i]).name@
                    != "ory_kratos_session"@ by {
                    if i > 0 {
                        assert(cookies[i] == rest[i - 1]);
                    }
                }
            }
        }
    }
}

/// The `cookie` header for one cookie.
fn cookie_header_of(c: &Cookie) -> (h: String)
    ensures
        h@ == cookie_header(*c),
{
    let mut h = c.name.clone();
    h.append("=");
    h.append(c.value.as_str());
    h
}

/// How the machine moves: the next state and the action for the caller.
///
/// Once done it stays done and asks for nothing; a failed action ends the
/// logout with that failure; an event that does not belong to the state
/// changes nothing.
pub open spec fn spec_step(state: LogoutState, event: LogoutEvent) -> (LogoutState, ActionModel) {
    match (state, event) {
        (LogoutState::Done, _) => (LogoutState::Done, ActionModel::Ignore),
        (_, LogoutEvent::Failed(m)) => (
            LogoutState::Done,
            ActionModel::Finish(Err(ErrorModel::Service(m@))),
        ),
        (LogoutState::Start, LogoutEvent::Begin { cookies }) => match session_cookie(cookies@) {
            None => (LogoutState::Done, ActionModel::Finish(Err(ErrorModel::NoSessionCookie))),
            Some(c) => (
                LogoutState::AwaitingFlow,
                ActionModel::RequestFlow { url: LOGOUT_BROWSER_URL@, cookie: cookie_header(c) },
            ),
        },
        (LogoutState::AwaitingFlow, LogoutEvent::FlowReply { status, location }) => if grants_flow(
            status,
        ) {
            (LogoutState::ReadingFlow, ActionModel::ReadFlow)
        } else {
            match flow_id_outcome(location) {
                Ok(id) => (LogoutState::FetchingError, ActionModel::FetchError { flow_id: id }),
                Err(e) => (LogoutState::Done, ActionModel::Finish(Err(e))),
            }
        },
        (LogoutState::ReadingFlow, LogoutEvent::FlowBody(Ok(flow))) => (
            LogoutState::LoggingOut,
            ActionModel::FollowLogout {
                url: flow.logout_url@,
                query: seq![(TOKEN_KEY@, flow.logout_token@), (RETURN_TO_KEY@, RETURN_TO@)],
            },
        ),
        (LogoutState::ReadingFlow, LogoutEvent::FlowBody(Err(m))) => (
            LogoutState::Done,
            ActionModel::Finish(Err(ErrorModel::Service(m@))),
        ),
        (LogoutState::LoggingOut, LogoutEvent::LoggedOut(Ok(()))) => (
            LogoutState::ClearingCookies,
            ActionModel::ClearCookies,
        ),
        (LogoutState::LoggingOut, LogoutEvent::LoggedOut(Err(m))) => (
            LogoutState::Done,
            ActionModel::Finish(Err(ErrorModel::Service(m@))),
        ),
        (LogoutState::ClearingCookies, LogoutEvent::CookiesCleared(Ok(()))) => (
            LogoutState::Done,
            ActionModel::Finish(Ok(())),
        ),
        (LogoutState::ClearingCookies, LogoutEvent::CookiesCleared(Err(m))) => (
            LogoutState::Done,
            ActionModel::Finish(Err(ErrorModel::Service(m@))),
        ),
        (LogoutState::FetchingError, LogoutEvent::ErrorFetched(Ok(m))) => (
            LogoutState::Done,
            ActionModel::Finish(Err(ErrorModel::Kratos(m@))),
        ),
        (LogoutState::FetchingError, LogoutEvent::ErrorFetched(Err(m))) => (
            LogoutState::Done,
            ActionModel::Finish(Err(ErrorModel::Service(m@))),
        ),
        _ => (state, ActionModel::Ignore),
    }
}

/// One move of the logout machine.
pub fn step(state: LogoutState, event: LogoutEvent) -> (r: (LogoutState, LogoutAction))
    ensures
        (r.0, r.1@) == spec_step(state, event),
        state == LogoutState::ReadingFlow ==> (event matches LogoutEvent::FlowBody(Ok(flow)) ==> {
            &&& r.0 == LogoutState::LoggingOut
            &&& r.1 matches LogoutAction::FollowLogout { url, query }
            &&& url@ == flow.logout_url@
            &&& query@.len() == 2
            &&& query@[0].0@ == "token"@
            &&& query@[0].1@ == flow.logout_token@
            &&& query@[1].0@ == "return_to"@
            &&& query@[1].1@ == "/"@
        }),
        state == LogoutState::AwaitingFlow ==> (event matches LogoutEvent::FlowReply { status, location } ==> (
        status != 200 && status != 204 ==> (location matches Some(Ok(t)) ==> (first_query_value(t@) matches Ok(
            Some(v),
        ) ==> {
            &&& r.0 == LogoutState::FetchingError
            &&& r.1 matches LogoutAction::FetchError { flow_id }
            &&& flow_id@ == v
        })))),
        state == LogoutState::Start ==> (event matches LogoutEvent::Begin { cookies } ==> (
        r.1 matches LogoutAction::RequestFlow { url, cookie } ==> {
            &&& url@ == "http://127.0.0.1:4433/self-service/logout/browser"@
            &&& exists|i: int|
                0 <= i < cookies@.len() && (#[trigger] cookies@[i]).name@ == "ory_kratos_session"@
                    && cookie@ == cookies@[i].name@ + "="@ + cookies@[i].value@
        })),
{
    proof {
        reveal_strlit("token");
        reveal_strlit("return_to");
        reveal_strlit("/");
        reveal_strlit("ory_kratos_session");
        reveal_strlit("http://127.0.0.1:4433/self-service/logout/browser");
        if state == LogoutState::Start {
            if let LogoutEvent::Begin { cookies } = &event {
                lemma_session_cookie_is_first_named(cookies@);
            }
        }
    }
    if state == LogoutState::Done {
        return (LogoutState::Done, LogoutAction::Ignore);
    }
    match event {
        LogoutEvent::Failed(m) => (LogoutState::Done, LogoutAction::Finish(Err(LogoutError::Service(m)))),
        LogoutEvent::Begin { cookies } => {
            if state != LogoutState::Start {
                return (state, LogoutAction::Ignore);
            }
            match find_session_cookie(&cookies) {
                None => (LogoutState::Done, LogoutAction::Finish(Err(LogoutError::NoSessionCookie))),
                Some(c) => {
                    let cookie = cookie_header_of(&c);
                    (
                        LogoutState::AwaitingFlow,
                        LogoutAction::RequestFlow { url: String::from_str(LOGOUT_BROWSER_URL), cookie },
                    )
                },
            }
        },
        LogoutEvent::FlowReply { status, location } => {
            if state != LogoutState::AwaitingFlow {
                return (state, LogoutAction::Ignore);
            }
            if status == 200 || status == 204 {
                (LogoutState::ReadingFlow, LogoutAction::ReadFlow)
            } else {
                match flow_id_from_location(location) {
                    Ok(id) => (LogoutState::FetchingError, LogoutAction::FetchError { flow_id: id }),
                    Err(e) => (LogoutState::Done, LogoutAction::Finish(Err(e))),
                }
            }
        },
        LogoutEvent::FlowBody(body) => {
            if state != LogoutState::ReadingFlow {
                return (state, LogoutAction::Ignore);
            }
            match body {
                Ok(flow) => {
                    let query = vec![
                        (String::from_str(TOKEN_KEY), flow.logout_token),
                        (String::from_str(RETURN_TO_KEY), String::from_str(RETURN_TO)),
                    ];
                    proof {
                        assert(pairs_view(query@) =~= seq![
                            (TOKEN_KEY@, flow.logout_token@),
                            (RETURN_TO_KEY@, RETURN_TO@),
                        ]);
                    }
                    (LogoutState::LoggingOut, LogoutAction::FollowLogout { url: flow.logout_url, query })
                },
                Err(m) => (LogoutState::Done, LogoutAction::Finish(Err(LogoutError::Service(m)))),
            }
        },
        LogoutEvent::LoggedOut(r) => {
            if state != LogoutState::LoggingOut {
                return (state, LogoutAction::Ignore);
            }
            match r {
                Ok(()) => (LogoutState::ClearingCookies, LogoutAction::ClearCookies),
                Err(m) => (LogoutState::Done, LogoutAction::Finish(Err(LogoutError::Service(m)))),
            }
        },
        LogoutEvent::CookiesCleared(r) => {
            if state != LogoutState::ClearingCookies {
                return (state, LogoutAction::Ignore);
            }
            match r {
                Ok(()) => (LogoutState::Done, LogoutAction::Finish(Ok(()))),
                Err(m) => (LogoutState::Done, LogoutAction::Finish(Err(LogoutError::Service(m)))),
            }
        },
        LogoutEvent::ErrorFetched(r) => {
            if state != LogoutState::FetchingError {
                return (state, LogoutAction::Ignore);
            }
            match r {
                Ok(m) => (LogoutState::Done, LogoutAction::Finish(Err(LogoutError::Kratos(m)))),
                Err(m) => (LogoutState::Done, LogoutAction::Finish(Err(LogoutError::Service(m)))),
            }
        },
    }
}

/// The shape of one move: which states an action can come from and lead to.
proof fn lemma_step_shape(st: LogoutState, e: LogoutEvent)
    ensures
        ({
            let (st2, a) = spec_step(st, e);
            &&& st == LogoutState::Done ==> st2 == LogoutState::Done && a is Ignore
            &&& a is Ignore ==> st2 == st
            &&& a is Finish ==> st2 == LogoutState::Done && st != LogoutState::Done
            &&& st2 == LogoutState::Done && st != LogoutState::Done ==> a is Finish
            &&& st2 == LogoutState::AwaitingFlow && st != LogoutState::AwaitingFlow ==> a is RequestFlow
            &&& (st2 == LogoutState::ReadingFlow || st2 == LogoutState::FetchingError) && st != st2 ==> st
                == LogoutState::AwaitingFlow
            &&& st2 == LogoutState::LoggingOut && st != LogoutState::LoggingOut ==> st
                == LogoutState::ReadingFlow && a is FollowLogout
            &&& st2 == LogoutState::ClearingCookies && st != LogoutState::ClearingCookies ==> st
                == LogoutState::LoggingOut && a is ClearCookies
            &&& a is FollowLogout ==> st == LogoutState::ReadingFlow
            &&& a is ClearCookies ==> st == LogoutState::LoggingOut
            &&& a == ActionModel::Finish(Ok(())) ==> st == LogoutState::ClearingCookies
            &&& a matches ActionModel::RequestFlow { url, cookie } ==> {
                &&& url == LOGOUT_BROWSER_URL@
                &&& e matches LogoutEvent::Begin { cookies }
                &&& session_cookie(cookies@) matches Some(c)
                &&& cookie == cookie_header(c)
            }
        }),
{
}

/// The state reached and the actions asked for when a logout is driven from
/// the start by a sequence of events, one action per event.
pub open spec fn run(events: Seq<LogoutEvent>) -> (LogoutState, Seq<ActionModel>)
    decreases events.len(),
{
    if events.len() == 0 {
        (LogoutState::Start, Seq::empty())
    } else {
        let prev = run(events.drop_last());
        let next = spec_step(prev.0, events.last());
        (next.0, prev.1.push(next.1))
    }
}

/// Among the first `n` actions, a logout flow was requested.
pub open spec fn requested_flow(acts: Seq<ActionModel>, n: int) -> bool {
    exists|i: int| 0 <= i < n && (#[trigger] acts[i]) is RequestFlow
}

/// Among the first `n` actions, a logout flow was requested and then its
/// logout URL followed.
pub open spec fn followed_logout(acts: Seq<ActionModel>, n: int) -> bool {
    exists|i: int, j: int|
        0 <= i < j < n && (#[trigger] acts[i]) is RequestFlow && (#[trigger] acts[j]) is FollowLogout
}

/// Among the first `n` actions, a logout flow was requested, its logout URL
/// followed and then the site's cookies cleared.
pub open spec fn cleared_after_logout(acts: Seq<ActionModel>, n: int) -> bool {
    exists|i: int, j: int, k: int|
        0 <= i < j < k < n && (#[trigger] acts[i]) is RequestFlow && (#[trigger] acts[j]) is FollowLogout
            && (#[trigger] acts[k]) is ClearCookies
}

/// The flow request at `i` carries the session cookie of the request that
/// began the logout there.
pub open spec fn request_carries_session(events: Seq<LogoutEvent>, acts: Seq<ActionModel>, i: int) -> bool {
    acts[i] matches ActionModel::RequestFlow { url, cookie } ==> {
        &&& url == LOGOUT_BROWSER_URL@
        &&& events[i] matches LogoutEvent::Begin { cookies }
        &&& session_cookie(cookies@) matches Some(c)
        &&& cookie == cookie_header(c)
    }
}

proof fn lemma_run_len(events: Seq<LogoutEvent>)
    ensures
        run(events).1.len() == events.len(),
    decreases events.len(),
{
    if events.len() > 0 {
        lemma_run_len(events.drop_last());
    }
}

/// The actions of a run extend those of its prefix by one.
proof fn lemma_run_extends(events: Seq<LogoutEvent>)
    requires
        events.len() > 0,
    ensures
        ({
            let prev = run(events.drop_last());
            let next = spec_step(prev.0, events.last());
            &&& run(events).0 == next.0
            &&& run(events).1 == prev.1.push(next.1)
            &&& run(events).1.len() == prev.1.len() + 1
            &&& forall|i: int| 0 <= i < prev.1.len() ==> run(events).1[i] == #[trigger] prev.1[i]
            &&& run(events).1[prev.1.len() as int] == next.1
        }),
{
}

pub open spec fn finish_invariant(st: LogoutState, acts: Seq<ActionModel>) -> bool {
    &&& (st == LogoutState::Done <==> exists|i: int| 0 <= i < acts.len() && (#[trigger] acts[i]) is Finish)
    &&& forall|i: int, j: int|
        0 <= i < j < acts.len() && (#[trigger] acts[i]) is Finish ==> (#[trigger] acts[j]) is Ignore
}

proof fn lemma_run_finish(events: Seq<LogoutEvent>)
    ensures
        finish_invariant(run(events).0, run(events).1),
    decreases events.len(),
{
    if events.len() > 0 {
        let prev_events = events.drop_last();
        lemma_run_finish(prev_events);
        lemma_run_extends(events);
        let (st, acts) = run(prev_events);
        let (st2, a) = spec_step(st, events.last());
        lemma_step_shape(st, events.last());
        let acts2 = run(events).1;
        let n = acts.len() as int;
        if st == LogoutState::Done {
            let i = choose|i: int| 0 <= i < n && (#[trigger] acts[i]) is Finish;
            assert(acts2[i] is Finish);
        }
        if a is Finish {
            assert(acts2[n] is Finish);
        }
        if st2 == LogoutState::Done {
            assert(exists|i: int| 0 <= i < acts2.len() && (#[trigger] acts2[i]) is Finish);
        } else {
            assert forall|i: int| 0 <= i < acts2.len() implies !(#[trigger] acts2[i] is Finish) by {
                if i < n {
                    assert(acts2[i] == acts[i]);
                }
            }
        }
        assert forall|i: int, j: int|
            0 <= i < j < acts2.len() && (#[trigger] acts2[i]) is Finish implies (#[trigger] acts2[j]) is Ignore by {
            assert(acts2[i] == acts[i]);
            if j < n {
                assert(acts2[j] == acts[j]);
            } else {
                assert(st == LogoutState::Done);
            }
        }
    }
}

pub open spec fn progress_invariant(st: LogoutState, acts: Seq<ActionModel>) -> bool {
    &&& (st == LogoutState::AwaitingFlow || st == LogoutState::ReadingFlow || st == LogoutState::FetchingError)
        ==> requested_flow(acts, acts.len() as int)
    &&& st == LogoutState::LoggingOut ==> followed_logout(acts, acts.len() as int)
    &&& st == LogoutState::ClearingCookies ==> cleared_after_logout(acts, acts.len() as int)
    &&& forall|l: int|
        0 <= l < acts.len() && #[trigger] acts[l] == ActionModel::Finish(Ok(())) ==> cleared_after_logout(acts, l)
}

proof fn lemma_run_progress(events: Seq<LogoutEvent>)
    ensures
        progress_invariant(run(events).0, run(events).1),
    decreases events.len(),
{
    if events.len() > 0 {
        let prev_events = events.drop_last();
        lemma_run_progress(prev_events);
        lemma_run_extends(events);
        let (st, acts) = run(prev_events);
        let (st2, a) = spec_step(st, events.last());
        lemma_step_shape(st, events.last());
        let acts2 = run(events).1;
        let n = acts.len() as int;
        if requested_flow(acts, n) {
            let i = choose|i: int| 0 <= i < n && (#[trigger] acts[i]) is RequestFlow;
            assert(acts2[i] == acts[i]);
            assert(requested_flow(acts2, n + 1));
            if a is FollowLogout {
                assert(followed_logout(acts2, n + 1));
            }
        }
        if followed_logout(acts, n) {
            let (i, j) = choose|i: int, j: int|
                0 <= i < j < n && (#[trigger] acts[i]) is RequestFlow && (#[trigger] acts[j]) is FollowLogout;
            assert(acts2[i] == acts[i] && acts2[j] == acts[j]);
            assert(followed_logout(acts2, n + 1));
            if a is ClearCookies {
                assert(cleared_after_logout(acts2, n + 1));
            }
        }
        if cleared_after_logout(acts, n) {
            let (i, j, k) = choose|i: int, j: int, k: int|
                0 <= i < j < k < n && (#[trigger] acts[i]) is RequestFlow && (#[trigger] acts[j]) is FollowLogout
                    && (#[trigger] acts[k]) is ClearCookies;
            assert(acts2[i] == acts[i] && acts2[j] == acts[j] && acts2[k] == acts[k]);
            assert(cleared_after_logout(acts2, n + 1));
            assert(cleared_after_logout(acts2, n));
        }
        if a is RequestFlow {
            assert(acts2[n] is RequestFlow);
            assert(requested_flow(acts2, n + 1));
        }
        assert forall|l: int|
            0 <= l < acts2.len() && #[trigger] acts2[l] == ActionModel::Finish(Ok(())) implies cleared_after_logout(
            acts2,
            l,
        ) by {
            if l < n {
                assert(acts2[l] == acts[l]);
                let (i, j, k) = choose|i: int, j: int, k: int|
                    0 <= i < j < k < l && (#[trigger] acts[i]) is RequestFlow && (#[trigger] acts[j]) is FollowLogout
                        && (#[trigger] acts[k]) is ClearCookies;
                assert(acts2[i] == acts[i] && acts2[j] == acts[j] && acts2[k] == acts[k]);
            }
        }
    }
}

proof fn lemma_run_requests(events: Seq<LogoutEvent>)
    ensures
        forall|i: int| 0 <= i < run(events).1.len() ==> #[trigger] request_carries_session(events, run(events).1, i),
    decreases events.len(),
{
    if events.len() > 0 {
        let prev_events = events.drop_last();
        lemma_run_requests(prev_events);
        lemma_run_extends(events);
        lemma_run_len(prev_events);
        let (st, acts) = run(prev_events);
        lemma_step_shape(st, events.last());
        let acts2 = run(events).1;
        let n = acts.len() as int;
        assert forall|i: int| 0 <= i < acts2.len() implies #[trigger] request_carries_session(events, acts2, i) by {
            if i < n {
                assert(request_carries_session(prev_events, acts, i));
                assert(acts2[i] == acts[i]);
                assert(events[i] == prev_events[i]);
            } else {
                assert(events[i] == events.last());
            }
        }
    }
}

/// A logout reports success only after it has asked Kratos for a logout
/// flow, followed the flow's logout URL and then cleared the site's
/// cookies, in that order.
pub proof fn lemma_success_only_after_full_logout(events: Seq<LogoutEvent>, l: int)
    requires
        0 <= l < run(events).1.len(),
        run(events).1[l] == ActionModel::Finish(Ok(())),
    ensures
        cleared_after_logout(run(events).1, l),
{
    lemma_run_progress(events);
}

/// A logout finishes at most once, and once it has finished it asks for
/// nothing more; it is done exactly when it has finished.
pub proof fn lemma_finish_is_final(events: Seq<LogoutEvent>)
    ensures
        forall|i: int, j: int|
            0 <= i < j < run(events).1.len() && (#[trigger] run(events).1[i]) is Finish ==> (#[trigger] run(
                events,
            ).1[j]) is Ignore,
        run(events).0 == LogoutState::Done <==> exists|i: int|
            0 <= i < run(events).1.len() && (#[trigger] run(events).1[i]) is Finish,
{
    lemma_run_finish(events);
}

/// Kratos is only ever asked for a logout flow at its browser endpoint, in
/// answer to the event that began the logout, and with the Kratos session
/// cookie of that request: a request without one never reaches Kratos.
pub proof fn lemma_flow_request_carries_session(events: Seq<LogoutEvent>, i: int)
    requires
        0 <= i < run(events).1.len(),
    ensures
        request_carries_session(events, run(events).1, i),
{
    lemma_run_requests(events);
}

/// A finished logout stays finished: every later event is ignored.
pub proof fn lemma_done_is_absorbing(event: LogoutEvent)
    ensures
        spec_step(LogoutState::Done, event) == (LogoutState::Done, ActionModel::Ignore),
{
}

/// Following a granted logout flow visits that flow's own logout URL with
/// its token, unchanged and whole, and asks Kratos to send the browser home.
pub proof fn lemma_follow_uses_the_flow_as_given(flow: LogoutFlow)
    ensures
        spec_step(LogoutState::ReadingFlow, LogoutEvent::FlowBody(Ok(flow))).0 == LogoutState::LoggingOut,
        spec_step(LogoutState::ReadingFlow, LogoutEvent::FlowBody(Ok(flow))).1 == (ActionModel::FollowLogout {
            url: flow.logout_url@,
            query: seq![("token"@, flow.logout_token@), ("return_to"@, "/"@)],
        }),
{
    reveal_strlit("token");
    reveal_strlit("return_to");
    reveal_strlit("/");
}

/// The flow id read from a refusal's `Location` is exactly the first query
/// value that the URL parser finds there, whatever its length.
pub proof fn lemma_flow_id_is_first_query_value(v: Seq<char>)
    ensures
        flow_id_of_query(Ok(Some(v))) == Ok::<Seq<char>, ErrorModel>(v),
{
}

/// A refused logout fetches exactly the error flow that the first query
/// value of the refusal's `Location` header names.
pub proof fn lemma_refusal_fetches_the_named_error(status: u16, text: String, v: Seq<char>)
    requires
        status != 200 && status != 204,
        first_query_value(text@) == Ok::<Option<Seq<char>>, Seq<char>>(Some(v)),
    ensures
        spec_step(
            LogoutState::AwaitingFlow,
            (LogoutEvent::FlowReply { status, location: Some(Ok(text)) }),
        ) == (LogoutState::FetchingError, (ActionModel::FetchError { flow_id: v })),
{
}

/// Kratos grants a flow with 200 or 204; then its body is read.
pub proof fn lemma_granted_flow_is_read(status: u16, location: Option<Result<String, String>>)
    requires
        status == 200 || status == 204,
    ensures
        spec_step(LogoutState::AwaitingFlow, (LogoutEvent::FlowReply { status, location }))
            == (LogoutState::ReadingFlow, ActionModel::ReadFlow),
{
}

/// Beginning with a request whose first `ory_kratos_session` cookie is at
/// `i` asks Kratos's browser logout endpoint for a flow, sending exactly
/// that cookie as `name=value`.
pub proof fn lemma_begin_sends_the_session_cookie(cookies: Vec<Cookie>, i: int)
    requires
        0 <= i < cookies@.len(),
        cookies@[i].name@ == "ory_kratos_session"@,
        forall|j: int| 0 <= j < i ==> (#[trigger] cookies@[j]).name@ != "ory_kratos_session"@,
    ensures
        spec_step(LogoutState::Start, (LogoutEvent::Begin { cookies })) == (
            LogoutState::AwaitingFlow,
            (ActionModel::RequestFlow {
                url: "http://127.0.0.1:4433/self-service/logout/browser"@,
                cookie: cookies@[i].name@ + "="@ + cookies@[i].value@,
            }),
        ),
{
    reveal_strlit("http://127.0.0.1:4433/self-service/logout/browser");
    lemma_session_cookie_is_first_named(cookies@);
    let found = session_cookie(cookies@);
    if found is None {
        assert(cookies@[i].name@ != "ory_kratos_session"@);
    } else {
        let k = choose|k: int|
            0 <= k < cookies@.len() && cookies@[k] == found->0 && (#[trigger] cookies@[k]).name@
                == "ory_kratos_session"@ && forall|j: int|
                0 <= j < k ==> (#[trigger] cookies@[j]).name@ != "ory_kratos_session"@;
        if k < i {
            assert(cookies@[k].name@ != "ory_kratos_session"@);
        }
        if i < k {
            assert(cookies@[i].name@ != "ory_kratos_session"@);
        }
        assert(k == i);
    }
}

/// Without any `ory_kratos_session` cookie the logout ends at once with
/// that error, and Kratos is not asked.
pub proof fn lemma_begin_without_session_fails(cookies: Vec<Cookie>)
    requires
        forall|i: int| 0 <= i < cookies@.len() ==> (#[trigger] cookies@[i]).name@ != "ory_kratos_session"@,
    ensures
        spec_step(LogoutState::Start, (LogoutEvent::Begin { cookies })) == (
            LogoutState::Done,
            ActionModel::Finish(Err(ErrorModel::NoSessionCookie)),
        ),
{
    lemma_session_cookie_is_first_named(cookies@);
    if let Some(found) = session_cookie(cookies@) {
        let k = choose|k: int|
            0 <= k < cookies@.len() && cookies@[k] == found && (#[trigger] cookies@[k]).name@
                == "ory_kratos_session"@ && forall|j: int|
                0 <= j < k ==> (#[trigger] cookies@[j]).name@ != "ory_kratos_session"@;
        assert(cookies@[k].name@ != "ory_kratos_session"@);
    }
}

/// A failure reported while a logout is under way ends it with that
/// failure's message.
pub proof fn lemma_failure_ends_the_logout(state: LogoutState, m: String)
    requires
        state != LogoutState::Done,
    ensures
        spec_step(state, LogoutEvent::Failed(m)) == (
            LogoutState::Done,
            ActionModel::Finish(Err(ErrorModel::Service(m@))),
        ),
{
}

/// The error fetched from Kratos is what a refused logout reports.
pub proof fn lemma_kratos_error_is_reported(m: String)
    ensures
        spec_step(LogoutState::FetchingError, LogoutEvent::ErrorFetched(Ok(m))) == (
            LogoutState::Done,
            ActionModel::Finish(Err(ErrorModel::Kratos(m@))),
        ),
{
}

/// After the logout URL was followed the cookies are cleared, and once
/// they are the logout succeeds.
pub proof fn lemma_logout_then_clear_then_success()
    ensures
        spec_step(LogoutState::LoggingOut, LogoutEvent::LoggedOut(Ok(())))
            == (LogoutState::ClearingCookies, ActionModel::ClearCookies),
        spec_step(LogoutState::ClearingCookies, LogoutEvent::CookiesCleared(Ok(())))
            == (LogoutState::Done, ActionModel::Finish(Ok(()))),
{
}

} // verus!
