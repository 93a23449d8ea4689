//! What the site's pages show and what their controls do, as plain values
//! that the front end renders.
use vstd::prelude::*;
use crate::ids::{LOGIN_BUTTON_ID, LOGOUT_BUTTON_ID, REGISTER_BUTTON_ID};

verus! {

/// Whether the browser holds a session; no session until one is made.
#[derive(Debug, Clone, Copy, PartialEq, Eq, Structural)]
pub struct LoggedIn(pub bool);

impl Default for LoggedIn {
    fn default() -> (d: Self)
        ensures
            !d.0,
    {
        LoggedIn(false)
    }
}

/// A link: where it goes, its element id and its text.
#[derive(Debug, Clone, PartialEq, Eq)]
pub struct Link {
    pub href: String,
    pub id: String,
    pub label: String,
}

/// The home page: a heading, the link to registration, and the link that
/// matches the session (log in without one, log out with one).
#[derive(Debug, Clone, PartialEq, Eq)]
pub struct HomeView {
    pub heading: String,
    pub register: Link,
    pub session: Link,
}

pub const HOME_HEADING: &'static str = "Welcome to Leptos!";

pub const REGISTER_HREF: &'static str = "/register";

pub const LOGIN_HREF: &'static str = "/login";

pub const HOME_HREF: &'static str = "/";

pub const REGISTER_LABEL: &'static str = "Register";

pub const LOGIN_LABEL: &'static str = "Login";

pub const LOGOUT_LABEL: &'static str = "Logout";

pub const LOGGING_OUT_TEXT: &'static str = "Logging out...";

fn link(href: &'static str, id: &'static str, label: &'static str) -> (l: Link)
    ensures
        l.href@ == href@,
        l.id@ == id@,
        l.label@ == label@,
{
    Link { href: String::from_str(href), id: String::from_str(id), label: String::from_str(label) }
}

/// The home page for a session state.
#[allow(non_snake_case)]
pub fn HomePage(logged_in: LoggedIn) -> (v: HomeView)
    ensures
        v.heading@ == HOME_HEADING@,
        v.register.href@ == REGISTER_HREF@,
        v.register.id@ == REGISTER_BUTTON_ID@,
        v.register.label@ == REGISTER_LABEL@,
        logged_in.0 ==> v.session.href@ == HOME_HREF@ && v.session.id@ == LOGOUT_BUTTON_ID@
            && v.session.label@ == LOGOUT_LABEL@,
        !logged_in.0 ==> v.session.href@ == LOGIN_HREF@ && v.session.id@ == LOGIN_BUTTON_ID@
            && v.session.label@ == LOGIN_LABEL@,
{
    let session = if logged_in.0 {
        link(HOME_HREF, LOGOUT_BUTTON_ID, LOGOUT_LABEL)
    } else {
        link(LOGIN_HREF, LOGIN_BUTTON_ID, LOGIN_LABEL)
    };
    HomeView {
        heading: String::from_str(HOME_HEADING),
        register: link(REGISTER_HREF, REGISTER_BUTTON_ID, REGISTER_LABEL),
        session,
    }
}

/// A button: its element id and its text. Clicking it dispatches the
/// server's logout.
#[derive(Debug, Clone, PartialEq, Eq)]
pub struct ButtonView {
    pub id: String,
    pub label: String,
}

/// The logout button.
#[allow(non_snake_case)]
pub fn LogoutButton() -> (b: ButtonView)
    ensures
        b.id@ == LOGOUT_BUTTON_ID@,
        b.label@ == LOGOUT_LABEL@,
{
    ButtonView { id: String::from_str(LOGOUT_BUTTON_ID), label: String::from_str(LOGOUT_LABEL) }
}

/// What the logout button shows under itself: nothing until the logout
/// has answered, nothing when it succeeded, its message when it failed.
pub fn logout_feedback(outcome: &Option<Result<(), String>>) -> (shown: Option<String>)
    ensures
        shown matches Some(m) <==> outcome matches Some(Err(_)),
        outcome matches Some(Err(e)) ==> shown matches Some(m) && m@ == e@,
{
    match outcome {
        Some(Err(e)) => Some(e.clone()),
        _ => None,
    }
}

/// A page that sends the browser elsewhere as soon as it is shown,
/// displaying `text` meanwhile.
#[derive(Debug, Clone, PartialEq, Eq)]
pub struct RedirectView {
    pub navigate_to: String,
    pub text: String,
}

/// The page shown while logging out: it goes back home.
#[allow(non_snake_case)]
pub fn LogoutPage() -> (p: RedirectView)
    ensures
        p.navigate_to@ == HOME_HREF@,
        p.text@ == LOGGING_OUT_TEXT@,
{
    RedirectView { navigate_to: String::from_str(HOME_HREF), text: String::from_str(LOGGING_OUT_TEXT) }
}

} // verus!
