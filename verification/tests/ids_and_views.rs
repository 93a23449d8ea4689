use ory_auth::ids::{
    match_name_to_id, EMAIL_INPUT_ID, LOGIN_BUTTON_ID, LOGOUT_BUTTON_ID, PASSWORD_INPUT_ID,
    REGISTER_BUTTON_ID,
};
use ory_auth::views::{logout_feedback, HomePage, LoggedIn, LogoutButton, LogoutPage};

#[test]
fn email_trait_maps_to_email_input() {
    assert_eq!(match_name_to_id("traits.email".to_string()), "email_input_id");
    assert_eq!(match_name_to_id("traits.email".to_string()), EMAIL_INPUT_ID);
}

#[test]
fn password_maps_to_password_input() {
    assert_eq!(match_name_to_id("password".to_string()), "password_input_id");
    assert_eq!(match_name_to_id("password".to_string()), PASSWORD_INPUT_ID);
}

#[test]
fn other_names_map_to_empty_id() {
    assert_eq!(match_name_to_id("csrf_token".to_string()), "");
    assert_eq!(match_name_to_id(String::new()), "");
    assert_eq!(match_name_to_id("traits.Email".to_string()), "");
    assert_eq!(match_name_to_id("password ".to_string()), "");
}

#[test]
fn a_new_browser_is_logged_out() {
    assert_eq!(LoggedIn::default(), LoggedIn(false));
}

#[test]
fn home_page_offers_login_without_session() {
    let v = HomePage(LoggedIn(false));
    assert_eq!(v.heading, "Welcome to Leptos!");
    assert_eq!(v.register.href, "/register");
    assert_eq!(v.register.id, REGISTER_BUTTON_ID);
    assert_eq!(v.register.label, "Register");
    assert_eq!(v.session.href, "/login");
    assert_eq!(v.session.id, LOGIN_BUTTON_ID);
    assert_eq!(v.session.label, "Login");
}

#[test]
fn home_page_offers_logout_with_session() {
    let v = HomePage(LoggedIn(true));
    assert_eq!(v.register.href, "/register");
    assert_eq!(v.session.href, "/");
    assert_eq!(v.session.id, LOGOUT_BUTTON_ID);
    assert_eq!(v.session.label, "Logout");
}

#[test]
fn logout_button_has_its_id() {
    let b = LogoutButton();
    assert_eq!(b.id, "logout_button_id");
    assert_eq!(b.label, "Logout");
}

#[test]
fn logout_feedback_shows_only_failures() {
    assert_eq!(logout_feedback(&None), None);
    assert_eq!(logout_feedback(&Some(Ok(()))), None);
    assert_eq!(
        logout_feedback(&Some(Err("expecting location in headers".to_string()))),
        Some("expecting location in headers".to_string())
    );
}

#[test]
fn logout_page_goes_home() {
    let p = LogoutPage();
    assert_eq!(p.navigate_to, "/");
    assert_eq!(p.text, "Logging out...");
}
