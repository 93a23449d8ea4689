//! Element ids and routes shared by the front end and its end-to-end tests.
use vstd::prelude::*;

verus! {

pub const REGISTER_BUTTON_ID: &'static str = "register_button_id";

pub const REGISTRATION_FORM_ID: &'static str = "registration_form_id";

pub const EMAIL_INPUT_ID: &'static str = "email_input_id";

pub const PASSWORD_INPUT_ID: &'static str = "password_input_id";

pub const VERIFY_EMAIL_DIV_ID: &'static str = "verify_email_div_id";

pub const REGISTER_ROUTE: &'static str = "/register";

pub const VERIFY_EMAIL_ROUTE: &'static str = "/check_email_for_verification";

pub const ERROR_ERROR_ID: &'static str = "error_template_id";

pub const ERROR_COOKIES_ID: &'static str = "error_cookies_id";

pub const KRATOS_FORM_SUBMIT_ID: &'static str = "kratos_form_submit_id";

pub const LOGIN_BUTTON_ID: &'static str = "login_button_id";

pub const LOGOUT_BUTTON_ID: &'static str = "logout_button_id";

/// The message of a request that Keto refused.
pub const AUTH_ERROR_MSG: &'static str = "auth_error_msg";

/// Maps the name of an input node of a Kratos form to the id that the
/// schema gives it: the email trait and the password have ids, every other
/// input has the empty id.
pub fn match_name_to_id(name: String) -> (id: &'static str)
    ensures
        name@ == "traits.email"@ ==> id@ == EMAIL_INPUT_ID@,
        name@ == "password"@ ==> id@ == PASSWORD_INPUT_ID@,
        name@ != "traits.email"@ && name@ != "password"@ ==> id@ == Seq::<char>::empty(),
{
    proof {
        reveal_strlit("traits.email");
        reveal_strlit("password");
        assert("traits.email"@.len() != "password"@.len());
    }
    if name == String::from_str("traits.email") {
        EMAIL_INPUT_ID
    } else if name == String::from_str("password") {
        PASSWORD_INPUT_ID
    } else {
        proof { reveal_strlit(""); }
        ""
    }
}

} // verus!
