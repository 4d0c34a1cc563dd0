//! The session: the authentication state machine's state, and the rendering
//! of login failures into the message shown on the login form.

use vstd::prelude::*;

use crate::data::{LoginResult, LoginResultView};

verus! {

/// The authentication state.  Exactly one is active at a time.
#[derive(Debug)]
pub enum Session {
    /// Logged out; the password draft lives here, together with the message
    /// of the last failed attempt, if any.
    Unauthenticated { password: String, error_message: Option<String> },
    /// A credential exchange is in flight.
    Authenticating,
    /// Logged in, holding the token the server issued.
    Authenticated { token: String },
}

/// Mathematical value of a [`Session`].
#[verifier::ext_equal]
pub enum SessionView {
    Unauthenticated { password: Seq<char>, error_message: Option<Seq<char>> },
    Authenticating,
    Authenticated { token: Seq<char> },
}

impl View for Session {
    type V = SessionView;

    open spec fn view(&self) -> SessionView {
        match self {
            Session::Unauthenticated { password, error_message } => SessionView::Unauthenticated {
                password: password@,
                error_message: error_message.deep_view(),
            },
            Session::Authenticating => SessionView::Authenticating,
            Session::Authenticated { token } => SessionView::Authenticated { token: token@ },
        }
    }
}

impl DeepView for Session {
    type V = SessionView;

    open spec fn deep_view(&self) -> SessionView {
        self.view()
    }
}

/// The message a login failure is rendered as: a connection failure reads
/// "could not connect", a failed registration "failed to register", and a
/// server rejection is shown as the rendering of the server's status that
/// the failure carries.
pub open spec fn spec_login_error_text(e: LoginResultView) -> Seq<char> {
    match e {
        LoginResultView::ServerError(s) => s,
        LoginResultView::NotConnected => "could not connect"@,
        LoginResultView::RegisterFailed => "failed to register"@,
    }
}

/// Render a login failure; see [`spec_login_error_text`].
pub fn login_error_text(e: &LoginResult) -> (r: String)
    ensures
        r@ == spec_login_error_text(e.deep_view()),
{
    match e {
        LoginResult::ServerError(s) => s.clone(),
        LoginResult::NotConnected => String::from_str("could not connect"),
        LoginResult::RegisterFailed => String::from_str("failed to register"),
    }
}

} // verus!
