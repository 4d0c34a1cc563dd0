use sims_core::data::{LoginResult, Token};
use sims_core::dispatch::{Action, ClientState, Message};
use sims_core::session::{login_error_text, Session};

fn logged_in_client() -> ClientState {
    let mut c = ClientState::new();
    c.update(Message::UsernameInputChanged("ada".to_string()));
    c.update(Message::PasswordInputChanged("secret".to_string()));
    c.update(Message::LoginButtonClicked);
    c.update(Message::Authenticated(Ok(Token { token: "tok".to_string() })));
    c
}

#[test]
fn login_click_launches_the_exchange_with_the_drafts() {
    let mut c = ClientState::new();
    c.update(Message::UsernameInputChanged("ada".to_string()));
    c.update(Message::PasswordInputChanged("secret".to_string()));
    let actions = c.update(Message::LoginButtonClicked);
    assert_eq!(actions.len(), 1);
    match &actions[0] {
        Action::Login { username, password, register_first } => {
            assert_eq!(username, "ada");
            assert_eq!(password, "secret");
            assert!(!register_first);
        },
        _ => panic!("expected a login action"),
    }
    assert!(matches!(c.session(), Session::Authenticating));
}

#[test]
fn register_click_asks_for_registration_first() {
    let mut c = ClientState::new();
    c.update(Message::UsernameInputChanged("ada".to_string()));
    let actions = c.update(Message::RegisterButtonClicked);
    assert_eq!(actions.len(), 1);
    match &actions[0] {
        Action::Login { register_first, .. } => assert!(register_first),
        _ => panic!("expected a login action"),
    }
}

#[test]
fn login_click_outside_the_login_screen_does_nothing() {
    let mut c = logged_in_client();
    let actions = c.update(Message::LoginButtonClicked);
    assert!(actions.is_empty());
    assert!(matches!(c.session(), Session::Authenticated { .. }));
}

#[test]
fn successful_login_enters_the_inventory_and_refreshes_shelves() {
    let mut c = ClientState::new();
    c.update(Message::UsernameInputChanged("ada".to_string()));
    c.update(Message::PasswordInputChanged("secret".to_string()));
    c.update(Message::LoginButtonClicked);
    let actions = c.update(Message::Authenticated(Ok(Token { token: "tok".to_string() })));
    match c.session() {
        Session::Authenticated { token } => assert_eq!(token, "tok"),
        _ => panic!("expected an authenticated session"),
    }
    assert_eq!(actions.len(), 1);
    match &actions[0] {
        Action::FetchShelves { shelf_id, username, token } => {
            assert!(shelf_id.is_none());
            assert_eq!(username, "ada");
            assert_eq!(token, "tok");
        },
        _ => panic!("expected a shelf fetch"),
    }
}

#[test]
fn failed_login_clears_the_drafts_and_surfaces_the_message() {
    let mut c = ClientState::new();
    c.update(Message::UsernameInputChanged("ada".to_string()));
    c.update(Message::PasswordInputChanged("secret".to_string()));
    c.update(Message::LoginButtonClicked);
    let actions = c.update(Message::Authenticated(Err(LoginResult::NotConnected)));
    assert!(actions.is_empty());
    assert_eq!(c.username(), "");
    match c.session() {
        Session::Unauthenticated { password, error_message } => {
            assert_eq!(password, "");
            assert_eq!(error_message.as_deref(), Some("could not connect"));
        },
        _ => panic!("expected an unauthenticated session"),
    }
}

#[test]
fn each_failure_kind_has_its_message() {
    assert_eq!(login_error_text(&LoginResult::NotConnected), "could not connect");
    assert_eq!(login_error_text(&LoginResult::RegisterFailed), "failed to register");
    assert_eq!(
        login_error_text(&LoginResult::ServerError("status: denied".to_string())),
        "status: denied"
    );
}

#[test]
fn server_rejection_is_rendered_on_the_form() {
    let mut c = ClientState::new();
    c.update(Message::LoginButtonClicked);
    c.update(Message::Authenticated(Err(LoginResult::ServerError(
        "bad credentials".to_string(),
    ))));
    match c.session() {
        Session::Unauthenticated { error_message, .. } => {
            assert_eq!(error_message.as_deref(), Some("bad credentials"));
        },
        _ => panic!("expected an unauthenticated session"),
    }
}

#[test]
fn credential_keystrokes_are_ignored_once_authenticating() {
    let mut c = ClientState::new();
    c.update(Message::UsernameInputChanged("ada".to_string()));
    c.update(Message::LoginButtonClicked);
    c.update(Message::UsernameInputChanged("eve".to_string()));
    c.update(Message::PasswordInputChanged("hijack".to_string()));
    assert_eq!(c.username(), "ada");
    assert!(matches!(c.session(), Session::Authenticating));
}

#[test]
fn password_keystroke_rewrites_the_draft_wholesale() {
    let mut c = ClientState::new();
    c.update(Message::PasswordInputChanged("a".to_string()));
    c.update(Message::PasswordInputChanged("ab".to_string()));
    match c.session() {
        Session::Unauthenticated { password, .. } => assert_eq!(password, "ab"),
        _ => panic!("expected an unauthenticated session"),
    }
}

#[test]
fn stale_success_while_logged_in_replaces_the_token_quietly() {
    let mut c = logged_in_client();
    let actions = c.update(Message::Authenticated(Ok(Token { token: "tok2".to_string() })));
    assert!(actions.is_empty());
    match c.session() {
        Session::Authenticated { token } => assert_eq!(token, "tok2"),
        _ => panic!("expected an authenticated session"),
    }
}

#[test]
fn stale_failure_logs_the_client_out() {
    let mut c = logged_in_client();
    c.update(Message::Authenticated(Err(LoginResult::NotConnected)));
    assert!(matches!(c.session(), Session::Unauthenticated { .. }));
}
