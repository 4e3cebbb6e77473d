use aui::screens::login::{login, login_actions, login_hint, login_status, LoginIntent, LoginMethod, LoginState};

#[test]
fn headline_defaults_to_the_product() {
    assert_eq!(login("l", LoginState::Choose).headline_text(), "Sign in to Muse");
    assert_eq!(login("l", LoginState::Choose).product("Orca").headline_text(), "Sign in to Orca");
    assert_eq!(login("l", LoginState::Choose).headline("Welcome back").headline_text(), "Welcome back");
}

fn intents(state: &LoginState) -> Vec<(String, LoginIntent, bool, bool)> {
    login_actions(state).into_iter().map(|a| (a.label, a.intent, a.primary, a.enabled)).collect()
}

#[test]
fn every_state_offers_its_own_buttons_with_the_primary_rightmost() {
    assert_eq!(
        intents(&LoginState::Choose),
        vec![
            ("Use an API key".to_string(), LoginIntent::UseApiKey, false, true),
            ("Continue with Meta account".to_string(), LoginIntent::StartAccount, true, true),
        ]
    );
    assert_eq!(intents(&LoginState::Starting), vec![("Cancel".to_string(), LoginIntent::Cancel, false, true)]);
    let device = LoginState::Device { url: "https://x".to_string(), code: "ABCD".to_string(), expires: None, waiting: true };
    assert_eq!(
        intents(&device),
        vec![
            ("Cancel".to_string(), LoginIntent::Cancel, false, true),
            ("Copy code".to_string(), LoginIntent::CopyCode, false, true),
            ("Open in browser".to_string(), LoginIntent::OpenBrowser, true, true),
        ]
    );
    let form = LoginState::ApiKey { can_submit: false, error: None };
    assert_eq!(
        intents(&form),
        vec![("Back".to_string(), LoginIntent::Back, false, true), ("Sign in".to_string(), LoginIntent::SubmitApiKey, true, false)]
    );
    assert!(intents(&LoginState::Validating).is_empty());
    assert!(intents(&LoginState::Success).is_empty());
    let failed = LoginState::Error { message: "bad key".to_string(), method: Some(LoginMethod::ApiKey) };
    assert_eq!(
        intents(&failed),
        vec![
            ("Choose another way".to_string(), LoginIntent::ChooseAnother, false, true),
            ("Try again".to_string(), LoginIntent::Retry, true, true),
        ]
    );
}

#[test]
fn the_spinner_line_and_the_hint_follow_the_state() {
    assert_eq!(login_status(&LoginState::Starting).as_deref(), Some("Starting sign-in…"));
    assert_eq!(login_status(&LoginState::Validating).as_deref(), Some("Checking the key…"));
    let waiting = LoginState::Device { url: "u".to_string(), code: "c".to_string(), expires: Some("expires in 14:32".to_string()), waiting: true };
    assert_eq!(login_status(&waiting).as_deref(), Some("Waiting for you to finish in the browser…"));
    assert_eq!(login_hint(&waiting).as_deref(), Some("expires in 14:32"));
    let idle = LoginState::Device { url: "u".to_string(), code: "c".to_string(), expires: None, waiting: false };
    assert_eq!(login_status(&idle), None);
    assert_eq!(login_hint(&idle).as_deref(), Some("Approve the request in your browser, then come back here."));
    assert_eq!(login_hint(&LoginState::Choose), None);
    assert_eq!(login_status(&LoginState::Success), None);
}
