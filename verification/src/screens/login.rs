//! The sign-in screen: a Meta account (device-code flow) or an API key.
//!
//! The host owns the [`LoginState`] — it runs the login command, polls,
//! counts the expiry down and validates the key — and receives
//! [`LoginIntent`]s back. This module decides what the card says in each
//! state and which buttons it offers.
use vstd::prelude::*;

use crate::text::{extend_str, string_from};

verus! {

/// The product signed in to when the host names none.
pub const DEFAULT_PRODUCT: &'static str = "Muse";

/// Which way in the person chose.
#[derive(Debug, Clone, Copy, PartialEq, Eq, Structural)]
pub enum LoginMethod {
    /// The Meta-account device-code flow.
    Account,
    /// An API key.
    ApiKey,
}

/// What the sign-in screen is showing.
#[derive(Debug)]
pub enum LoginState {
    /// Nothing started: choose a method.
    Choose,
    /// The device flow is starting; a spinner row, no code yet.
    Starting,
    /// The device code is on screen.
    Device {
        /// The verification URL the person opens.
        url: String,
        /// The code they type into it.
        code: String,
        /// How long the code is good for (`"expires in 14:32"`), shown as
        /// the action row's hint.
        expires: Option<String>,
        /// Whether the app is polling: adds the waiting spinner row.
        waiting: bool,
    },
    /// The API-key form; the field itself is the host's.
    ApiKey {
        /// Whether the form may be submitted.
        can_submit: bool,
        /// A validation problem, shown in the attention border.
        error: Option<String>,
    },
    /// The key is being checked.
    Validating,
    /// Signed in.
    Success,
    /// Failed; `message` is shown in the danger ink.
    Error {
        /// What went wrong, in the host's words.
        message: String,
        /// Which method failed, so "Try again" restarts that one.
        method: Option<LoginMethod>,
    },
}

/// What the person asked the app to do.
#[derive(Debug, Clone, Copy, PartialEq, Eq, Structural)]
pub enum LoginIntent {
    /// Choose → the device flow.
    StartAccount,
    /// Choose → the API-key form.
    UseApiKey,
    /// The API-key form → validating.
    SubmitApiKey,
    /// The eye button in the API-key form.
    ToggleReveal,
    /// The API-key form → the method choice.
    Back,
    /// Open the verification URL in the browser.
    OpenBrowser,
    /// Put the device code on the clipboard.
    CopyCode,
    /// Try again after a failure.
    Retry,
    /// A failure → the method choice.
    ChooseAnother,
    /// Abandon a running flow; back to the method choice.
    Cancel,
}

/// The sign-in screen in one state.
#[derive(Debug)]
pub struct Login {
    /// Stable identity of the screen.
    pub id: String,
    /// What the screen shows.
    pub state: LoginState,
    /// The product signed in to; the default headline is built from it.
    pub product: String,
    /// A headline that replaces the default one.
    pub headline: Option<String>,
    /// The muted line under the headline.
    pub subtitle: Option<String>,
}

/// The sign-in screen in `state`, signing in to the default product.
pub fn login(id: &str, state: LoginState) -> (l: Login)
    ensures
        l.id@ == id@,
        l.state == state,
        l.product@ == DEFAULT_PRODUCT@,
        l.headline is None,
        l.subtitle is None,
{
    Login { id: id.to_string(), state, product: DEFAULT_PRODUCT.to_string(), headline: None, subtitle: None }
}

/// The headline drawn: the override when there is one, else
/// `Sign in to <product>`.
pub open spec fn headline_of(l: Login) -> Seq<char> {
    match l.headline {
        Some(h) => h@,
        None => "Sign in to "@ + l.product@,
    }
}

impl Login {
    /// The product being signed in to.
    pub fn product(self, name: &str) -> (l: Self)
        ensures
            l == (Login { product: l.product, ..self }),
            l.product@ == name@,
    {
        Login { product: name.to_string(), ..self }
    }

    /// Overrides the headline.
    pub fn headline(self, text: &str) -> (l: Self)
        ensures
            l == (Login { headline: l.headline, ..self }),
            l.headline matches Some(h) && h@ == text@,
    {
        Login { headline: Some(text.to_string()), ..self }
    }

    /// The muted line under the headline.
    pub fn subtitle(self, text: &str) -> (l: Self)
        ensures
            l == (Login { subtitle: l.subtitle, ..self }),
            l.subtitle matches Some(s) && s@ == text@,
    {
        Login { subtitle: Some(text.to_string()), ..self }
    }

    /// The headline actually drawn.
    pub fn headline_text(&self) -> (h: String)
        ensures
            h@ == headline_of(*self),
    {
        match &self.headline {
            Some(h) => h.clone(),
            None => {
                let mut out: Vec<char> = Vec::new();
                extend_str(&mut out, "Sign in to ");
                extend_str(&mut out, self.product.as_str());
                string_from(&out)
            },
        }
    }
}

/// One button of the action row.
#[derive(Debug)]
pub struct LoginAction {
    /// The button's label.
    pub label: String,
    /// The intent a press reports.
    pub intent: LoginIntent,
    /// Whether it is the primary button.
    pub primary: bool,
    /// Whether it can be pressed.
    pub enabled: bool,
}

impl View for LoginAction {
    type V = (Seq<char>, LoginIntent, bool, bool);

    open spec fn view(&self) -> (Seq<char>, LoginIntent, bool, bool) {
        (self.label@, self.intent, self.primary, self.enabled)
    }
}

/// The action row of each state, left to right: secondary buttons first and
/// the primary at the far right. The API-key form's "Sign in" is disabled
/// until the form may be submitted; validating and success offer nothing.
pub open spec fn actions_of(state: LoginState) -> Seq<(Seq<char>, LoginIntent, bool, bool)> {
    match state {
        LoginState::Choose => seq![
            ("Use an API key"@, LoginIntent::UseApiKey, false, true),
            ("Continue with Meta account"@, LoginIntent::StartAccount, true, true),
        ],
        LoginState::Starting => seq![("Cancel"@, LoginIntent::Cancel, false, true)],
        LoginState::Device { .. } => seq![
            ("Cancel"@, LoginIntent::Cancel, false, true),
            ("Copy code"@, LoginIntent::CopyCode, false, true),
            ("Open in browser"@, LoginIntent::OpenBrowser, true, true),
        ],
        LoginState::ApiKey { can_submit, .. } => seq![
            ("Back"@, LoginIntent::Back, false, true),
            ("Sign in"@, LoginIntent::SubmitApiKey, true, can_submit),
        ],
        LoginState::Validating => Seq::empty(),
        LoginState::Success => Seq::empty(),
        LoginState::Error { .. } => seq![
            ("Choose another way"@, LoginIntent::ChooseAnother, false, true),
            ("Try again"@, LoginIntent::Retry, true, true),
        ],
    }
}

fn action(label: &str, intent: LoginIntent, primary: bool, enabled: bool) -> (a: LoginAction)
    ensures
        a@ == (label@, intent, primary, enabled),
{
    LoginAction { label: label.to_string(), intent, primary, enabled }
}

/// The buttons the card offers in `state`, left to right.
pub fn login_actions(state: &LoginState) -> (out: Vec<LoginAction>)
    ensures
        out@.map_values(|a: LoginAction| a@) == actions_of(*state),
{
    let mut out: Vec<LoginAction> = Vec::new();
    match state {
        LoginState::Choose => {
            out.push(action("Use an API key", LoginIntent::UseApiKey, false, true));
            out.push(action("Continue with Meta account", LoginIntent::StartAccount, true, true));
        },
        LoginState::Starting => {
            out.push(action("Cancel", LoginIntent::Cancel, false, true));
        },
        LoginState::Device { .. } => {
            out.push(action("Cancel", LoginIntent::Cancel, false, true));
            out.push(action("Copy code", LoginIntent::CopyCode, false, true));
            out.push(action("Open in browser", LoginIntent::OpenBrowser, true, true));
        },
        LoginState::ApiKey { can_submit, .. } => {
            out.push(action("Back", LoginIntent::Back, false, true));
            out.push(action("Sign in", LoginIntent::SubmitApiKey, true, *can_submit));
        },
        LoginState::Validating => {},
        LoginState::Success => {},
        LoginState::Error { .. } => {
            out.push(action("Choose another way", LoginIntent::ChooseAnother, false, true));
            out.push(action("Try again", LoginIntent::Retry, true, true));
        },
    }
    assert(out@.map_values(|a: LoginAction| a@) =~= actions_of(*state));
    out
}

/// The action row keeps one layout: at most one primary button, and it is
/// the rightmost.
pub proof fn lemma_primary_is_rightmost(state: LoginState)
    ensures
        forall|i: int|
            0 <= i < actions_of(state).len() && (#[trigger] actions_of(state)[i]).2 ==> i == actions_of(
                state,
            ).len() - 1,
{
}

/// Every button the sign-in screen offers can be pressed, save one: the
/// key's `Sign in`, which waits until the key can be submitted. The API-key
/// screen always offers it, as its primary action, enabled exactly when the
/// key can be submitted, and it appears on no other screen.
pub proof fn lemma_only_the_key_waits(state: LoginState)
    ensures
        forall|i: int|
            0 <= i < actions_of(state).len() && (#[trigger] actions_of(state)[i]).1 != LoginIntent::SubmitApiKey
                ==> actions_of(state)[i].3,
        forall|i: int|
            0 <= i < actions_of(state).len() && (#[trigger] actions_of(state)[i]).1 == LoginIntent::SubmitApiKey
                ==> (state is ApiKey && actions_of(state)[i].2 && actions_of(state)[i].3 == state->ApiKey_can_submit),
        state is ApiKey ==> exists|i: int|
            0 <= i < actions_of(state).len() && (#[trigger] actions_of(state)[i]).1 == LoginIntent::SubmitApiKey,
{
    if state is ApiKey {
        assert(actions_of(state)[1].1 == LoginIntent::SubmitApiKey);
    }
}

/// The spinner row's sentence: starting the device flow, polling for the
/// browser, or checking a key; `None` in the other states.
pub open spec fn status_of(state: LoginState) -> Option<Seq<char>> {
    match state {
        LoginState::Starting => Some("Starting sign-in…"@),
        LoginState::Device { waiting, .. } => if waiting {
            Some("Waiting for you to finish in the browser…"@)
        } else {
            None
        },
        LoginState::Validating => Some("Checking the key…"@),
        _ => None,
    }
}

/// Whether some action of `state` asks for `intent`.
pub open spec fn offers(state: LoginState, intent: LoginIntent) -> bool {
    exists|i: int| 0 <= i < actions_of(state).len() && (#[trigger] actions_of(state)[i]).1 == intent
}

/// The sign-in card shows a spinner sentence exactly while something runs:
/// the device flow starting, the app polling for the browser, or a key being
/// checked. The card offers no button only while a key is checked or once
/// signed in; a starting or running device flow can always be cancelled;
/// the method choice offers both methods; a failure offers to try again as
/// its primary action and another way out.
pub proof fn lemma_the_card_follows_the_flow(state: LoginState)
    ensures
        (status_of(state) is Some) == (state is Starting || state is Validating || (state is Device
            && state->Device_waiting)),
        (actions_of(state).len() == 0) == (state is Validating || state is Success),
        (state is Starting || state is Device) ==> offers(state, LoginIntent::Cancel),
        state is Choose ==> offers(state, LoginIntent::UseApiKey) && offers(state, LoginIntent::StartAccount),
        state is Error ==> offers(state, LoginIntent::ChooseAnother) && actions_of(state).last().1 == LoginIntent::Retry
            && actions_of(state).last().2,
        state is Device ==> offers(state, LoginIntent::OpenBrowser) && offers(state, LoginIntent::CopyCode),
{
    let a = actions_of(state);
    match state {
        LoginState::Choose => {
            assert(a[0].1 == LoginIntent::UseApiKey);
            assert(a[1].1 == LoginIntent::StartAccount);
        },
        LoginState::Starting => {
            assert(a[0].1 == LoginIntent::Cancel);
        },
        LoginState::Device { .. } => {
            assert(a[0].1 == LoginIntent::Cancel);
            assert(a[1].1 == LoginIntent::CopyCode);
            assert(a[2].1 == LoginIntent::OpenBrowser);
        },
        LoginState::Error { .. } => {
            assert(a[0].1 == LoginIntent::ChooseAnother);
        },
        _ => {},
    }
}

/// The sentence beside the spinner, when the card shows one.
pub fn login_status(state: &LoginState) -> (r: Option<String>)
    ensures
        match (r, status_of(*state)) {
            (Some(a), Some(b)) => a@ == b,
            (None, None) => true,
            _ => false,
        },
{
    match state {
        LoginState::Starting => Some("Starting sign-in…".to_string()),
        LoginState::Device { waiting, .. } => if *waiting {
            Some("Waiting for you to finish in the browser…".to_string())
        } else {
            None
        },
        LoginState::Validating => Some("Checking the key…".to_string()),
        _ => None,
    }
}

/// The action row's hint: the device code's expiry, or how to approve it
/// when the host gives none; no hint in the other states.
pub fn login_hint(state: &LoginState) -> (r: Option<String>)
    ensures
        match *state {
            LoginState::Device { expires, .. } => r matches Some(h) && match expires {
                Some(e) => h@ == e@,
                None => h@ == "Approve the request in your browser, then come back here."@,
            },
            _ => r is None,
        },
{
    match state {
        LoginState::Device { expires, .. } => match expires {
            Some(e) => Some(e.clone()),
            None => Some("Approve the request in your browser, then come back here.".to_string()),
        },
        _ => None,
    }
}

} // verus!
