//! The login handshake as a state machine. The driver performs the
//! network calls in order — one GET for the challenge, one POST with the
//! hashed credential — and feeds each response back as an event; every
//! decision between the calls is made, and verified, here.

use vstd::prelude::*;

use crate::auth::{
    parse_login_challenge, spec_login_challenge, spec_login_outcome, login_outcome,
    CredentialModel, SessionCredential,
};
use crate::errors::{AuthError, LoginError};
use crate::hash::{compute_hash, password_body, spec_password_body, spec_password_hash};

verus! {

/// Where the handshake stands.
#[derive(Debug)]
pub enum LoginState {
    /// Nothing has happened yet.
    Idle,
    /// The challenge GET is in flight; the plaintext password is held
    /// until the salt arrives.
    AwaitingChallenge { password: String },
    /// The credential POST is in flight.
    AwaitingVerdict,
    /// The handshake succeeded.
    LoggedIn { credential: SessionCredential },
    /// The handshake failed; terminal.
    Failed { error: LoginError },
}

/// What the driver reports back to the handshake.
#[derive(Debug)]
pub enum LoginEvent {
    /// Begin a login with this plaintext password.
    Start { password: String },
    /// The challenge GET returned this body.
    ChallengeBody { body: String },
    /// The credential POST returned this status and these response
    /// cookies, as (name, value) pairs.
    PostResponse { status: u16, cookies: Vec<(String, String)> },
}

/// What the driver must do next.
#[derive(Debug)]
pub enum LoginAction {
    /// GET the login endpoint for the challenge.
    FetchChallenge,
    /// POST this JSON body to the login endpoint, with content type
    /// `application/json;charset=UTF-8`.
    PostPassword { body: String },
    /// The handshake is over; look at the state.
    Stop,
}

/// The mathematical content of a [`LoginState`].
pub enum StateModel {
    Idle,
    AwaitingChallenge(Seq<char>),
    AwaitingVerdict,
    LoggedIn(CredentialModel),
    Failed(LoginError),
}

/// The mathematical content of a [`LoginEvent`].
pub enum EventModel {
    Start(Seq<char>),
    ChallengeBody(Seq<char>),
    PostResponse(u16, Seq<(String, String)>),
}

/// The mathematical content of a [`LoginAction`].
pub enum ActionModel {
    FetchChallenge,
    PostPassword(Seq<char>),
    Stop,
}

impl View for LoginState {
    type V = StateModel;

    open spec fn view(&self) -> StateModel {
        match *self {
            LoginState::Idle => StateModel::Idle,
            LoginState::AwaitingChallenge { password } => StateModel::AwaitingChallenge(
                password@,
            ),
            LoginState::AwaitingVerdict => StateModel::AwaitingVerdict,
            LoginState::LoggedIn { credential } => StateModel::LoggedIn(credential@),
            LoginState::Failed { error } => StateModel::Failed(error),
        }
    }
}

impl View for LoginEvent {
    type V = EventModel;

    open spec fn view(&self) -> EventModel {
        match *self {
            LoginEvent::Start { password } => EventModel::Start(password@),
            LoginEvent::ChallengeBody { body } => EventModel::ChallengeBody(body@),
            LoginEvent::PostResponse { status, cookies } => EventModel::PostResponse(
                status,
                cookies@,
            ),
        }
    }
}

impl View for LoginAction {
    type V = ActionModel;

    open spec fn view(&self) -> ActionModel {
        match *self {
            LoginAction::FetchChallenge => ActionModel::FetchChallenge,
            LoginAction::PostPassword { body } => ActionModel::PostPassword(body@),
            LoginAction::Stop => ActionModel::Stop,
        }
    }
}

/// The handshake's decision table. Exactly one order is accepted:
/// start, challenge body, post response. A malformed challenge fails
/// the handshake before anything is posted; a non-success POST status
/// fails it with that status, the cookies never consulted; otherwise
/// the response cookies decide. Any event out of order fails the
/// handshake.
pub open spec fn spec_login_step(state: StateModel, event: EventModel) -> (
    StateModel,
    ActionModel,
) {
    match (state, event) {
        (StateModel::Idle, EventModel::Start(password)) => (
            StateModel::AwaitingChallenge(password),
            ActionModel::FetchChallenge,
        ),
        (StateModel::AwaitingChallenge(password), EventModel::ChallengeBody(body)) => match
            spec_login_challenge(body) {
            Ok(challenge) => (
                StateModel::AwaitingVerdict,
                ActionModel::PostPassword(
                    spec_password_body(spec_password_hash(password, challenge.password_salt)),
                ),
            ),
            Err(e) => (StateModel::Failed(LoginError::Parse(e)), ActionModel::Stop),
        },
        (StateModel::AwaitingVerdict, EventModel::PostResponse(status, cookies)) => match
            spec_login_outcome(status, cookies) {
            Ok(credential) => (StateModel::LoggedIn(credential), ActionModel::Stop),
            Err(e) => (StateModel::Failed(LoginError::Auth(e)), ActionModel::Stop),
        },
        _ => (StateModel::Failed(LoginError::UnexpectedEvent), ActionModel::Stop),
    }
}

/// Advances the handshake by one event.
pub fn login_step(state: LoginState, event: LoginEvent) -> (r: (LoginState, LoginAction))
    ensures
        (r.0@, r.1@) == spec_login_step(state@, event@),
{
    match (state, event) {
        (LoginState::Idle, LoginEvent::Start { password }) => (
            LoginState::AwaitingChallenge { password },
            LoginAction::FetchChallenge,
        ),
        (
            LoginState::AwaitingChallenge { password },
            LoginEvent::ChallengeBody { body },
        ) => match parse_login_challenge(body.as_str()) {
            Ok(challenge) => {
                let hash = compute_hash(password.as_str(), challenge.password_salt.as_str());
                let body = password_body(hash.as_str());
                (LoginState::AwaitingVerdict, LoginAction::PostPassword { body })
            },
            Err(e) => (
                LoginState::Failed { error: LoginError::Parse(e) },
                LoginAction::Stop,
            ),
        },
        (
            LoginState::AwaitingVerdict,
            LoginEvent::PostResponse { status, cookies },
        ) => match login_outcome(status, &cookies) {
            Ok(credential) => (LoginState::LoggedIn { credential }, LoginAction::Stop),
            Err(e) => (
                LoginState::Failed { error: LoginError::Auth(e) },
                LoginAction::Stop,
            ),
        },
        (_, _) => (
            LoginState::Failed { error: LoginError::UnexpectedEvent },
            LoginAction::Stop,
        ),
    }
}

/// A non-success status on the credential POST always fails the
/// handshake with an authentication error carrying that status — never
/// a partial credential — whatever cookies came back.
pub proof fn lemma_login_rejects_bad_status(status: u16, cookies: Seq<(String, String)>)
    requires
        !crate::auth::spec_is_success(status),
    ensures
        spec_login_step(StateModel::AwaitingVerdict, EventModel::PostResponse(status, cookies))
            == (
            StateModel::Failed(LoginError::Auth(AuthError::Status(status))),
            ActionModel::Stop,
        ),
{
}

} // verus!
