//! The login command: request a device code, poll for the token, store it.
//!
//! A login is a state machine. Its driver performs the action that each
//! state asks for and reports what came of it; the machine decides what
//! follows. Any failure ends the login at once, and the token goes to the
//! store only when the poll has granted it.

use crate::auth::flow::{
    init_url, initiated, poll_for_token, start_login_flow, verdict, verify_url,
    DeviceCodeResponse, FlowError, InitReply, PhaseView, PollAction, PollEvent, PollOutcome,
    PollSession, PollView, Verdict, INIT_PATH, VERIFY_PATH,
};
use crate::auth::token::StoreError;
use vstd::prelude::*;
use vstd::string::*;

verus! {

/// What the user is told once the token is stored.
pub const SAVED_NOTICE: &'static str = "🔐 Access token saved successfully.";

/// Why a login failed, by the step that failed.
#[derive(Debug, Clone, Copy, PartialEq, Eq, Structural)]
pub enum LoginError {
    /// No device code was obtained.
    Initiate(FlowError),
    /// The poll ended without a token.
    Token(FlowError),
    /// The token was obtained and could not be stored.
    Store(StoreError),
}

impl LoginError {
    /// The text of [`LoginError::message`].
    pub open spec fn message_text(self) -> Seq<char> {
        match self {
            LoginError::Initiate(error) => "Login flow failed: "@ + error.message_text(),
            LoginError::Token(error) => "Failed to get access token: "@ + error.message_text(),
            LoginError::Store(error) => "Failed to save access token: "@ + error.message_text(),
        }
    }

    /// One human-readable line for this error.
    pub fn message(&self) -> (text: String)
        ensures
            text@ == self.message_text(),
    {
        match self {
            LoginError::Initiate(error) => {
                let mut text = "Login flow failed: ".to_string();
                text.append(error.message().as_str());
                text
            },
            LoginError::Token(error) => {
                let mut text = "Failed to get access token: ".to_string();
                text.append(error.message().as_str());
                text
            },
            LoginError::Store(error) => {
                let mut text = "Failed to save access token: ".to_string();
                text.append(error.message().as_str());
                text
            },
        }
    }
}

/// What the outside world reports to a login.
#[derive(Debug)]
pub enum LoginEvent {
    /// The login is asked for; this is the configured server base URL, if
    /// there is one.
    Started { server_url: Option<String> },
    /// The outcome of the initiation request.
    InitReplied(InitReply),
    /// The verification URL has been shown and the browser launcher
    /// invoked. Whether the launcher worked is not reported: it has no
    /// bearing on the login.
    Announced,
    /// The outcome of a verification request, or the end of a delay.
    Polled(PollEvent),
    /// The outcome of storing the token.
    Stored(Result<(), StoreError>),
}

/// What the driver of a login has to do next.
#[derive(Debug)]
pub enum LoginAction {
    /// Report `Started`.
    Start,
    /// Send the initiation request, a `POST` without a body, to `url` and
    /// report `InitReplied`.
    RequestCode { url: String },
    /// Show the verification URL, invoke the browser launcher on it without
    /// waiting for it, and report `Announced`.
    Announce { verification_uri: String },
    /// Send the verification request, a `GET` to `url` with the device code
    /// as query parameter, and report `Polled` with its outcome.
    RequestToken { url: String, device_code: String },
    /// Tell the user that the login is pending, wait the fixed delay, and
    /// report `Polled` with `Waited`.
    Wait,
    /// Tell the user that the login succeeded, store the token, and report
    /// `Stored`.
    Store { token: String },
    /// Tell the user that the token is saved; the login is over.
    Done,
    /// Tell the user what failed; the login is over.
    Abort(LoginError),
}

/// The mathematical content of a [`LoginAction`].
pub enum ActionView {
    Start,
    RequestCode { url: Seq<char> },
    Announce { verification_uri: Seq<char> },
    RequestToken { url: Seq<char>, device_code: Seq<char> },
    Wait,
    Store { token: Seq<char> },
    Done,
    Abort(LoginError),
}

impl View for LoginAction {
    type V = ActionView;

    open spec fn view(&self) -> ActionView {
        match *self {
            LoginAction::Start => ActionView::Start,
            LoginAction::RequestCode { url } => ActionView::RequestCode { url: url@ },
            LoginAction::Announce { verification_uri } => ActionView::Announce {
                verification_uri: verification_uri@,
            },
            LoginAction::RequestToken { url, device_code } => ActionView::RequestToken {
                url: url@,
                device_code: device_code@,
            },
            LoginAction::Wait => ActionView::Wait,
            LoginAction::Store { token } => ActionView::Store { token: token@ },
            LoginAction::Done => ActionView::Done,
            LoginAction::Abort(error) => ActionView::Abort(error),
        }
    }
}

/// The states of a login.
pub enum LoginView {
    /// Nothing has happened yet.
    NotStarted,
    /// The initiation request is due, or its reply is awaited.
    AwaitingCode { server_url: Seq<char> },
    /// The server has issued a device code; the user is to be told where
    /// to authorize it.
    Announcing { server_url: Seq<char>, device_code: Seq<char>, verification_uri: Seq<char> },
    /// The poll for the token is running.
    Polling { server_url: Seq<char>, poll: PollView },
    /// The poll has granted this token; it is to be stored.
    Storing { token: Seq<char> },
    /// The token is stored.
    Succeeded,
    /// The login has failed. `Initiate(Transport)` is the transport failure
    /// of the first phase, `Token(Timeout)` the spent attempt budget.
    Failed(LoginError),
}

impl LoginView {
    /// What holds of every login that began at `NotStarted`: a device code,
    /// a verification URL and a token are never empty, and a poll that is
    /// held is running under its own rules.
    pub open spec fn consistent(self) -> bool {
        match self {
            LoginView::Announcing { device_code, verification_uri, .. } => device_code.len() > 0
                && verification_uri.len() > 0,
            LoginView::Polling { poll, .. } => poll.consistent() && !poll.settled(),
            LoginView::Storing { token } => token.len() > 0,
            _ => true,
        }
    }

    /// Whether the login is over.
    pub open spec fn ended(self) -> bool {
        self is Succeeded || self is Failed
    }

    /// The login after one event.
    ///
    /// Each state takes in the one event that it waits for, and any other
    /// event leaves it as it is. Without a server URL the login fails
    /// before anything is sent. A failed initiation ends it, and the poll
    /// is never entered. The poll runs by its own rules until it settles:
    /// a token goes on to the store, an error ends the login. The store is
    /// reached in no other way.
    pub open spec fn step(self, event: LoginEvent) -> LoginView {
        match (self, event) {
            (LoginView::NotStarted, LoginEvent::Started { server_url }) => match server_url {
                Some(url) => LoginView::AwaitingCode { server_url: url@ },
                None => LoginView::Failed(LoginError::Initiate(FlowError::Config)),
            },
            (LoginView::AwaitingCode { server_url }, LoginEvent::InitReplied(reply)) => match initiated(
                reply,
            ) {
                Ok(response) => LoginView::Announcing {
                    server_url,
                    device_code: response.device_code@,
                    verification_uri: response.verification_uri@,
                },
                Err(error) => LoginView::Failed(LoginError::Initiate(error)),
            },
            (LoginView::Announcing { server_url, device_code, .. }, LoginEvent::Announced) => LoginView::Polling {
                server_url,
                poll: PollView::start(device_code),
            },
            (LoginView::Polling { server_url, poll }, LoginEvent::Polled(event)) => {
                let next = poll.step(event);
                match next.phase {
                    PhaseView::Granted(token) => LoginView::Storing { token },
                    PhaseView::Failed(error) => LoginView::Failed(LoginError::Token(error)),
                    _ => LoginView::Polling { server_url, poll: next },
                }
            },
            (LoginView::Storing { .. }, LoginEvent::Stored(result)) => match result {
                Ok(_) => LoginView::Succeeded,
                Err(error) => LoginView::Failed(LoginError::Store(error)),
            },
            (state, _) => state,
        }
    }

    /// What the driver of the login has to do next.
    pub open spec fn action(self) -> ActionView {
        match self {
            LoginView::NotStarted => ActionView::Start,
            LoginView::AwaitingCode { server_url } => ActionView::RequestCode {
                url: server_url + INIT_PATH@,
            },
            LoginView::Announcing { verification_uri, .. } => ActionView::Announce {
                verification_uri,
            },
            LoginView::Polling { server_url, poll } => if poll.phase is Waiting {
                ActionView::Wait
            } else {
                ActionView::RequestToken {
                    url: server_url + VERIFY_PATH@,
                    device_code: poll.device_code,
                }
            },
            LoginView::Storing { token } => ActionView::Store { token },
            LoginView::Succeeded => ActionView::Done,
            LoginView::Failed(error) => ActionView::Abort(error),
        }
    }
}

#[derive(Debug)]
enum LoginState {
    NotStarted,
    AwaitingCode { server_url: String },
    Announcing { server_url: String, response: DeviceCodeResponse },
    Polling { server_url: String, poll: PollSession },
    Storing { token: String },
    Succeeded,
    Failed(LoginError),
}

/// One login, from the request for a device code to the stored token.
#[derive(Debug)]
pub struct LoginSession {
    state: LoginState,
}

impl View for LoginSession {
    type V = LoginView;

    closed spec fn view(&self) -> LoginView {
        match self.state {
            LoginState::NotStarted => LoginView::NotStarted,
            LoginState::AwaitingCode { server_url } => LoginView::AwaitingCode {
                server_url: server_url@,
            },
            LoginState::Announcing { server_url, response } => LoginView::Announcing {
                server_url: server_url@,
                device_code: response.device_code@,
                verification_uri: response.verification_uri@,
            },
            LoginState::Polling { server_url, poll } => LoginView::Polling {
                server_url: server_url@,
                poll: poll@,
            },
            LoginState::Storing { token } => LoginView::Storing { token: token@ },
            LoginState::Succeeded => LoginView::Succeeded,
            LoginState::Failed(error) => LoginView::Failed(error),
        }
    }
}

impl LoginSession {
    #[verifier::type_invariant]
    spec fn well_formed(self) -> bool {
        self@.consistent()
    }

    /// A login that has not started.
    pub fn new() -> (session: Self)
        ensures
            session@ == LoginView::NotStarted,
    {
        LoginSession { state: LoginState::NotStarted }
    }

    /// Whether the login is over.
    pub fn ended(&self) -> (ended: bool)
        ensures
            ended == self@.ended(),
    {
        match self.state {
            LoginState::Succeeded => true,
            LoginState::Failed(_) => true,
            _ => false,
        }
    }

    /// How the login ended: `None` while it is running.
    pub fn outcome(&self) -> (outcome: Option<Result<(), LoginError>>)
        ensures
            match self@ {
                LoginView::Succeeded => outcome == Some(Ok::<(), LoginError>(())),
                LoginView::Failed(error) => outcome == Some(Err::<(), LoginError>(error)),
                _ => outcome is None,
            },
    {
        match self.state {
            LoginState::Succeeded => Some(Ok(())),
            LoginState::Failed(error) => Some(Err(error)),
            _ => None,
        }
    }

    /// What the driver has to do next.
    pub fn action(&self) -> (action: LoginAction)
        ensures
            action@ == self@.action(),
    {
        proof {
            use_type_invariant(self);
        }
        match &self.state {
            LoginState::NotStarted => LoginAction::Start,
            LoginState::AwaitingCode { server_url } => LoginAction::RequestCode {
                url: init_url(server_url.as_str()),
            },
            LoginState::Announcing { response, .. } => LoginAction::Announce {
                verification_uri: response.verification_uri.clone(),
            },
            LoginState::Polling { server_url, poll } => match poll.action() {
                PollAction::Wait => LoginAction::Wait,
                _ => LoginAction::RequestToken {
                    url: verify_url(server_url.as_str()),
                    device_code: poll.device_code().to_string(),
                },
            },
            LoginState::Storing { token } => LoginAction::Store { token: token.clone() },
            LoginState::Succeeded => LoginAction::Done,
            LoginState::Failed(error) => LoginAction::Abort(*error),
        }
    }
}

/// Advances a login by one event and says what its driver has to do next.
pub fn run_login(session: LoginSession, event: LoginEvent) -> (next: (LoginSession, LoginAction))
    ensures
        next.0@ == session@.step(event),
        next.0@.consistent(),
        next.1@ == next.0@.action(),
{
    proof {
        use_type_invariant(&session);
    }
    let state = match (session.state, event) {
        (LoginState::NotStarted, LoginEvent::Started { server_url }) => match server_url {
            Some(server_url) => LoginState::AwaitingCode { server_url },
            None => LoginState::Failed(LoginError::Initiate(FlowError::Config)),
        },
        (LoginState::AwaitingCode { server_url }, LoginEvent::InitReplied(reply)) => match start_login_flow(
            reply,
        ) {
            Ok(response) => LoginState::Announcing { server_url, response },
            Err(error) => LoginState::Failed(LoginError::Initiate(error)),
        },
        (LoginState::Announcing { server_url, response }, LoginEvent::Announced) => LoginState::Polling {
            server_url,
            poll: PollSession::new(response.device_code),
        },
        (LoginState::Polling { server_url, poll }, LoginEvent::Polled(event)) => {
            let (poll, _) = poll_for_token(poll, event);
            match poll.outcome() {
                PollOutcome::Granted(token) => LoginState::Storing { token },
                PollOutcome::Failed(error) => LoginState::Failed(LoginError::Token(error)),
                PollOutcome::Running(poll) => LoginState::Polling { server_url, poll },
            }
        },
        (LoginState::Storing { token }, LoginEvent::Stored(result)) => match result {
            Ok(_) => LoginState::Succeeded,
            Err(error) => LoginState::Failed(LoginError::Store(error)),
        },
        (state, _) => state,
    };
    let next = LoginSession { state };
    proof {
        use_type_invariant(&next);
    }
    let action = next.action();
    (next, action)
}

/// No partial credential is ever stored: a login comes to store a token
/// only from a running poll, by the reply that grants this very token.
pub proof fn lemma_store_follows_grant(login: LoginView, event: LoginEvent, token: Seq<char>)
    requires
        login.consistent(),
        !(login is Storing),
        login.step(event) == (LoginView::Storing { token }),
    ensures
        login matches LoginView::Polling { poll, .. } && poll.phase is Requesting,
        event matches LoginEvent::Polled(PollEvent::Replied(reply)) && verdict(reply)
            == Verdict::Granted(token),
{
}

/// The poll is entered only once the server has issued a device code, and
/// it polls for that code.
pub proof fn lemma_poll_follows_initiation(login: LoginView, event: LoginEvent)
    requires
        !(login is Polling),
        login.step(event) is Polling,
    ensures
        event is Announced,
        login matches LoginView::Announcing { server_url, device_code, .. } && login.step(event)
            == (LoginView::Polling { server_url, poll: PollView::start(device_code) }),
{
}

/// Every event keeps a login consistent.
pub proof fn lemma_step_keeps_consistent(login: LoginView, event: LoginEvent)
    requires
        login.consistent(),
    ensures
        login.step(event).consistent(),
{
}

/// A login that is over stays as it is, whatever is reported to it.
pub proof fn lemma_ended_is_final(login: LoginView, event: LoginEvent)
    requires
        login.ended(),
    ensures
        login.step(event) == login,
{
}

} // verus!
