//! The two-phase device-authorization handshake.
//!
//! Phase one asks the server for a device code and a URL for the user to
//! visit. Phase two polls the server at a fixed interval until the user has
//! authorized the device or the attempt budget is spent.
//!
//! The wire contract: `POST {base}/api/cli/device/init` answers with the JSON
//! fields `device_code` and `verification_uri`; `GET
//! {base}/api/cli/device/verify?code={device_code}` answers, once authorized,
//! with `access_token`, `expires_in` and optionally `username`.

use vstd::prelude::*;
use vstd::string::*;

verus! {

/// The largest number of verification requests one login sends.
pub const MAX_POLL_ATTEMPTS: u32 = 60;

/// Seconds to wait after a verification request that did not settle the login.
pub const POLL_INTERVAL_SECS: u64 = 2;

/// What the user is told after each attempt that did not settle the login.
pub const WAITING_NOTICE: &'static str = "⌛ Waiting for login...";

/// What the user is told once the server has granted a token.
pub const GRANTED_NOTICE: &'static str = "✅ Login successful!";

/// What the user is told above the verification URL.
pub const LOGIN_PROMPT: &'static str = "🔑 Please open this URL to log in:\n\n";

/// Path of the initiation endpoint below the server base URL.
pub const INIT_PATH: &'static str = "/api/cli/device/init";

/// Path of the verification endpoint below the server base URL.
pub const VERIFY_PATH: &'static str = "/api/cli/device/verify";

/// Name of the query parameter that carries the device code.
pub const VERIFY_QUERY_KEY: &'static str = "code";

/// Why a login ended without a token.
#[derive(Debug, Clone, Copy, PartialEq, Eq, Structural)]
pub enum FlowError {
    /// The server base URL is not configured.
    Config,
    /// The initiation request could not be completed.
    Transport,
    /// A response body did not have the expected shape.
    Schema,
    /// The attempt budget was spent without a token.
    Timeout,
}

impl FlowError {
    /// The text of [`FlowError::message`].
    pub open spec fn message_text(self) -> Seq<char> {
        match self {
            FlowError::Config => "SERVER_URL must be set"@,
            FlowError::Transport => "The login server could not be reached."@,
            FlowError::Schema => "The login server sent an unexpected response."@,
            FlowError::Timeout => "❌ Login timed out. Please try again."@,
        }
    }

    /// One human-readable line for this error.
    pub fn message(&self) -> (text: String)
        ensures
            text@ == self.message_text(),
    {
        match self {
            FlowError::Config => "SERVER_URL must be set".to_string(),
            FlowError::Transport => "The login server could not be reached.".to_string(),
            FlowError::Schema => "The login server sent an unexpected response.".to_string(),
            FlowError::Timeout => "❌ Login timed out. Please try again.".to_string(),
        }
    }
}

/// The server's answer to an initiation request.
#[derive(Debug)]
pub struct DeviceCodeResponse {
    /// Opaque code that identifies this pending login.
    pub device_code: String,
    /// Absolute URL the user must visit to authorize the device.
    pub verification_uri: String,
}

impl DeviceCodeResponse {
    /// Both fields are non-empty.
    pub open spec fn valid(self) -> bool {
        self.device_code@.len() > 0 && self.verification_uri@.len() > 0
    }
}

/// The server's answer to a verification request once the user has authorized.
#[derive(Debug)]
pub struct TokenResponse {
    /// Opaque bearer credential.
    pub access_token: String,
    /// Seconds until the token expires; advisory only.
    pub expires_in: u64,
    /// The account that authorized, if the server names it.
    pub username: Option<String>,
}

/// What the transport reports for the initiation request.
#[derive(Debug)]
pub enum InitReply {
    /// The request could not be sent or did not complete.
    TransportFailed,
    /// A response arrived; this is its body read as a device-code payload,
    /// or `None` if it could not be read as one.
    Answered(Option<DeviceCodeResponse>),
}

/// What the transport reports for one verification request.
#[derive(Debug)]
pub enum AttemptReply {
    /// The request could not be sent or did not complete.
    TransportFailed,
    /// A response arrived with this HTTP status. For a success status,
    /// `token` is its body read as a token payload, or `None` if it could
    /// not be read as one; for any other status it is not looked at.
    Answered { status: u16, token: Option<TokenResponse> },
}

/// What one verification reply means for the login.
pub enum Verdict {
    /// Not authorized yet: wait and ask again.
    Pending,
    /// Authorized, with this access token.
    Granted(Seq<char>),
    /// A success status whose body is not a token payload.
    Malformed,
}

/// HTTP statuses 200 to 299.
pub open spec fn success_status(status: u16) -> bool {
    200 <= status < 300
}

/// Reads one verification reply.
///
/// Every reply without a success status is pending, whatever went wrong: a
/// transport failure and a 404 are the same to the login. A success status
/// settles it: with a token payload whose access token is non-empty the
/// login is granted, with anything else the reply is malformed.
pub open spec fn verdict(reply: AttemptReply) -> Verdict {
    match reply {
        AttemptReply::TransportFailed => Verdict::Pending,
        AttemptReply::Answered { status, token } => {
            if !success_status(status) {
                Verdict::Pending
            } else {
                match token {
                    Some(t) => if t.access_token@.len() > 0 {
                        Verdict::Granted(t.access_token@)
                    } else {
                        Verdict::Malformed
                    },
                    None => Verdict::Malformed,
                }
            }
        },
    }
}

/// Whether an HTTP status is a success status.
pub fn is_success_status(status: u16) -> (ok: bool)
    ensures
        ok == success_status(status),
{
    200 <= status && status < 300
}

/// The URL of the initiation endpoint for a server base URL.
pub fn init_url(server_url: &str) -> (url: String)
    ensures
        url@ == server_url@ + INIT_PATH@,
{
    let mut url = server_url.to_string();
    url.append(INIT_PATH);
    url
}

/// The URL of the verification endpoint for a server base URL.
pub fn verify_url(server_url: &str) -> (url: String)
    ensures
        url@ == server_url@ + VERIFY_PATH@,
{
    let mut url = server_url.to_string();
    url.append(VERIFY_PATH);
    url
}

/// What [`start_login_flow`] makes of the transport's report.
pub open spec fn initiated(reply: InitReply) -> Result<DeviceCodeResponse, FlowError> {
    match reply {
        InitReply::TransportFailed => Err(FlowError::Transport),
        InitReply::Answered(None) => Err(FlowError::Schema),
        InitReply::Answered(Some(payload)) => if payload.valid() {
            Ok(payload)
        } else {
            Err(FlowError::Schema)
        },
    }
}

/// The lines that ask the user to visit the verification URL.
pub fn login_prompt(verification_uri: &str) -> (prompt: String)
    ensures
        prompt@ == LOGIN_PROMPT@ + verification_uri@,
{
    let mut prompt = LOGIN_PROMPT.to_string();
    prompt.append(verification_uri);
    prompt
}

/// Settles the first phase of the login from the transport's report.
///
/// A payload with both fields non-empty is handed back unchanged, so the
/// caller holds exactly the device code that the server issued. A transport
/// failure is `Transport`; a body that is no payload, or a payload with an
/// empty field, is `Schema`.
pub fn start_login_flow(reply: InitReply) -> (result: Result<DeviceCodeResponse, FlowError>)
    ensures
        result == initiated(reply),
        reply matches InitReply::Answered(Some(payload)) ==> (payload.valid() ==> (result matches Ok(
            issued,
        ) && issued.device_code@ == payload.device_code@)),
{
    match reply {
        InitReply::TransportFailed => Err(FlowError::Transport),
        InitReply::Answered(None) => Err(FlowError::Schema),
        InitReply::Answered(Some(payload)) => {
            if payload.device_code.as_str().is_empty() || payload.verification_uri.as_str().is_empty() {
                Err(FlowError::Schema)
            } else {
                Ok(payload)
            }
        },
    }
}

/// Where a poll stands.
#[derive(Debug)]
pub enum PollPhase {
    /// A verification request is due, or its reply is awaited.
    Requesting,
    /// The last attempt did not settle the login; the fixed delay is due.
    Waiting,
    /// Settled: the server granted this access token.
    Granted(String),
    /// Settled without a token.
    Failed(FlowError),
}

/// The mathematical content of a [`PollPhase`].
pub enum PhaseView {
    Requesting,
    Waiting,
    Granted(Seq<char>),
    Failed(FlowError),
}

impl View for PollPhase {
    type V = PhaseView;

    open spec fn view(&self) -> PhaseView {
        match *self {
            PollPhase::Requesting => PhaseView::Requesting,
            PollPhase::Waiting => PhaseView::Waiting,
            PollPhase::Granted(token) => PhaseView::Granted(token@),
            PollPhase::Failed(error) => PhaseView::Failed(error),
        }
    }
}

/// The mathematical content of a [`PollSession`].
pub struct PollView {
    /// The device code that every verification request carries.
    pub device_code: Seq<char>,
    /// Verification requests whose reply has been taken in.
    pub attempts: nat,
    /// Delays that have elapsed.
    pub waits: nat,
    pub phase: PhaseView,
}

impl PollView {
    /// A poll that has sent nothing yet.
    pub open spec fn start(device_code: Seq<char>) -> PollView {
        PollView { device_code, attempts: 0, waits: 0, phase: PhaseView::Requesting }
    }

    /// What holds of every poll that began at [`PollView::start`].
    ///
    /// The budget is never exceeded; a delay follows every attempt that did
    /// not settle the login, the last one included; a token is non-empty;
    /// and the only failures are a malformed reply and the timeout, which
    /// comes after the full budget and not before.
    pub open spec fn consistent(self) -> bool {
        &&& self.device_code.len() > 0
        &&& self.attempts <= MAX_POLL_ATTEMPTS
        &&& match self.phase {
            PhaseView::Requesting => self.attempts < MAX_POLL_ATTEMPTS && self.waits
                == self.attempts,
            PhaseView::Waiting => self.attempts >= 1 && self.waits + 1 == self.attempts,
            PhaseView::Granted(token) => self.attempts >= 1 && self.waits + 1 == self.attempts
                && token.len() > 0,
            PhaseView::Failed(error) => match error {
                FlowError::Schema => self.attempts >= 1 && self.waits + 1 == self.attempts,
                FlowError::Timeout => self.attempts == MAX_POLL_ATTEMPTS && self.waits
                    == MAX_POLL_ATTEMPTS,
                _ => false,
            },
        }
    }

    /// Whether the poll is over.
    pub open spec fn settled(self) -> bool {
        self.phase is Granted || self.phase is Failed
    }

    /// The poll after the reply to its pending request.
    ///
    /// Only a poll that is requesting takes a reply in; any other is left
    /// as it is.
    pub open spec fn after_reply(self, reply: AttemptReply) -> PollView {
        if self.phase is Requesting {
            PollView {
                attempts: self.attempts + 1,
                phase: match verdict(reply) {
                    Verdict::Pending => PhaseView::Waiting,
                    Verdict::Granted(token) => PhaseView::Granted(token),
                    Verdict::Malformed => PhaseView::Failed(FlowError::Schema),
                },
                ..self
            }
        } else {
            self
        }
    }

    /// The poll after its pending delay has elapsed.
    ///
    /// Only a poll that is waiting counts the delay; any other is left as
    /// it is. After the delay the next request is due, unless the budget is
    /// spent: then the poll has timed out.
    pub open spec fn after_wait(self) -> PollView {
        if self.phase is Waiting {
            PollView {
                waits: self.waits + 1,
                phase: if self.attempts >= MAX_POLL_ATTEMPTS {
                    PhaseView::Failed(FlowError::Timeout)
                } else {
                    PhaseView::Requesting
                },
                ..self
            }
        } else {
            self
        }
    }

    /// The poll after one event.
    pub open spec fn step(self, event: PollEvent) -> PollView {
        match event {
            PollEvent::Replied(reply) => self.after_reply(reply),
            PollEvent::Waited => self.after_wait(),
        }
    }

    /// What the driver of the poll has to do next.
    pub open spec fn action(self) -> PollAction {
        match self.phase {
            PhaseView::Requesting => PollAction::Request,
            PhaseView::Waiting => PollAction::Wait,
            _ => PollAction::Stop,
        }
    }

    /// The poll after a run of attempts: each reply is taken in and the
    /// delay that it calls for is waited out before the next.
    pub open spec fn run(self, replies: Seq<AttemptReply>) -> PollView
        decreases replies.len(),
    {
        if replies.len() == 0 {
            self
        } else {
            self.after_reply(replies[0]).after_wait().run(replies.drop_first())
        }
    }

    /// Seconds of delay that have elapsed.
    pub open spec fn delay_secs(self) -> nat {
        self.waits * POLL_INTERVAL_SECS as nat
    }
}

/// What the outside world reports to a poll.
#[derive(Debug)]
pub enum PollEvent {
    /// The pending verification request has this outcome.
    Replied(AttemptReply),
    /// The pending delay has elapsed.
    Waited,
}

/// What the driver of a poll has to do next.
#[derive(Debug, Clone, Copy, PartialEq, Eq, Structural)]
pub enum PollAction {
    /// Send a verification request and report its outcome.
    Request,
    /// Tell the user that the login is pending, wait
    /// [`POLL_INTERVAL_SECS`], and report that the delay has elapsed.
    Wait,
    /// Nothing: the poll is settled.
    Stop,
}

/// One poll for a token, from its first request to its end.
///
/// The session decides and counts; its driver sends the requests and sleeps.
#[derive(Debug)]
pub struct PollSession {
    device_code: String,
    attempts: u32,
    waits: u32,
    phase: PollPhase,
}

impl View for PollSession {
    type V = PollView;

    closed spec fn view(&self) -> PollView {
        PollView {
            device_code: self.device_code@,
            attempts: self.attempts as nat,
            waits: self.waits as nat,
            phase: self.phase@,
        }
    }
}

impl PollSession {
    #[verifier::type_invariant]
    spec fn well_formed(self) -> bool {
        self@.consistent()
    }

    /// A poll for this device code that has sent nothing yet.
    pub fn new(device_code: String) -> (session: Self)
        requires
            device_code@.len() > 0,
        ensures
            session@ == PollView::start(device_code@),
            session@.consistent(),
    {
        PollSession { device_code, attempts: 0, waits: 0, phase: PollPhase::Requesting }
    }

    /// The device code that every verification request carries.
    pub fn device_code(&self) -> (code: &str)
        ensures
            code@ == self@.device_code,
            code@.len() > 0,
    {
        proof {
            use_type_invariant(self);
        }
        self.device_code.as_str()
    }

    /// Verification requests whose reply has been taken in.
    pub fn attempts(&self) -> (n: u32)
        ensures
            n == self@.attempts,
            n <= MAX_POLL_ATTEMPTS,
    {
        proof {
            use_type_invariant(self);
        }
        self.attempts
    }

    /// Delays that have elapsed.
    pub fn waits(&self) -> (n: u32)
        ensures
            n == self@.waits,
            n <= MAX_POLL_ATTEMPTS,
    {
        proof {
            use_type_invariant(self);
        }
        self.waits
    }

    /// Seconds of delay that have elapsed.
    pub fn delay_secs(&self) -> (secs: u64)
        ensures
            secs == self@.delay_secs(),
            secs == 2 * self@.waits,
    {
        proof {
            use_type_invariant(self);
        }
        let waits: u64 = self.waits as u64;
        waits * POLL_INTERVAL_SECS
    }

    /// Where the poll stands.
    pub fn phase(&self) -> (phase: &PollPhase)
        ensures
            phase@ == self@.phase,
    {
        &self.phase
    }

    /// What the driver has to do next.
    pub fn action(&self) -> (action: PollAction)
        ensures
            action == self@.action(),
    {
        match self.phase {
            PollPhase::Requesting => PollAction::Request,
            PollPhase::Waiting => PollAction::Wait,
            _ => PollAction::Stop,
        }
    }

    /// Takes the session apart at its end: the token or the error once it
    /// is settled, the session itself while it is running.
    pub fn outcome(self) -> (outcome: PollOutcome)
        ensures
            match self@.phase {
                PhaseView::Granted(token) => outcome matches PollOutcome::Granted(t) && t@ == token
                    && token.len() > 0,
                PhaseView::Failed(error) => outcome matches PollOutcome::Failed(e) && e == error,
                _ => outcome matches PollOutcome::Running(session) && session@ == self@,
            },
    {
        proof {
            use_type_invariant(&self);
        }
        let PollSession { device_code, attempts, waits, phase } = self;
        match phase {
            PollPhase::Granted(token) => PollOutcome::Granted(token),
            PollPhase::Failed(error) => PollOutcome::Failed(error),
            phase => PollOutcome::Running(PollSession { device_code, attempts, waits, phase }),
        }
    }
}

/// A poll session taken apart.
#[derive(Debug)]
pub enum PollOutcome {
    /// Not settled: here is the session, to go on with.
    Running(PollSession),
    /// Settled with this access token.
    Granted(String),
    /// Settled without a token.
    Failed(FlowError),
}

/// Advances a poll by one event and says what its driver has to do next.
///
/// A reply is taken in only while a request is pending, and a delay only
/// while one is due. The first reply with a success status ends the poll:
/// with its token, or with `Schema` if its body is no token payload. Every
/// other reply is followed by the delay, and then by the next request or,
/// after the last attempt of the budget, by `Timeout`.
pub fn poll_for_token(session: PollSession, event: PollEvent) -> (next: (PollSession, PollAction))
    ensures
        next.0@ == session@.step(event),
        next.0@.consistent(),
        next.1 == next.0@.action(),
{
    proof {
        use_type_invariant(&session);
    }
    let PollSession { device_code, attempts, waits, phase } = session;
    let next = match (phase, event) {
        (PollPhase::Requesting, PollEvent::Replied(reply)) => {
            let phase = match reply {
                AttemptReply::TransportFailed => PollPhase::Waiting,
                AttemptReply::Answered { status, token } => {
                    if !is_success_status(status) {
                        PollPhase::Waiting
                    } else {
                        match token {
                            Some(t) => if t.access_token.as_str().is_empty() {
                                PollPhase::Failed(FlowError::Schema)
                            } else {
                                PollPhase::Granted(t.access_token)
                            },
                            None => PollPhase::Failed(FlowError::Schema),
                        }
                    }
                },
            };
            PollSession { device_code, attempts: attempts + 1, waits, phase }
        },
        (PollPhase::Waiting, PollEvent::Waited) => {
            let phase = if attempts >= MAX_POLL_ATTEMPTS {
                PollPhase::Failed(FlowError::Timeout)
            } else {
                PollPhase::Requesting
            };
            PollSession { device_code, attempts, waits: waits + 1, phase }
        },
        (phase, _) => PollSession { device_code, attempts, waits, phase },
    };
    proof {
        use_type_invariant(&next);
    }
    let action = next.action();
    (next, action)
}

impl PollView {
    /// The poll after `n` more attempts that settled nothing, counted from
    /// a poll whose next request is due.
    pub open spec fn after_pending(self, n: nat) -> PollView {
        if self.attempts + n < MAX_POLL_ATTEMPTS {
            PollView { attempts: self.attempts + n, waits: self.waits + n, ..self }
        } else {
            PollView {
                attempts: self.attempts + n,
                waits: self.waits + n,
                phase: PhaseView::Failed(FlowError::Timeout),
                ..self
            }
        }
    }
}

/// Every event keeps a poll consistent: the budget holds, a token is never
/// empty, and a timeout comes only after the last attempt and its delay.
pub proof fn lemma_step_keeps_consistent(poll: PollView, event: PollEvent)
    requires
        poll.consistent(),
    ensures
        poll.step(event).consistent(),
{
}

/// A settled poll stays as it is, whatever is reported to it afterwards.
pub proof fn lemma_settled_is_final(poll: PollView, replies: Seq<AttemptReply>)
    requires
        poll.settled(),
    ensures
        poll.run(replies) == poll,
    decreases replies.len(),
{
    if replies.len() > 0 {
        lemma_settled_is_final(poll, replies.drop_first());
    }
}

/// Replies that settle nothing only move the counters: after `n` of them
/// the poll goes on with the rest from [`PollView::after_pending`].
pub proof fn lemma_pending_replies_count(poll: PollView, replies: Seq<AttemptReply>, n: nat)
    requires
        poll.phase is Requesting,
        poll.attempts < MAX_POLL_ATTEMPTS,
        poll.attempts + n <= MAX_POLL_ATTEMPTS,
        n <= replies.len(),
        forall|i: int| 0 <= i < n ==> verdict(#[trigger] replies[i]) is Pending,
    ensures
        poll.run(replies) == poll.after_pending(n).run(replies.skip(n as int)),
    decreases n,
{
    if n == 0 {
        assert(replies.skip(0) =~= replies);
        assert(poll.after_pending(0) == poll);
    } else {
        let rest = replies.drop_first();
        let next = poll.after_reply(replies[0]).after_wait();
        assert(verdict(replies[0]) is Pending);
        assert(rest.skip(n - 1) =~= replies.skip(n as int));
        if poll.attempts + 1 >= MAX_POLL_ATTEMPTS {
            assert(n == 1);
            assert(next == poll.after_pending(1));
        } else {
            assert forall|i: int| 0 <= i < n - 1 implies verdict(#[trigger] rest[i]) is Pending by {
                assert(rest[i] == replies[i + 1]);
            }
            lemma_pending_replies_count(next, rest, (n - 1) as nat);
            assert(next.after_pending((n - 1) as nat) == poll.after_pending(n));
        }
    }
}

/// The first reply that settles the login decides it, and it is the last
/// request of the poll.
///
/// Let the first `n - 1` replies settle nothing and the `n`-th, within the
/// budget, grant `token`. Then the poll ends with `token` after exactly `n`
/// attempts and `n - 1` delays, whatever replies come after the `n`-th.
pub proof fn lemma_first_grant_wins(
    device_code: Seq<char>,
    replies: Seq<AttemptReply>,
    n: nat,
    token: Seq<char>,
)
    requires
        1 <= n <= MAX_POLL_ATTEMPTS,
        n <= replies.len(),
        forall|i: int| 0 <= i < n - 1 ==> verdict(#[trigger] replies[i]) is Pending,
        verdict(replies[n - 1]) == Verdict::Granted(token),
    ensures
        PollView::start(device_code).run(replies) == (PollView {
            device_code,
            attempts: n,
            waits: (n - 1) as nat,
            phase: PhaseView::Granted(token),
        }),
{
    let start = PollView::start(device_code);
    let before = (n - 1) as nat;
    lemma_pending_replies_count(start, replies, before);
    let poll = start.after_pending(before);
    let rest = replies.skip(before as int);
    assert(rest[0] == replies[n - 1]);
    let end = poll.after_reply(rest[0]).after_wait();
    assert(poll.run(rest) == end.run(rest.drop_first()));
    lemma_settled_is_final(end, rest.drop_first());
}

/// A success status whose body is no token payload ends the poll at once,
/// with `Schema`, if nothing settled the login before it.
pub proof fn lemma_first_malformed_fails(
    device_code: Seq<char>,
    replies: Seq<AttemptReply>,
    n: nat,
)
    requires
        1 <= n <= MAX_POLL_ATTEMPTS,
        n <= replies.len(),
        forall|i: int| 0 <= i < n - 1 ==> verdict(#[trigger] replies[i]) is Pending,
        verdict(replies[n - 1]) is Malformed,
    ensures
        PollView::start(device_code).run(replies) == (PollView {
            device_code,
            attempts: n,
            waits: (n - 1) as nat,
            phase: PhaseView::Failed(FlowError::Schema),
        }),
{
    let start = PollView::start(device_code);
    let before = (n - 1) as nat;
    lemma_pending_replies_count(start, replies, before);
    let poll = start.after_pending(before);
    let rest = replies.skip(before as int);
    assert(rest[0] == replies[n - 1]);
    let end = poll.after_reply(rest[0]).after_wait();
    assert(poll.run(rest) == end.run(rest.drop_first()));
    lemma_settled_is_final(end, rest.drop_first());
}

/// The budget is always spent before the poll gives up.
///
/// If none of the first sixty replies settles the login, whether by a
/// status that is no success or by a transport failure, the poll ends with
/// `Timeout` after exactly sixty attempts, each followed by the fixed
/// delay: one hundred and twenty seconds in all.
pub proof fn lemma_timeout_after_budget(device_code: Seq<char>, replies: Seq<AttemptReply>)
    requires
        replies.len() >= MAX_POLL_ATTEMPTS,
        forall|i: int| 0 <= i < MAX_POLL_ATTEMPTS ==> verdict(#[trigger] replies[i]) is Pending,
    ensures
        PollView::start(device_code).run(replies) == (PollView {
            device_code,
            attempts: 60,
            waits: 60,
            phase: PhaseView::Failed(FlowError::Timeout),
        }),
        PollView::start(device_code).run(replies).delay_secs() == 120,
{
    let start = PollView::start(device_code);
    lemma_pending_replies_count(start, replies, 60);
    lemma_settled_is_final(start.after_pending(60), replies.skip(60));
}

/// Fewer than sixty replies that settle nothing leave the poll running: it
/// has counted each of them and its next request is due.
pub proof fn lemma_no_early_timeout(device_code: Seq<char>, replies: Seq<AttemptReply>)
    requires
        replies.len() < MAX_POLL_ATTEMPTS,
        forall|i: int| 0 <= i < replies.len() ==> verdict(#[trigger] replies[i]) is Pending,
    ensures
        PollView::start(device_code).run(replies) == (PollView {
            device_code,
            attempts: replies.len(),
            waits: replies.len(),
            phase: PhaseView::Requesting,
        }),
{
    let start = PollView::start(device_code);
    lemma_pending_replies_count(start, replies, replies.len());
    assert(replies.skip(replies.len() as int).len() == 0);
}

} // verus!
