//! The exchange in which a client submits its credentials for a session.
//!
//! The exchange alternates between questions to the outside (the session of
//! the request, the stored password, the one-time-password settings) and
//! decisions on the answers. The decisions are here: `post` takes the state
//! of the exchange and the answer that came in, and says what to do next.

use vstd::prelude::*;

verus! {

/// What the client submits.
#[derive(Debug)]
pub enum SubmitAuth {
    /// No credential at all.
    Nothing,
    /// A password.
    Password(String),
}

/// How a session authenticates.
#[derive(Clone, Copy, Debug, PartialEq, Eq, Structural)]
pub enum AuthMethod {
    /// The session asks for no credential.
    Nothing,
    /// The session asks for the user's password.
    Password,
}

/// How a session is verified once it is authenticated.
#[derive(Clone, Copy, Debug, PartialEq, Eq, Structural)]
pub enum VerifyMethod {
    /// The session needs no second factor.
    Nothing,
    /// The session needs a one-time password.
    Totp,
}

/// What the lookup of the request's session found.
#[derive(Clone, Copy, Debug, PartialEq, Eq, Structural)]
pub enum Session {
    /// A session that is authenticated and verified.
    Authenticated,
    /// A session that is authenticated and still to be verified.
    Unverified,
    /// A session that is still to be authenticated, with its methods.
    Unauthenticated { auth_method: AuthMethod, verify_method: VerifyMethod },
    /// No usable session.
    Failed,
}

/// An answer from the outside.
#[derive(Clone, Copy, Debug, PartialEq, Eq, Structural)]
pub enum Event {
    /// The session of the request was looked up.
    Session(Session),
    /// The stored password of the user was fetched: whether there is one.
    Password(bool),
    /// The secret that the stored password was made with was fetched:
    /// whether there is one.
    Secret(bool),
    /// The submitted password was checked: whether it is the right one.
    Checked(bool),
    /// The one-time-password settings of the user were fetched: the number
    /// of digits, where there are settings.
    Totp(Option<u32>),
    /// The session was persisted.
    Updated,
}

/// Why an exchange ends without an authenticated session.
#[derive(Clone, Copy, Debug, PartialEq, Eq, Structural)]
pub enum Refusal {
    /// The session is authenticated and must be verified first.
    MustVerify,
    /// The lookup of the session failed.
    NoSession,
    /// The credential is not of the kind that the session asks for.
    InvalidAuthMethod,
    /// The session asks for a password and the user has none stored.
    PasswordMissing,
    /// The secret of the stored password is gone.
    SecretMissing,
    /// The password is wrong.
    InvalidPassword,
    /// The session asks for one-time passwords and the user has no settings.
    TotpMissing,
    /// An answer came in that was not asked for.
    OutOfTurn,
}

impl Refusal {
    /// The name of the refusal, where it has one of its own: the refusals of
    /// a credential have, the others go by the name that the service gives
    /// to every failure inside.
    pub fn kind(&self) -> (kind: Option<&'static str>)
        ensures
            match self {
                Refusal::InvalidAuthMethod => kind matches Some(k) && k@ == "InvalidAuthMethod"@,
                Refusal::InvalidPassword => kind matches Some(k) && k@ == "InvalidPassword"@,
                _ => kind is None,
            },
    {
        match self {
            Refusal::InvalidAuthMethod => Some("InvalidAuthMethod"),
            Refusal::InvalidPassword => Some("InvalidPassword"),
            _ => None,
        }
    }

    /// The sentence that goes with the refusal.
    pub open spec fn sentence(self) -> Seq<char> {
        match self {
            Refusal::MustVerify => "session already authenticated, must verify"@,
            Refusal::NoSession => "no session for the request"@,
            Refusal::InvalidAuthMethod => "invalid auth method provided"@,
            Refusal::PasswordMissing => "session required user password but user password was not found"@,
            Refusal::SecretMissing => "password secret version not found. unable verify user password"@,
            Refusal::InvalidPassword => "provided password is invalid"@,
            Refusal::TotpMissing => "session required user totp but user totp was not found"@,
            Refusal::OutOfTurn => "answer out of turn"@,
        }
    }

    /// The sentence that goes with the refusal: what the client is told,
    /// or, for a failure inside, what the service records as its cause.
    pub fn message(&self) -> (message: &'static str)
        ensures
            message@ == self.sentence(),
    {
        match self {
            Refusal::MustVerify => "session already authenticated, must verify",
            Refusal::NoSession => "no session for the request",
            Refusal::InvalidAuthMethod => "invalid auth method provided",
            Refusal::PasswordMissing => "session required user password but user password was not found",
            Refusal::SecretMissing => "password secret version not found. unable verify user password",
            Refusal::InvalidPassword => "provided password is invalid",
            Refusal::TotpMissing => "session required user totp but user totp was not found",
            Refusal::OutOfTurn => "answer out of turn",
        }
    }

    /// The status code of the answer: 401 for a credential that is not
    /// accepted, 500 for everything else.
    pub fn status(&self) -> (code: u16)
        ensures
            code == if *self == Refusal::InvalidAuthMethod || *self == Refusal::InvalidPassword {
                401u16
            } else {
                500u16
            },
    {
        match self {
            Refusal::InvalidAuthMethod => 401,
            Refusal::InvalidPassword => 401,
            _ => 500,
        }
    }
}

/// How an exchange ends.
#[derive(Clone, Copy, Debug, PartialEq, Eq, Structural)]
pub enum Answer {
    /// Nothing was to do: the session is authenticated already.
    AlreadyAuthenticated,
    /// The session is authenticated and verified.
    Authenticated,
    /// The session is authenticated; the client proceeds with a one-time
    /// password of that many digits.
    Proceed { digits: u32 },
    /// The exchange failed.
    Refused(Refusal),
}

impl Answer {
    /// The sentence that the client is told with the answer.
    pub fn message(&self) -> (message: &'static str)
        ensures
            message@ == (match self {
                Answer::AlreadyAuthenticated => "session already authenticated"@,
                Answer::Authenticated => "session authenticated"@,
                Answer::Proceed { .. } => "proceed with request verify method"@,
                Answer::Refused(refusal) => refusal.sentence(),
            }),
    {
        match self {
            Answer::AlreadyAuthenticated => "session already authenticated",
            Answer::Authenticated => "session authenticated",
            Answer::Proceed { .. } => "proceed with request verify method",
            Answer::Refused(refusal) => refusal.message(),
        }
    }
}

/// What is to be done next.
#[derive(Clone, Copy, Debug, PartialEq, Eq, Structural)]
pub enum Action {
    /// Fetch the stored password of the user.
    FetchPassword,
    /// Fetch the secret that the stored password was made with.
    FetchSecret,
    /// Check the submitted password against the stored one.
    CheckPassword,
    /// Fetch the one-time-password settings of the user.
    FetchTotp,
    /// Persist the session as authenticated, and as verified where `verified`
    /// says so.
    UpdateSession { verified: bool },
    /// Answer the client.
    Respond(Answer),
}

/// Where an exchange stands.
#[derive(Clone, Copy, Debug, PartialEq, Eq, Structural)]
pub enum State {
    /// The session is being looked up.
    Lookup,
    /// The stored password is being fetched.
    Password { verify_method: VerifyMethod },
    /// The secret is being fetched.
    Secret { verify_method: VerifyMethod },
    /// The password is being checked.
    Check { verify_method: VerifyMethod },
    /// The one-time-password settings are being fetched.
    Totp,
    /// The session is being persisted; afterwards the client is told to
    /// proceed with a one-time password of `digits` digits, where there are
    /// any.
    Update { digits: Option<u32> },
    /// The client was answered.
    Done,
}

/// Whether the credential is of the kind that the session asks for.
pub open spec fn fits(submitted: SubmitAuth, method: AuthMethod) -> bool {
    match (submitted, method) {
        (SubmitAuth::Nothing, AuthMethod::Nothing) => true,
        (SubmitAuth::Password(_), AuthMethod::Password) => true,
        _ => false,
    }
}

/// The step after the credential was accepted: a session without a second
/// factor is persisted as verified; for one with one-time passwords the
/// settings are fetched.
pub open spec fn accepted(verify_method: VerifyMethod) -> (State, Action) {
    match verify_method {
        VerifyMethod::Nothing => (State::Update { digits: None }, Action::UpdateSession { verified: true }),
        VerifyMethod::Totp => (State::Totp, Action::FetchTotp),
    }
}

/// The end of an exchange with a refusal.
pub open spec fn refused(refusal: Refusal) -> (State, Action) {
    (State::Done, Action::Respond(Answer::Refused(refusal)))
}

/// The next state and the next action of an exchange in `state` when `event`
/// comes in, for a client that submitted `submitted`.
pub open spec fn next(state: State, submitted: SubmitAuth, event: Event) -> (State, Action) {
    match (state, event) {
        (State::Lookup, Event::Session(Session::Authenticated)) => (
            State::Done,
            Action::Respond(Answer::AlreadyAuthenticated),
        ),
        (State::Lookup, Event::Session(Session::Unverified)) => refused(Refusal::MustVerify),
        (State::Lookup, Event::Session(Session::Failed)) => refused(Refusal::NoSession),
        (State::Lookup, Event::Session(Session::Unauthenticated { auth_method, verify_method })) => {
            if !fits(submitted, auth_method) {
                refused(Refusal::InvalidAuthMethod)
            } else if auth_method == AuthMethod::Password {
                (State::Password { verify_method }, Action::FetchPassword)
            } else {
                accepted(verify_method)
            }
        },
        (State::Password { verify_method }, Event::Password(found)) => if found {
            (State::Secret { verify_method }, Action::FetchSecret)
        } else {
            refused(Refusal::PasswordMissing)
        },
        (State::Secret { verify_method }, Event::Secret(found)) => if found {
            (State::Check { verify_method }, Action::CheckPassword)
        } else {
            refused(Refusal::SecretMissing)
        },
        (State::Check { verify_method }, Event::Checked(right)) => if right {
            accepted(verify_method)
        } else {
            refused(Refusal::InvalidPassword)
        },
        (State::Totp, Event::Totp(Some(digits))) => (
            State::Update { digits: Some(digits) },
            Action::UpdateSession { verified: false },
        ),
        (State::Totp, Event::Totp(None)) => refused(Refusal::TotpMissing),
        (State::Update { digits: Some(digits) }, Event::Updated) => (
            State::Done,
            Action::Respond(Answer::Proceed { digits }),
        ),
        (State::Update { digits: None }, Event::Updated) => (
            State::Done,
            Action::Respond(Answer::Authenticated),
        ),
        _ => refused(Refusal::OutOfTurn),
    }
}

/// Whether a credential has been accepted by the time the exchange is in
/// `state`.
pub open spec fn past_credential(state: State) -> bool {
    state is Totp || state is Update
}

/// The session is persisted, and the client is told that it is
/// authenticated, only once a credential was accepted: by a step from the
/// lookup with a credential that fits a session without password, by the
/// step from a password that was checked and found right, or by a step of an
/// exchange that was past the credential already.
pub proof fn lemma_update_needs_credential(state: State, submitted: SubmitAuth, event: Event)
    ensures
        ({
            let (after, action) = next(state, submitted, event);
            let accepting = {
                ||| past_credential(state)
                ||| state is Check && event == Event::Checked(true)
                ||| state is Lookup && submitted is Nothing && (event matches Event::Session(
                    Session::Unauthenticated { auth_method, .. },
                ) && auth_method == AuthMethod::Nothing)
            };
            &&& action is UpdateSession ==> accepting
            &&& past_credential(after) ==> accepting
            &&& action == Action::Respond(Answer::Authenticated) ==> past_credential(state)
            &&& action matches Action::Respond(Answer::Proceed { .. }) ==> past_credential(state)
        }),
{
}

/// A refusal ends the exchange: nothing is persisted with it, and whatever
/// comes in afterwards is out of turn and persists nothing either.
pub proof fn lemma_refusal_is_final(state: State, submitted: SubmitAuth, event: Event, later: Event)
    requires
        next(state, submitted, event).1 matches Action::Respond(Answer::Refused(_)),
    ensures
        next(state, submitted, event).0 == State::Done,
        next(State::Done, submitted, later) == refused(Refusal::OutOfTurn),
{
}

/// Starts an exchange: the session of the request is to be looked up.
pub fn start() -> (state: State)
    ensures
        state == State::Lookup,
{
    State::Lookup
}

/// Decides the next step of an exchange: given where it stands and the
/// answer that came in, where it stands afterwards and what is to be done.
pub fn post(state: State, submitted: &SubmitAuth, event: Event) -> (step: (State, Action))
    ensures
        step == next(state, *submitted, event),
{
    match (state, event) {
        (State::Lookup, Event::Session(session)) => match session {
            Session::Authenticated => (State::Done, Action::Respond(Answer::AlreadyAuthenticated)),
            Session::Unverified => refuse(Refusal::MustVerify),
            Session::Failed => refuse(Refusal::NoSession),
            Session::Unauthenticated { auth_method, verify_method } => match submitted {
                SubmitAuth::Nothing => match auth_method {
                    AuthMethod::Nothing => accept(verify_method),
                    _ => refuse(Refusal::InvalidAuthMethod),
                },
                SubmitAuth::Password(_) => match auth_method {
                    AuthMethod::Password => (State::Password { verify_method }, Action::FetchPassword),
                    _ => refuse(Refusal::InvalidAuthMethod),
                },
            },
        },
        (State::Password { verify_method }, Event::Password(found)) => {
            if !found {
                return refuse(Refusal::PasswordMissing);
            }
            (State::Secret { verify_method }, Action::FetchSecret)
        },
        (State::Secret { verify_method }, Event::Secret(found)) => {
            if !found {
                return refuse(Refusal::SecretMissing);
            }
            (State::Check { verify_method }, Action::CheckPassword)
        },
        (State::Check { verify_method }, Event::Checked(right)) => {
            if !right {
                return refuse(Refusal::InvalidPassword);
            }
            accept(verify_method)
        },
        (State::Totp, Event::Totp(settings)) => match settings {
            Some(digits) => (
                State::Update { digits: Some(digits) },
                Action::UpdateSession { verified: false },
            ),
            None => refuse(Refusal::TotpMissing),
        },
        (State::Update { digits }, Event::Updated) => match digits {
            Some(digits) => (State::Done, Action::Respond(Answer::Proceed { digits })),
            None => (State::Done, Action::Respond(Answer::Authenticated)),
        },
        _ => refuse(Refusal::OutOfTurn),
    }
}

fn accept(verify_method: VerifyMethod) -> (step: (State, Action))
    ensures
        step == accepted(verify_method),
{
    match verify_method {
        VerifyMethod::Nothing => (State::Update { digits: None }, Action::UpdateSession { verified: true }),
        VerifyMethod::Totp => (State::Totp, Action::FetchTotp),
    }
}

fn refuse(refusal: Refusal) -> (step: (State, Action))
    ensures
        step == refused(refusal),
{
    (State::Done, Action::Respond(Answer::Refused(refusal)))
}

} // verus!
