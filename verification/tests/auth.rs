use rfs_core::routing::auth::submit::{
    post, start, Action, Answer, AuthMethod, Event, Refusal, Session, State, SubmitAuth,
    VerifyMethod,
};
use rfs_core::routing::auth::{accepts_html, get, AuthContext, Page};

fn unauthenticated(auth_method: AuthMethod, verify_method: VerifyMethod) -> Event {
    Event::Session(Session::Unauthenticated { auth_method, verify_method })
}

fn password() -> SubmitAuth {
    SubmitAuth::Password(String::from("hunter2"))
}

#[test]
fn sign_in_page_depends_on_what_the_client_accepts() {
    assert_eq!(get(true, true), Page::Template(AuthContext {}));
    assert_eq!(get(true, false), Page::File);
    assert_eq!(get(false, true), Page::NoOp);
    assert_eq!(get(false, false), Page::NoOp);
    assert_eq!(get(true, true).name(), "pages/auth");
    assert_eq!(Page::File.name(), "auth.html");
    assert_eq!(Page::NoOp.name(), "no-op");
}

#[test]
fn exchange_starts_with_the_lookup_of_the_session() {
    assert_eq!(start(), State::Lookup);
}

#[test]
fn session_that_is_authenticated_already_needs_nothing() {
    let step = post(start(), &SubmitAuth::Nothing, Event::Session(Session::Authenticated));
    assert_eq!(step, (State::Done, Action::Respond(Answer::AlreadyAuthenticated)));
}

#[test]
fn session_that_waits_for_verification_is_refused() {
    let step = post(start(), &password(), Event::Session(Session::Unverified));
    assert_eq!(step, (State::Done, Action::Respond(Answer::Refused(Refusal::MustVerify))));
    let failed = post(start(), &password(), Event::Session(Session::Failed));
    assert_eq!(failed, (State::Done, Action::Respond(Answer::Refused(Refusal::NoSession))));
}

#[test]
fn credential_of_the_wrong_kind_is_refused() {
    let step = post(
        start(),
        &SubmitAuth::Nothing,
        unauthenticated(AuthMethod::Password, VerifyMethod::Nothing),
    );
    assert_eq!(step, (State::Done, Action::Respond(Answer::Refused(Refusal::InvalidAuthMethod))));
    let other =
        post(start(), &password(), unauthenticated(AuthMethod::Nothing, VerifyMethod::Nothing));
    assert_eq!(other, (State::Done, Action::Respond(Answer::Refused(Refusal::InvalidAuthMethod))));
}

#[test]
fn session_without_credential_or_second_factor_is_authenticated_at_once() {
    let (state, action) = post(
        start(),
        &SubmitAuth::Nothing,
        unauthenticated(AuthMethod::Nothing, VerifyMethod::Nothing),
    );
    assert_eq!(action, Action::UpdateSession { verified: true });
    let (done, answer) = post(state, &SubmitAuth::Nothing, Event::Updated);
    assert_eq!(done, State::Done);
    assert_eq!(answer, Action::Respond(Answer::Authenticated));
}

#[test]
fn right_password_then_one_time_password() {
    let submitted = password();
    let (s1, a1) = post(start(), &submitted, unauthenticated(AuthMethod::Password, VerifyMethod::Totp));
    assert_eq!(a1, Action::FetchPassword);
    let (s2, a2) = post(s1, &submitted, Event::Password(true));
    assert_eq!(a2, Action::FetchSecret);
    let (s3, a3) = post(s2, &submitted, Event::Secret(true));
    assert_eq!(a3, Action::CheckPassword);
    let (s4, a4) = post(s3, &submitted, Event::Checked(true));
    assert_eq!((s4, a4), (State::Totp, Action::FetchTotp));
    let (s5, a5) = post(s4, &submitted, Event::Totp(Some(6)));
    assert_eq!(a5, Action::UpdateSession { verified: false });
    let (s6, a6) = post(s5, &submitted, Event::Updated);
    assert_eq!((s6, a6), (State::Done, Action::Respond(Answer::Proceed { digits: 6 })));
}

#[test]
fn right_password_without_second_factor() {
    let submitted = password();
    let (s1, _) =
        post(start(), &submitted, unauthenticated(AuthMethod::Password, VerifyMethod::Nothing));
    let (s2, _) = post(s1, &submitted, Event::Password(true));
    let (s3, _) = post(s2, &submitted, Event::Secret(true));
    let (s4, a4) = post(s3, &submitted, Event::Checked(true));
    assert_eq!(a4, Action::UpdateSession { verified: true });
    assert_eq!(
        post(s4, &submitted, Event::Updated),
        (State::Done, Action::Respond(Answer::Authenticated))
    );
}

#[test]
fn password_exchange_fails_on_each_missing_piece() {
    let submitted = password();
    let (s1, _) =
        post(start(), &submitted, unauthenticated(AuthMethod::Password, VerifyMethod::Totp));
    assert_eq!(
        post(s1, &submitted, Event::Password(false)),
        (State::Done, Action::Respond(Answer::Refused(Refusal::PasswordMissing)))
    );
    let (s2, _) = post(s1, &submitted, Event::Password(true));
    assert_eq!(
        post(s2, &submitted, Event::Secret(false)),
        (State::Done, Action::Respond(Answer::Refused(Refusal::SecretMissing)))
    );
    let (s3, _) = post(s2, &submitted, Event::Secret(true));
    assert_eq!(
        post(s3, &submitted, Event::Checked(false)),
        (State::Done, Action::Respond(Answer::Refused(Refusal::InvalidPassword)))
    );
    let (s4, _) = post(s3, &submitted, Event::Checked(true));
    assert_eq!(
        post(s4, &submitted, Event::Totp(None)),
        (State::Done, Action::Respond(Answer::Refused(Refusal::TotpMissing)))
    );
}

#[test]
fn answer_that_was_not_asked_for_ends_the_exchange() {
    let submitted = password();
    assert_eq!(
        post(start(), &submitted, Event::Checked(true)),
        (State::Done, Action::Respond(Answer::Refused(Refusal::OutOfTurn)))
    );
    assert_eq!(
        post(start(), &submitted, Event::Updated),
        (State::Done, Action::Respond(Answer::Refused(Refusal::OutOfTurn)))
    );
    assert_eq!(
        post(State::Done, &submitted, Event::Session(Session::Authenticated)),
        (State::Done, Action::Respond(Answer::Refused(Refusal::OutOfTurn)))
    );
}

#[test]
fn refusals_of_credentials_are_unauthorized() {
    assert_eq!(Refusal::InvalidAuthMethod.status(), 401);
    assert_eq!(Refusal::InvalidPassword.status(), 401);
    assert_eq!(Refusal::PasswordMissing.status(), 500);
    assert_eq!(Refusal::SecretMissing.status(), 500);
    assert_eq!(Refusal::TotpMissing.status(), 500);
    assert_eq!(Refusal::MustVerify.status(), 500);
    assert_eq!(Refusal::NoSession.status(), 500);
    assert_eq!(Refusal::OutOfTurn.status(), 500);
}

#[test]
fn client_accepts_a_page_when_it_names_html() {
    assert!(accepts_html("text/html"));
    assert!(accepts_html("text/html,application/xhtml+xml,application/xml;q=0.9,*/*;q=0.8"));
    assert!(!accepts_html("application/json"));
    assert!(!accepts_html(""));
    assert_eq!(get(accepts_html("text/html"), false), Page::File);
    assert_eq!(get(accepts_html("application/json"), true), Page::NoOp);
}

#[test]
fn refusals_carry_their_name_and_sentence() {
    assert_eq!(Refusal::MustVerify.message(), "session already authenticated, must verify");
    assert_eq!(Refusal::MustVerify.kind(), None);
    assert_eq!(Refusal::InvalidAuthMethod.kind(), Some("InvalidAuthMethod"));
    assert_eq!(Refusal::InvalidAuthMethod.message(), "invalid auth method provided");
    assert_eq!(Refusal::InvalidPassword.kind(), Some("InvalidPassword"));
    assert_eq!(Refusal::InvalidPassword.message(), "provided password is invalid");
    assert_eq!(Refusal::PasswordMissing.kind(), None);
    assert_eq!(
        Refusal::PasswordMissing.message(),
        "session required user password but user password was not found"
    );
    assert_eq!(Refusal::SecretMissing.kind(), None);
    assert_eq!(
        Refusal::SecretMissing.message(),
        "password secret version not found. unable verify user password"
    );
    assert_eq!(Refusal::TotpMissing.kind(), None);
    assert_eq!(
        Refusal::TotpMissing.message(),
        "session required user totp but user totp was not found"
    );
    assert_eq!(Refusal::NoSession.kind(), None);
    assert_eq!(Refusal::NoSession.message(), "no session for the request");
    assert_eq!(Refusal::OutOfTurn.kind(), None);
    assert_eq!(Refusal::OutOfTurn.message(), "answer out of turn");
}

#[test]
fn answers_carry_their_sentence() {
    assert_eq!(Answer::AlreadyAuthenticated.message(), "session already authenticated");
    assert_eq!(Answer::Authenticated.message(), "session authenticated");
    assert_eq!(Answer::Proceed { digits: 6 }.message(), "proceed with request verify method");
    assert_eq!(
        Answer::Refused(Refusal::MustVerify).message(),
        "session already authenticated, must verify"
    );
    let unverified = post(start(), &password(), Event::Session(Session::Unverified));
    match unverified.1 {
        Action::Respond(answer) => {
            assert_eq!(answer.message(), "session already authenticated, must verify")
        }
        _ => panic!("an unverified session ends the exchange"),
    }
}
