use xmip_core_authenticate_pam::{
    AuthenticateError, Claim, Conversation, Credential, CredentialCheck, InProcess,
    PamAuthenticator, Prompt, Stack, Verdict, Verified, PROOF,
};

/// A store that answers every question alike, whatever it is asked.
struct Fixed {
    checks: bool,
    knows: bool,
}

impl CredentialCheck for Fixed {
    fn verify(&self, _username: &str, _password: &str) -> bool {
        self.checks
    }

    fn contains(&self, _username: &str) -> bool {
        self.knows
    }
}

/// A conversation that keeps every message it is asked, and answers a
/// secret prompt with a fixed answer.
struct Recorder {
    answer: Option<String>,
    asked: Vec<Prompt>,
}

impl Conversation for Recorder {
    fn answer(&mut self, prompt: &Prompt) -> Option<String> {
        self.asked.push(prompt.clone());
        match prompt {
            Prompt::EchoOff(_) => self.answer.clone(),
            _ => None,
        }
    }
}

fn recorder(answer: Option<&str>) -> Recorder {
    Recorder {
        answer: answer.map(str::to_string),
        asked: Vec::new(),
    }
}

#[test]
fn every_verdict_has_pams_name() {
    assert_eq!(Verdict::Success.name(), "PAM_SUCCESS");
    assert_eq!(Verdict::AuthenticationError.name(), "PAM_AUTH_ERR");
    assert_eq!(Verdict::UserUnknown.name(), "PAM_USER_UNKNOWN");
    assert_eq!(Verdict::AccountExpired.name(), "PAM_ACCT_EXPIRED");
    assert_eq!(Verdict::MaxTries.name(), "PAM_MAXTRIES");
    assert_eq!(Verdict::ConversationError.name(), "PAM_CONV_ERR");
}

#[test]
fn the_stack_asks_for_the_password_with_echo_off_and_nothing_more() {
    let stack = InProcess::new("xmip", Fixed { checks: true, knows: true });
    let mut conversation = recorder(Some("pencil"));
    let concluded = stack
        .authenticate("xmip", "alice", &mut conversation)
        .expect("the stack ran");
    assert_eq!(concluded, Verdict::Success);
    assert_eq!(
        conversation.asked,
        vec![Prompt::EchoOff("Password: ".to_string())]
    );
}

#[test]
fn a_service_the_stack_does_not_have_is_named_with_the_one_it_has_and_nothing_is_asked() {
    let stack = InProcess::new("xmip", Fixed { checks: true, knows: true });
    let mut conversation = recorder(Some("pencil"));
    let failure = stack
        .authenticate("sshd", "alice", &mut conversation)
        .expect_err("no such service");
    assert_eq!(
        failure.message,
        "the PAM stack has no service 'sshd': it answers for 'xmip'"
    );
    assert!(conversation.asked.is_empty());
}

#[test]
fn the_password_decides_before_the_account_phase() {
    let wrong = InProcess::new("xmip", Fixed { checks: false, knows: true }).with_expired("old");
    let mut conversation = recorder(Some("pen"));
    assert_eq!(
        wrong.authenticate("xmip", "old", &mut conversation),
        Ok(Verdict::AuthenticationError)
    );
    let unknown = InProcess::new("xmip", Fixed { checks: false, knows: false }).with_expired("old");
    assert_eq!(
        unknown.authenticate("xmip", "old", &mut recorder(Some("pen"))),
        Ok(Verdict::UserUnknown)
    );
}

#[test]
fn an_expired_account_is_told_and_refused() {
    let stack = InProcess::new("xmip", Fixed { checks: true, knows: true })
        .with_expired("old")
        .with_expired("older");
    for name in ["old", "older"] {
        let mut conversation = recorder(Some("pencil"));
        assert_eq!(
            stack.authenticate("xmip", name, &mut conversation),
            Ok(Verdict::AccountExpired)
        );
        assert_eq!(
            conversation.asked,
            vec![
                Prompt::EchoOff("Password: ".to_string()),
                Prompt::Error(format!("the account '{name}' has expired")),
            ]
        );
    }
}

#[test]
fn no_answer_to_the_password_prompt_is_a_conversation_error() {
    let stack = InProcess::new("xmip", Fixed { checks: true, knows: true });
    assert_eq!(
        stack.authenticate("xmip", "alice", &mut recorder(None)),
        Ok(Verdict::ConversationError)
    );
}

#[test]
fn success_proves_and_a_wrong_credential_and_an_unknown_user_refuse_alike() {
    let authenticator = PamAuthenticator::new("xmip");
    assert_eq!(
        authenticator.conclude(Ok(Verdict::Success), &[]).expect("concluded"),
        Verified::Proven
    );
    assert_eq!(
        authenticator
            .conclude(Ok(Verdict::AuthenticationError), &["no".to_string()])
            .expect("concluded"),
        Verified::Refused
    );
    assert_eq!(
        authenticator
            .conclude(Ok(Verdict::UserUnknown), &[])
            .expect("concluded"),
        Verified::Refused
    );
}

#[test]
fn another_conclusion_is_named_with_all_the_stack_said() {
    let authenticator = PamAuthenticator::new("xmip");
    let failure = authenticator
        .conclude(Ok(Verdict::MaxTries), &[])
        .expect_err("refused");
    assert_eq!(
        failure.message,
        "the PAM service 'xmip' concluded PAM_MAXTRIES"
    );
    let said = ["one".to_string(), "two".to_string()];
    let failure = authenticator
        .conclude(Ok(Verdict::ConversationError), &said)
        .expect_err("refused");
    assert_eq!(
        failure.message,
        "the PAM service 'xmip' concluded PAM_CONV_ERR: one; two"
    );
}

#[test]
fn an_error_of_the_stack_is_passed_on_as_it_is() {
    let authenticator = PamAuthenticator::new("xmip");
    let failure = authenticator
        .conclude(
            Err(AuthenticateError::new("the stack broke".to_string())),
            &["ignored".to_string()],
        )
        .expect_err("refused");
    assert_eq!(failure.message, "the stack broke");
}

/// A stack that tells the conversation something, then concludes
/// `PAM_MAXTRIES`, and checks that it was answered with the password.
struct Tries;

impl Stack for Tries {
    fn authenticate<C: Conversation>(
        &self,
        _service: &str,
        _username: &str,
        conversation: &mut C,
    ) -> Result<Verdict, AuthenticateError> {
        let secret = conversation.answer(&Prompt::EchoOff("Password: ".to_string()));
        let open = conversation.answer(&Prompt::EchoOn("login: ".to_string()));
        let _ = conversation.answer(&Prompt::Info(format!(
            "answered {} and {}",
            secret.unwrap_or_default(),
            open.unwrap_or_default()
        )));
        let _ = conversation.answer(&Prompt::Error("too many tries".to_string()));
        Ok(Verdict::MaxTries)
    }
}

#[test]
fn the_stack_is_answered_by_the_claim_and_what_it_said_is_named() {
    let authenticator = PamAuthenticator::new("xmip").with_stack(Tries);
    let failure = authenticator
        .verify(&Claim::new("username", "alice").with_proof(PROOF, "pencil"))
        .expect_err("refused");
    assert_eq!(
        failure.message,
        "the PAM service 'xmip' concluded PAM_MAXTRIES: answered pencil and alice; too many tries"
    );
}

#[test]
fn an_empty_username_is_refused_before_the_stack_is_asked() {
    let authenticator = PamAuthenticator::new("xmip");
    let failure = authenticator
        .verify(&Claim::new("username", "").with_proof(PROOF, "pencil"))
        .expect_err("refused");
    assert_eq!(failure.message, "the username presented is empty");
}

#[test]
fn the_refusals_before_the_stack_name_their_reason_in_full() {
    let authenticator = PamAuthenticator::new("xmip");
    let failure = authenticator
        .verify(&Claim::new("api-key", "k-1"))
        .expect_err("refused");
    assert_eq!(
        failure.message,
        "'api-key' is not a claim the PAM verifier reads: it takes a username"
    );
    let failure = authenticator
        .verify(&Claim::new("pam", "alice").with_proof("basic.credential", "x"))
        .expect_err("refused");
    assert_eq!(
        failure.message,
        "no 'password' proof was presented with the username 'alice'"
    );
    assert_eq!(PROOF, "password");
}

#[test]
fn a_proof_under_the_password_name_is_taken_and_others_are_not() {
    let claim = Claim::new("username", "alice")
        .with_proof("basic.credential", "x")
        .with_proof(PROOF, "pencil")
        .with_proof("api-key", "y");
    assert_eq!(claim.password.as_deref(), Some("pencil"));
}

#[test]
fn with_no_stack_the_refusal_names_the_service() {
    let authenticator = PamAuthenticator::new("login");
    let failure = authenticator
        .verify(&Claim::new("pam", "alice").with_proof(PROOF, "pencil"))
        .expect_err("refused");
    assert_eq!(
        failure.message,
        "no PAM stack is reachable from this build: binding libpam takes unsafe code, which the estate forbids, so the service 'login' was not asked"
    );
}

#[test]
fn a_credential_answers_the_in_process_stack_with_its_password() {
    let stack = InProcess::new("xmip", Fixed { checks: true, knows: true }).with_expired("old");
    let mut credential = Credential::new("old", "pencil");
    assert_eq!(
        stack.authenticate("xmip", "old", &mut credential),
        Ok(Verdict::AccountExpired)
    );
    assert_eq!(credential.said(), ["the account 'old' has expired"]);
}
