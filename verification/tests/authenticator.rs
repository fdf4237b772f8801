use xmip_core_authenticate_pam::{
    Claim, Conversation, Credential, CredentialCheck, InProcess, PamAuthenticator, Prompt, Stack,
    Unreachable, Verdict, Verified, PROOF, UNREACHABLE,
};

/// A credential store for the tests: each user with a password.
struct Store {
    entries: Vec<(String, String)>,
}

impl Store {
    fn from_entries(entries: &[(&str, &str)]) -> Self {
        Store {
            entries: entries
                .iter()
                .map(|(u, p)| (u.to_string(), p.to_string()))
                .collect(),
        }
    }
}

impl CredentialCheck for Store {
    fn verify(&self, username: &str, password: &str) -> bool {
        self.entries
            .iter()
            .any(|(u, p)| u == username && p == password)
    }

    fn contains(&self, username: &str) -> bool {
        self.entries.iter().any(|(u, _)| u == username)
    }
}

fn stack() -> InProcess<Store> {
    let store = Store::from_entries(&[("alice", "pencil"), ("old", "pencil")]);
    InProcess::new("xmip", store).with_expired("old")
}

fn authenticator() -> PamAuthenticator<InProcess<Store>> {
    PamAuthenticator::new("xmip").with_stack(stack())
}

fn claim(username: &str, password: &str) -> Claim {
    Claim::new("username", username).with_proof(PROOF, password)
}

fn verdict<S: Stack>(stack: &S, username: &str, password: &str) -> Verdict {
    let mut credential = Credential::new(username, password);
    stack
        .authenticate("xmip", username, &mut credential)
        .expect("the stack ran")
}

#[test]
fn a_real_login_is_refused_with_the_reason_on_every_operating_system() {
    let authenticator = PamAuthenticator::new("login");
    let failure = authenticator
        .verify(&claim("alice", "pencil"))
        .expect_err("refused");
    assert!(
        failure
            .message
            .starts_with("no PAM stack is reachable from this build"),
        "{}",
        failure.message
    );
    assert!(failure.message.contains("'login'"), "{}", failure.message);
    assert_eq!(authenticator.service(), "login");
    assert_eq!(authenticator.mechanism(), "pam");
}

#[test]
fn through_the_in_process_stack_the_right_password_proves_the_username() {
    let authenticator = authenticator();
    assert_eq!(
        authenticator
            .verify(&claim("alice", "pencil"))
            .expect("verified"),
        Verified::Proven
    );
    // A claim the first gate already filed under this mechanism reads too.
    let filed = Claim::new("pam", "alice").with_proof(PROOF, "pencil");
    assert_eq!(authenticator.verify(&filed).expect("verified"), Verified::Proven);
}

#[test]
fn a_wrong_password_and_an_unknown_user_are_refused_alike() {
    let authenticator = authenticator();
    assert_eq!(
        authenticator.verify(&claim("alice", "pen")).expect("verified"),
        Verified::Refused
    );
    assert_eq!(
        authenticator
            .verify(&claim("mallory", "pencil"))
            .expect("verified"),
        Verified::Refused
    );
}

#[test]
fn an_expired_account_is_refused_with_pams_name_and_what_the_stack_said() {
    let failure = authenticator()
        .verify(&claim("old", "pencil"))
        .expect_err("refused");
    assert_eq!(
        failure.message,
        "the PAM service 'xmip' concluded PAM_ACCT_EXPIRED: the account 'old' has expired"
    );
}

#[test]
fn a_missing_proof_and_another_mechanism_are_refused_by_name() {
    let bare = Claim::new("username", "alice");
    let failure = authenticator().verify(&bare).expect_err("refused");
    assert!(
        failure.message.contains("'password' proof"),
        "{}",
        failure.message
    );
    // A Basic credential is another verifier's proof, not this one's.
    let basic = Claim::new("username", "alice")
        .with_proof("basic.credential", "YWxpY2U6cGVuY2ls");
    assert!(authenticator().verify(&basic).is_err());

    let key = Claim::new("api-key", "k-1").with_proof("api-key", "s");
    let failure = authenticator().verify(&key).expect_err("refused");
    assert!(failure.message.contains("'api-key'"), "{}", failure.message);
}

#[test]
fn the_in_process_stack_asks_for_the_password_and_concludes_as_pam_does() {
    let stack = stack();
    assert_eq!(verdict(&stack, "alice", "pencil"), Verdict::Success);
    assert_eq!(
        verdict(&stack, "alice", "pen"),
        Verdict::AuthenticationError
    );
    assert_eq!(verdict(&stack, "mallory", "pencil"), Verdict::UserUnknown);
    assert_eq!(verdict(&stack, "old", "pencil"), Verdict::AccountExpired);
    assert_eq!(Verdict::AccountExpired.name(), "PAM_ACCT_EXPIRED");
}

struct Silent;

impl Conversation for Silent {
    fn answer(&mut self, _prompt: &Prompt) -> Option<String> {
        None
    }
}

#[test]
fn a_conversation_that_does_not_answer_is_a_conversation_error() {
    let concluded = stack()
        .authenticate("xmip", "alice", &mut Silent)
        .expect("the stack ran");
    assert_eq!(concluded, Verdict::ConversationError);
}

#[test]
fn a_service_the_stack_does_not_have_is_an_error_and_not_a_verdict() {
    let mut credential = Credential::new("alice", "pencil");
    let failure = stack()
        .authenticate("sshd", "alice", &mut credential)
        .expect_err("no such service");
    assert!(failure.message.contains("'sshd'"), "{}", failure.message);
}

struct Asked(bool);

impl Conversation for Asked {
    fn answer(&mut self, _prompt: &Prompt) -> Option<String> {
        self.0 = true;
        None
    }
}

#[test]
fn the_unreachable_stack_asks_nothing_and_says_why() {
    let mut asked = Asked(false);
    let failure = Unreachable
        .authenticate("login", "alice", &mut asked)
        .expect_err("refused");
    assert!(
        failure.message.starts_with(UNREACHABLE),
        "{}",
        failure.message
    );
    assert!(!asked.0);
}
