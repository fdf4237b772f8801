//! Authenticate by PAM: a username and password through a PAM conversation,
//! refusing where no PAM stack is reachable.
//!
//! Pluggable Authentication Modules are how a Unix host decides a login: a
//! service name picks a stack of modules, the modules ask for what they need
//! through a conversation, and the stack concludes. The first gate reads the
//! name and calls it a `username` claim, with the password riding along as
//! the claim's `password` proof. This gate is the application's side: it
//! answers the stack's prompts with the presented credential and turns the
//! stack's conclusion into a verdict. `PAM_SUCCESS` proves the claim,
//! `PAM_AUTH_ERR` and `PAM_USER_UNKNOWN` refuse it alike, and an expired
//! account or a stack that will not be asked again is refused with PAM's
//! name for it and whatever the stack said.
//!
//! No PAM stack is reachable from this build: calling `libpam` takes unsafe
//! code, so the host facility is the [`Stack`] trait, and an authenticator
//! that is given no stack refuses every login with that reason.

pub mod conversation;
pub mod error;
pub mod stack;

pub use conversation::{Conversation, Credential, Prompt};
pub use error::AuthenticateError;
pub use stack::{CredentialCheck, InProcess, Stack, Unreachable, Verdict, UNREACHABLE};

use vstd::prelude::*;
use vstd::string::*;

use crate::error::{joined, result_view, texts};
use crate::conversation::{answered_as, lemma_said_is_what_was_told, prompts_of, talked, told, Turn};
use crate::stack::{expired_message, no_service_message, unreachable_message};

verus! {

/// The proof name this verifier reads off a claim.
pub const PROOF: &'static str = "password";

/// A claim as the first gate presents it: the mechanism it was filed under,
/// the value claimed, and the proof presented with it under [`PROOF`], the
/// password, if any. Proofs presented under other names are no business of
/// this verifier.
pub struct Claim {
    pub mechanism: String,
    pub value: String,
    pub password: Option<String>,
}

impl Claim {
    /// A claim of `value` under `mechanism`, with no proof presented yet.
    pub fn new(mechanism: &str, value: &str) -> (claim: Self)
        ensures
            claim.mechanism@ == mechanism@,
            claim.value@ == value@,
            claim.password is None,
    {
        Claim { mechanism: String::from_str(mechanism), value: String::from_str(value), password: None }
    }

    /// The claim with `proof` presented under `name`: it is the password
    /// where `name` is [`PROOF`], and is set aside under any other name.
    pub fn with_proof(self, name: &str, proof: &str) -> (claim: Self)
        ensures
            claim.mechanism == self.mechanism,
            claim.value == self.value,
            name@ == PROOF@ ==> claim.password_view() == Some(proof@),
            name@ != PROOF@ ==> claim.password_view() == self.password_view(),
    {
        let mut claim = self;
        if String::from_str(name) == String::from_str(PROOF) {
            claim.password = Some(String::from_str(proof));
        }
        claim
    }

    /// The password's characters, where there is one.
    pub open spec fn password_view(&self) -> Option<Seq<char>> {
        match self.password {
            Some(p) => Some(p@),
            None => None,
        }
    }
}

/// What a verifier concluded of a claim it could decide.
#[derive(Clone, Copy, Debug, Eq, PartialEq)]
pub enum Verified {
    /// The claim is proven.
    Proven,
    /// The claim is refused.
    Refused,
}

/// Whether a claim filed under `mechanism` is one this verifier reads: a bare
/// `username`, or one the first gate already filed under `pam`.
pub open spec fn reads_mechanism(mechanism: Seq<char>) -> bool {
    mechanism == "username"@ || mechanism == "pam"@
}

/// Why a claim is refused before any stack is asked, if it is.
pub open spec fn screening(mechanism: Seq<char>, value: Seq<char>, password: Option<Seq<char>>) -> Option<
    Seq<char>,
> {
    if !reads_mechanism(mechanism) {
        Some(
            "'"@ + mechanism + "' is not a claim the PAM verifier reads: it takes a username"@,
        )
    } else if password is None {
        Some("no '"@ + PROOF@ + "' proof was presented with the username '"@ + value + "'"@)
    } else if value.len() == 0 {
        Some("the username presented is empty"@)
    } else {
        None
    }
}

/// What the stack's conclusion for `service` comes to, given what the stack
/// said along the way: success proves the claim, a wrong credential and an
/// unknown user refuse it alike, an error of the stack is passed on as it
/// is, and any other conclusion is an error naming the service, PAM's name
/// for the conclusion and what the stack said.
pub open spec fn conclusion(
    service: Seq<char>,
    outcome: Result<Verdict, Seq<char>>,
    said: Seq<Seq<char>>,
) -> Result<Verified, Seq<char>> {
    match outcome {
        Err(message) => Err(message),
        Ok(Verdict::Success) => Ok(Verified::Proven),
        Ok(Verdict::AuthenticationError) => Ok(Verified::Refused),
        Ok(Verdict::UserUnknown) => Ok(Verified::Refused),
        Ok(other) => Err(concluded_message(service, other, said)),
    }
}

/// The error for a stack that concluded `verdict` for `service` after saying
/// `said`.
pub open spec fn concluded_message(service: Seq<char>, verdict: Verdict, said: Seq<Seq<char>>) -> Seq<
    char,
> {
    "the PAM service '"@ + service + "' concluded "@ + verdict.pam_name() + if said.len() == 0 {
        Seq::<char>::empty()
    } else {
        ": "@ + joined(said, "; "@)
    }
}

/// Whether a claim filed under `mechanism` is one this verifier reads.
fn reads(mechanism: &String) -> (read: bool)
    ensures
        read == reads_mechanism(mechanism@),
{
    *mechanism == String::from_str("username") || *mechanism == String::from_str("pam")
}

/// Verifies a `username` claim with a `password` proof through a PAM stack.
pub struct PamAuthenticator<S: Stack> {
    service: String,
    stack: S,
}

impl PamAuthenticator<Unreachable> {
    /// Authenticates for `service` against the stack this build reaches,
    /// which is none: every login is refused with the reason until
    /// [`PamAuthenticator::with_stack`] gives it one.
    #[must_use]
    pub fn new(service: &str) -> (authenticator: Self)
        ensures
            authenticator.service_view() == service@,
    {
        PamAuthenticator { service: String::from_str(service), stack: Unreachable }
    }
}

impl<S: Stack> PamAuthenticator<S> {
    /// The PAM service this authenticates for.
    pub closed spec fn service_view(&self) -> Seq<char> {
        self.service@
    }

    /// The stack this authenticates through.
    pub closed spec fn stack_view(&self) -> S {
        self.stack
    }

    /// The stack to authenticate through.
    #[must_use]
    pub fn with_stack<T: Stack>(self, stack: T) -> (authenticator: PamAuthenticator<T>)
        ensures
            authenticator.service_view() == self.service_view(),
            authenticator.stack_view() == stack,
    {
        PamAuthenticator { service: self.service, stack }
    }

    /// The PAM service this authenticates for.
    #[must_use]
    pub fn service(&self) -> (service: &str)
        ensures
            service@ == self.service_view(),
    {
        self.service.as_str()
    }

    /// The mechanism this verifier proves: `pam`.
    #[must_use]
    pub fn mechanism(&self) -> (mechanism: &'static str)
        ensures
            mechanism@ == "pam"@,
    {
        "pam"
    }

    /// Turns what the stack concluded, and what it said along the way, into
    /// a verdict on the claim.
    ///
    /// # Errors
    ///
    /// The stack's own error, as it is; or a conclusion other than success, a
    /// wrong credential or an unknown user, named with what the stack said.
    pub fn conclude(&self, outcome: Result<Verdict, AuthenticateError>, said: &[String]) -> (verified:
        Result<Verified, AuthenticateError>)
        ensures
            result_view(verified) == conclusion(
                self.service_view(),
                result_view(outcome),
                texts(said@),
            ),
            verified is Ok <==> (outcome is Ok && (outcome->Ok_0 is Success
                || outcome->Ok_0 is AuthenticationError || outcome->Ok_0 is UserUnknown)),
            outcome is Ok && !(outcome->Ok_0 is Success || outcome->Ok_0 is AuthenticationError
                || outcome->Ok_0 is UserUnknown) ==> verified is Err && verified->Err_0.message@
                == "the PAM service '"@ + self.service_view() + "' concluded "@
                + outcome->Ok_0.pam_name() + if said@.len() == 0 {
                Seq::<char>::empty()
            } else {
                ": "@ + joined(texts(said@), "; "@)
            },
    {
        match outcome {
            Err(e) => Err(e),
            Ok(Verdict::Success) => Ok(Verified::Proven),
            Ok(Verdict::AuthenticationError) => Ok(Verified::Refused),
            Ok(Verdict::UserUnknown) => Ok(Verified::Refused),
            Ok(other) => {
                let mut message = String::from_str("the PAM service '");
                message.append(self.service.as_str());
                message.append("' concluded ");
                message.append(other.name());
                let ghost head = message@;
                if said.len() != 0 {
                    message.append(": ");
                    let list = crate::error::join(said, "; ");
                    message.append(list.as_str());
                    assert(message@ =~= head + (": "@ + joined(texts(said@), "; "@)));
                } else {
                    assert(message@ =~= head + Seq::<char>::empty());
                }
                assert(message@ =~= concluded_message(self.service@, other, texts(said@)));
                Err(AuthenticateError::new(message))
            },
        }
    }

    /// Verifies `claim`: a claim this verifier reads, with a password and a
    /// username, is put to the stack with the presented credential answering
    /// its conversation, and the stack's conclusion decides.
    ///
    /// # Errors
    ///
    /// A claim filed under another mechanism, one without a password proof,
    /// or one with an empty username, each with its reason; or whatever
    /// [`PamAuthenticator::conclude`] makes an error of.
    pub fn verify(&self, claim: &Claim) -> (verified: Result<Verified, AuthenticateError>)
        ensures
            screening(claim.mechanism@, claim.value@, claim.password_view()) matches Some(why)
                ==> result_view(verified) == Err::<Verified, Seq<char>>(why),
            (claim.mechanism@ == "username"@ || claim.mechanism@ == "pam"@) && claim.password is Some
                && claim.value@.len() > 0 ==> exists|
                turns: Seq<Turn>,
                outcome: Result<Verdict, Seq<char>>,
            |
                #![trigger self.stack_view().concludes(self.service_view(), claim.value@, turns, outcome)]
                self.stack_view().concludes(self.service_view(), claim.value@, turns, outcome)
                    && (forall|i: int|
                    0 <= i < turns.len() ==> #[trigger] answered_as(
                        claim.value@,
                        claim.password_view()->Some_0,
                        turns[i],
                    )) && result_view(verified) == conclusion(
                    self.service_view(),
                    outcome,
                    told(prompts_of(turns)),
                ),
    {
        if !reads(&claim.mechanism) {
            let mut message = String::from_str("'");
            message.append(claim.mechanism.as_str());
            message.append("' is not a claim the PAM verifier reads: it takes a username");
            return Err(AuthenticateError::new(message));
        }
        if claim.password.is_none() {
            let mut message = String::from_str("no '");
            message.append(PROOF);
            message.append("' proof was presented with the username '");
            message.append(claim.value.as_str());
            message.append("'");
            return Err(AuthenticateError::new(message));
        }
        if claim.value.as_str().is_empty() {
            return Err(AuthenticateError::new(String::from_str("the username presented is empty")));
        }
        let password = claim.password.as_ref().unwrap();
        let mut credential = Credential::new(claim.value.as_str(), password.as_str());
        let ghost before = credential;
        let outcome = self.stack.authenticate(
            self.service.as_str(),
            claim.value.as_str(),
            &mut credential,
        );
        let verified = self.conclude(outcome, credential.said());
        proof {
            let (chain, turns) = choose|chain: Seq<Credential>, turns: Seq<Turn>|
                talked(before, credential, chain, turns) && self.stack_view().concludes(
                    self.service_view(),
                    claim.value@,
                    turns,
                    result_view(outcome),
                );
            lemma_said_is_what_was_told(chain, turns);
            assert(Seq::<Seq<char>>::empty() + told(prompts_of(turns)) =~= told(
                prompts_of(turns),
            ));
        }
        verified
    }
}

/// A wrong credential and an unknown user are refused alike, whatever the
/// stack said along the way.
pub proof fn lemma_refused_alike(service: Seq<char>, said: Seq<Seq<char>>)
    ensures
        conclusion(service, Ok(Verdict::AuthenticationError), said) == Ok::<Verified, Seq<char>>(
            Verified::Refused,
        ),
        conclusion(service, Ok(Verdict::UserUnknown), said) == conclusion(
            service,
            Ok(Verdict::AuthenticationError),
            said,
        ),
{
}

/// A claim is proven where the stack concluded success, and nowhere else.
pub proof fn lemma_only_success_proves(
    service: Seq<char>,
    outcome: Result<Verdict, Seq<char>>,
    said: Seq<Seq<char>>,
)
    ensures
        conclusion(service, outcome, said) == Ok::<Verified, Seq<char>>(Verified::Proven)
            <==> outcome == Ok::<Verdict, Seq<char>>(Verdict::Success),
{
}

/// An error of the stack reaches the caller as the stack gave it: the
/// refusal carries the stack's reason.
pub proof fn lemma_stack_error_passed_on(
    service: Seq<char>,
    message: Seq<char>,
    said: Seq<Seq<char>>,
)
    ensures
        conclusion(service, Err(message), said) == Err::<Verified, Seq<char>>(message),
{
}

/// Whether `part` occurs in `text`.
pub open spec fn occurs_in(part: Seq<char>, text: Seq<char>) -> bool {
    exists|i: int| 0 <= i && i + part.len() <= text.len() && #[trigger] text.subrange(i, i + part.len()) == part
}

/// An authenticator given no stack refuses every login it is asked to
/// verify: whatever the stack is said to conclude, the claim is refused with
/// an error that starts with the reason and names the service in quotes.
pub proof fn lemma_no_stack_refuses_every_login(
    service: Seq<char>,
    username: Seq<char>,
    turns: Seq<Turn>,
    outcome: Result<Verdict, Seq<char>>,
    said: Seq<Seq<char>>,
)
    requires
        Unreachable.concludes(service, username, turns, outcome),
    ensures
        conclusion(service, outcome, said) == Err::<Verified, Seq<char>>(
            unreachable_message(service),
        ),
        unreachable_message(service).subrange(0, UNREACHABLE@.len() as int) == UNREACHABLE@,
        occurs_in("'"@ + service + "'"@, unreachable_message(service)),
{
    let m = unreachable_message(service);
    let head = UNREACHABLE@
        + ": binding libpam takes unsafe code, which the estate forbids, so the service "@;
    let quoted = "'"@ + service + "'"@;
    assert(m =~= head + quoted + " was not asked"@);
    assert(m.subrange(head.len() as int, (head.len() + quoted.len()) as int) =~= quoted);
    assert(m.subrange(0, UNREACHABLE@.len() as int) =~= UNREACHABLE@);
}

/// Through a stack in the process, with the presented credential answering
/// its conversation: a service the stack does not have is refused with the
/// stack's reason; the password prompt is always answered, so there is no
/// conversation error; a password the store checks proves the claim unless
/// the account is expired, which is refused with PAM's name for it and the
/// stack's word that the account has expired; and a password the store does
/// not check is refused, whether the store knows the user or not.
pub proof fn lemma_in_process_login<K: CredentialCheck>(
    stack: InProcess<K>,
    service: Seq<char>,
    username: Seq<char>,
    password: Seq<char>,
    turns: Seq<Turn>,
    outcome: Result<Verdict, Seq<char>>,
)
    requires
        stack.concludes(service, username, turns, outcome),
        forall|i: int| 0 <= i < turns.len() ==> #[trigger] answered_as(username, password, turns[i]),
    ensures
        service != stack.service_view() ==> conclusion(service, outcome, told(prompts_of(turns)))
            == Err::<Verified, Seq<char>>(no_service_message(service, stack.service_view())),
        outcome != Ok::<Verdict, Seq<char>>(Verdict::ConversationError),
        service == stack.service_view() && (forall|b: bool|
            #[trigger] stack.store_view().verify_answers(username, password, b) ==> b)
            && !stack.expired_view().contains(username) ==> conclusion(
            service,
            outcome,
            told(prompts_of(turns)),
        ) == Ok::<Verified, Seq<char>>(Verified::Proven),
        service == stack.service_view() && (forall|b: bool|
            #[trigger] stack.store_view().verify_answers(username, password, b) ==> !b)
            ==> conclusion(service, outcome, told(prompts_of(turns))) == Ok::<Verified, Seq<char>>(
            Verified::Refused,
        ),
        service == stack.service_view() && (forall|b: bool|
            #[trigger] stack.store_view().verify_answers(username, password, b) ==> b)
            && stack.expired_view().contains(username) ==> conclusion(
            service,
            outcome,
            told(prompts_of(turns)),
        ) == Err::<Verified, Seq<char>>(
            "the PAM service '"@ + service + "' concluded "@ + "PAM_ACCT_EXPIRED"@ + ": "@
                + expired_message(username),
        ),
{
    if service == stack.service_view() {
        assert(stack.login(username, turns, outcome));
        assert(answered_as(username, password, turns[0]));
        assert(turns[0].1 == Some(password));
        let checks = choose|c: bool|
            stack.store_view().verify_answers(username, password, c) && stack.account_phase(
                username,
                c,
                turns,
                outcome,
            );
        assert(stack.store_view().verify_answers(username, password, checks));
        let prompts = prompts_of(turns);
        if turns.len() == 1 {
            assert(prompts =~= seq![turns[0].0]);
            assert(prompts.drop_last() =~= Seq::<Prompt>::empty());
            assert(prompts.last().asks());
            assert(told(prompts.drop_last()) == Seq::<Seq<char>>::empty());
            assert(told(prompts) == Seq::<Seq<char>>::empty());
        } else if turns.len() == 2 {
            assert(prompts =~= seq![turns[0].0, turns[1].0]);
            assert(prompts.drop_last() =~= seq![turns[0].0]);
            assert(prompts.drop_last().drop_last() =~= Seq::<Prompt>::empty());
            assert(prompts.drop_last().last().asks());
            assert(told(prompts.drop_last().drop_last()) == Seq::<Seq<char>>::empty());
            assert(told(prompts.drop_last()) == Seq::<Seq<char>>::empty());
            assert(!prompts.last().asks());
            assert(told(prompts) =~= seq![expired_message(username)]);
            assert(joined(seq![expired_message(username)], "; "@) == expired_message(username));
            assert(concluded_message(service, Verdict::AccountExpired, told(prompts)) =~= "the PAM service '"@
                + service + "' concluded "@ + "PAM_ACCT_EXPIRED"@ + ": "@ + expired_message(username));
        }
    }
}

/// A claim is refused before any stack is asked exactly when it is filed
/// under a mechanism other than `username` or `pam`, brings no password, or
/// names an empty username: a readable claim with any non-empty username and
/// any password, whatever their length or content, goes to the stack.
pub proof fn lemma_screening_refuses_only_unreadable_claims(
    mechanism: Seq<char>,
    value: Seq<char>,
    password: Option<Seq<char>>,
)
    ensures
        screening(mechanism, value, password) is None <==> ((mechanism == "username"@ || mechanism
            == "pam"@) && password is Some && value.len() > 0),
{
}

/// Only success, a wrong credential and an unknown user are verdicts on the
/// claim; every other conclusion of the stack, whether or not the stack said
/// anything, is an error naming the service, PAM's name for the conclusion
/// and what the stack said, joined by `; `, after `: ` where it said
/// anything.
pub proof fn lemma_other_conclusions_are_errors(
    service: Seq<char>,
    outcome: Result<Verdict, Seq<char>>,
    said: Seq<Seq<char>>,
)
    ensures
        conclusion(service, outcome, said) is Ok <==> (outcome is Ok && (outcome->Ok_0 is Success
            || outcome->Ok_0 is AuthenticationError || outcome->Ok_0 is UserUnknown)),
        outcome is Ok && !(outcome->Ok_0 is Success || outcome->Ok_0 is AuthenticationError
            || outcome->Ok_0 is UserUnknown) ==> conclusion(service, outcome, said) == Err::<
            Verified,
            Seq<char>,
        >(
            "the PAM service '"@ + service + "' concluded "@ + outcome->Ok_0.pam_name() + if said.len() == 0 {
                Seq::<char>::empty()
            } else {
                ": "@ + joined(said, "; "@)
            },
        ),
{
}

/// Through a stack in the process, with the presented credential answering,
/// a password the store does not check is an authentication error where the
/// store knows the user and an unknown user where it does not, whatever the
/// username or the password: nothing but the store's answer decides which.
pub proof fn lemma_in_process_wrong_password<K: CredentialCheck>(
    stack: InProcess<K>,
    username: Seq<char>,
    password: Seq<char>,
    turns: Seq<Turn>,
    outcome: Result<Verdict, Seq<char>>,
)
    requires
        stack.concludes(stack.service_view(), username, turns, outcome),
        forall|i: int| 0 <= i < turns.len() ==> #[trigger] answered_as(username, password, turns[i]),
        forall|b: bool| #[trigger] stack.store_view().verify_answers(username, password, b) ==> !b,
    ensures
        (forall|k: bool| #[trigger] stack.store_view().contains_answers(username, k) ==> k) ==> outcome
            == Ok::<Verdict, Seq<char>>(Verdict::AuthenticationError),
        (forall|k: bool| #[trigger] stack.store_view().contains_answers(username, k) ==> !k) ==> outcome
            == Ok::<Verdict, Seq<char>>(Verdict::UserUnknown),
        outcome == Ok::<Verdict, Seq<char>>(Verdict::AuthenticationError) || outcome == Ok::<
            Verdict,
            Seq<char>,
        >(Verdict::UserUnknown),
{
    assert(stack.login(username, turns, outcome));
    assert(answered_as(username, password, turns[0]));
    assert(turns[0].1 == Some(password));
    let checks = choose|c: bool|
        stack.store_view().verify_answers(username, password, c) && stack.account_phase(
            username,
            c,
            turns,
            outcome,
        );
    assert(stack.store_view().verify_answers(username, password, checks));
    let known = choose|k: bool|
        stack.store_view().contains_answers(username, k) && turns.len() == 1 && outcome == Ok::<
            Verdict,
            Seq<char>,
        >(
            if k {
                Verdict::AuthenticationError
            } else {
                Verdict::UserUnknown
            },
        );
    assert(stack.store_view().contains_answers(username, known));
}

} // verus!
