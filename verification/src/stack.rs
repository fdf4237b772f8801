//! The PAM stack: the host facility, as a trait, with what this build has of
//! it.
//!
//! A login through PAM is a call into C, and unsafe code is forbidden in
//! every crate of the estate, so the facility is a trait. [`Unreachable`] is
//! what a node gets unless it is given another: it refuses every login, on
//! every operating system, and says why. [`InProcess`] is a stack that lives
//! in the process: one module that asks for a password and checks it against
//! a credential store, and an account phase that knows which accounts are
//! over. The store is any [`CredentialCheck`].
use vstd::prelude::*;
use vstd::string::*;

use crate::conversation::{talked, Conversation, Prompt, Turn};
use crate::error::{option_text, result_view, texts, AuthenticateError};

verus! {

/// Why [`Unreachable`] refuses, word for word.
pub const UNREACHABLE: &'static str = "no PAM stack is reachable from this build";

/// What a stack concluded, by the return codes a login meets.
#[derive(Clone, Copy, Debug, Eq, PartialEq)]
pub enum Verdict {
    /// `PAM_SUCCESS`.
    Success,
    /// `PAM_AUTH_ERR`: the credential is wrong.
    AuthenticationError,
    /// `PAM_USER_UNKNOWN`: the stack knows no such user.
    UserUnknown,
    /// `PAM_ACCT_EXPIRED`: the credential is right and the account is over.
    AccountExpired,
    /// `PAM_MAXTRIES`: the stack will not be asked again for now.
    MaxTries,
    /// `PAM_CONV_ERR`: the stack asked and was not answered.
    ConversationError,
}

impl Verdict {
    /// PAM's name for the return code.
    pub open spec fn pam_name(self) -> Seq<char> {
        match self {
            Verdict::Success => "PAM_SUCCESS"@,
            Verdict::AuthenticationError => "PAM_AUTH_ERR"@,
            Verdict::UserUnknown => "PAM_USER_UNKNOWN"@,
            Verdict::AccountExpired => "PAM_ACCT_EXPIRED"@,
            Verdict::MaxTries => "PAM_MAXTRIES"@,
            Verdict::ConversationError => "PAM_CONV_ERR"@,
        }
    }

    /// PAM's name for the return code.
    #[must_use]
    pub fn name(self) -> (name: &'static str)
        ensures
            name@ == self.pam_name(),
    {
        match self {
            Verdict::Success => "PAM_SUCCESS",
            Verdict::AuthenticationError => "PAM_AUTH_ERR",
            Verdict::UserUnknown => "PAM_USER_UNKNOWN",
            Verdict::AccountExpired => "PAM_ACCT_EXPIRED",
            Verdict::MaxTries => "PAM_MAXTRIES",
            Verdict::ConversationError => "PAM_CONV_ERR",
        }
    }
}

/// PAM's names tell the verdicts apart: two verdicts with the same name are
/// the same verdict.
pub proof fn lemma_names_identify_verdicts(a: Verdict, b: Verdict)
    requires
        a.pam_name() == b.pam_name(),
    ensures
        a == b,
{
    reveal_strlit("PAM_SUCCESS");
    reveal_strlit("PAM_AUTH_ERR");
    reveal_strlit("PAM_USER_UNKNOWN");
    reveal_strlit("PAM_ACCT_EXPIRED");
    reveal_strlit("PAM_MAXTRIES");
    reveal_strlit("PAM_CONV_ERR");
    let x = a.pam_name();
    let y = b.pam_name();
    assert(x.len() == y.len());
    assert(x[4] == y[4]);
    assert(x[5] == y[5]);
    match a {
        Verdict::Success => assert(x[4] == 'S'),
        Verdict::AuthenticationError => assert(x[4] == 'A' && x[5] == 'U' && x.len() == 12),
        Verdict::UserUnknown => assert(x[4] == 'U'),
        Verdict::AccountExpired => assert(x[4] == 'A' && x[5] == 'C' && x.len() == 16),
        Verdict::MaxTries => assert(x[4] == 'M'),
        Verdict::ConversationError => assert(x[4] == 'C'),
    }
    match b {
        Verdict::Success => assert(y[4] == 'S'),
        Verdict::AuthenticationError => assert(y[4] == 'A' && y[5] == 'U' && y.len() == 12),
        Verdict::UserUnknown => assert(y[4] == 'U'),
        Verdict::AccountExpired => assert(y[4] == 'A' && y[5] == 'C' && y.len() == 16),
        Verdict::MaxTries => assert(y[4] == 'M'),
        Verdict::ConversationError => assert(y[4] == 'C'),
    }
}

/// The host's PAM facility.
pub trait Stack: Send + Sync {
    /// Whether `outcome` is a conclusion this stack may come to when asked to
    /// authenticate `username` for `service`, after the conversation turns
    /// `turns`. A stack that says nothing of its conclusions may come to any.
    open spec fn concludes(
        &self,
        service: Seq<char>,
        username: Seq<char>,
        turns: Seq<Turn>,
        outcome: Result<Verdict, Seq<char>>,
    ) -> bool {
        true
    }

    /// Authenticate `username` for `service`, the name of the file under
    /// `/etc/pam.d`, asking `conversation` for whatever the modules need.
    ///
    /// # Errors
    ///
    /// The stack could not be run at all, which is not a verdict on the
    /// credential.
    fn authenticate<C: Conversation>(
        &self,
        service: &str,
        username: &str,
        conversation: &mut C,
    ) -> (concluded: Result<Verdict, AuthenticateError>)
        ensures
            exists|chain: Seq<C>, turns: Seq<Turn>|
                #![trigger talked(*old(conversation), *final(conversation), chain, turns)]
                talked(*old(conversation), *final(conversation), chain, turns) && self.concludes(
                    service@,
                    username@,
                    turns,
                    result_view(concluded),
                ),
    ;
}

/// The stack of a build that binds none: every login is refused with the
/// reason.
#[derive(Clone, Copy, Debug, Default)]
pub struct Unreachable;

/// What [`Unreachable`] answers for `service`.
pub open spec fn unreachable_message(service: Seq<char>) -> Seq<char> {
    UNREACHABLE@ + ": binding libpam takes unsafe code, which the estate forbids, so the service "@
        + ("'"@ + service + "'"@) + " was not asked"@
}

impl Stack for Unreachable {
    /// Every login is refused with the reason, and the conversation is not
    /// asked anything.
    open spec fn concludes(
        &self,
        service: Seq<char>,
        username: Seq<char>,
        turns: Seq<Turn>,
        outcome: Result<Verdict, Seq<char>>,
    ) -> bool {
        outcome == Err::<Verdict, Seq<char>>(unreachable_message(service)) && turns.len() == 0
    }

    fn authenticate<C: Conversation>(
        &self,
        service: &str,
        username: &str,
        conversation: &mut C,
    ) -> (concluded: Result<Verdict, AuthenticateError>)
        ensures
            *final(conversation) == *old(conversation),
    {
        let mut message = String::from_str(UNREACHABLE);
        message.append(
            ": binding libpam takes unsafe code, which the estate forbids, so the service ",
        );
        message.append("'");
        message.append(service);
        message.append("'");
        message.append(" was not asked");
        assert(message@ =~= unreachable_message(service@));
        let ghost chain = seq![*conversation];
        let ghost turns = Seq::<Turn>::empty();
        assert(talked(*conversation, *conversation, chain, turns));
        Err(AuthenticateError::new(message))
    }
}

/// The credential store a stack in the process checks passwords against.
pub trait CredentialCheck: Send + Sync {
    /// Whether the store may answer `checks` when asked whether `password`
    /// is the password of `username`. A store that says nothing of its
    /// answers may give either.
    open spec fn verify_answers(&self, username: Seq<char>, password: Seq<char>, checks: bool) -> bool {
        true
    }

    /// Whether the store may answer `known` when asked whether it holds
    /// `username`. A store that says nothing of its answers may give either.
    open spec fn contains_answers(&self, username: Seq<char>, known: bool) -> bool {
        true
    }

    /// Whether `password` is the password of `username`.
    fn verify(&self, username: &str, password: &str) -> (checks: bool)
        ensures
            self.verify_answers(username@, password@, checks),
    ;

    /// Whether the store holds `username`.
    fn contains(&self, username: &str) -> (known: bool)
        ensures
            self.contains_answers(username@, known),
    ;
}

/// The text a stack in the process asks the password with.
pub open spec fn password_prompt() -> Seq<char> {
    "Password: "@
}

/// What a stack in the process answers for a service it does not have.
pub open spec fn no_service_message(asked: Seq<char>, answers_for: Seq<char>) -> Seq<char> {
    "the PAM stack has no service '"@ + asked + "': it answers for '"@ + answers_for + "'"@
}

/// What the account phase tells the conversation of an expired account.
pub open spec fn expired_message(username: Seq<char>) -> Seq<char> {
    "the account '"@ + username + "' has expired"@
}

/// A stack in the process: one module that asks for the password and checks
/// it against a credential store, and an account phase that knows which
/// accounts are over.
#[derive(Debug)]
pub struct InProcess<K: CredentialCheck> {
    service: String,
    store: K,
    expired: Vec<String>,
}

/// Whether `name` is one of `names`.
fn holds(names: &Vec<String>, name: &String) -> (found: bool)
    ensures
        found == texts(names@).contains(name@),
{
    let ghost all = texts(names@);
    let mut i: usize = 0;
    while i < names.len()
        invariant
            i <= names@.len(),
            all == texts(names@),
            forall|j: int| 0 <= j < i ==> all[j] != name@,
        decreases names@.len() - i,
    {
        if names[i] == *name {
            assert(all[i as int] == name@);
            return true;
        }
        i = i + 1;
    }
    false
}

impl<K: CredentialCheck> InProcess<K> {
    /// The service this stack answers for.
    pub closed spec fn service_view(&self) -> Seq<char> {
        self.service@
    }

    /// The credential store this stack checks passwords against.
    pub closed spec fn store_view(&self) -> K {
        self.store
    }

    /// The accounts the account phase refuses, in the order they were marked.
    pub closed spec fn expired_view(&self) -> Seq<Seq<char>> {
        texts(self.expired@)
    }

    /// A stack answering for `service` with the users `store` holds, with no
    /// account marked expired.
    #[must_use]
    pub fn new(service: &str, store: K) -> (stack: Self)
        ensures
            stack.service_view() == service@,
            stack.store_view() == store,
            stack.expired_view() == Seq::<Seq<char>>::empty(),
    {
        let stack = InProcess { service: String::from_str(service), store, expired: Vec::new() };
        assert(stack.expired_view() =~= Seq::<Seq<char>>::empty());
        stack
    }

    /// Mark an account as expired: its password still checks, and the
    /// account phase refuses it.
    #[must_use]
    pub fn with_expired(self, username: &str) -> (stack: Self)
        ensures
            stack.service_view() == self.service_view(),
            stack.store_view() == self.store_view(),
            stack.expired_view() == self.expired_view().push(username@),
    {
        let mut stack = self;
        let ghost before = stack.expired@;
        stack.expired.push(String::from_str(username));
        assert(texts(stack.expired@) =~= texts(before).push(username@));
        stack
    }

    /// What the login comes to after the turns `turns`: the stack asks for
    /// the password with echo off, and no answer is a conversation error; a
    /// password that does not check is an authentication error where the
    /// store knows the user and an unknown user where it does not; one that
    /// checks is a success, unless the account is expired, which the
    /// conversation is then told of and which is refused with PAM's name
    /// for it.
    pub open spec fn login(
        &self,
        username: Seq<char>,
        turns: Seq<Turn>,
        outcome: Result<Verdict, Seq<char>>,
    ) -> bool {
        &&& turns.len() >= 1
        &&& turns[0].0 is EchoOff
        &&& turns[0].0.text() == password_prompt()
        &&& match turns[0].1 {
            None => turns.len() == 1 && outcome == Ok::<Verdict, Seq<char>>(
                Verdict::ConversationError,
            ),
            Some(password) => exists|checks: bool|
                #![trigger self.store_view().verify_answers(username, password, checks)]
                self.store_view().verify_answers(username, password, checks)
                    && self.account_phase(username, checks, turns, outcome),
        }
    }

    /// What the login comes to once the store answered `checks` for the
    /// password.
    pub open spec fn account_phase(
        &self,
        username: Seq<char>,
        checks: bool,
        turns: Seq<Turn>,
        outcome: Result<Verdict, Seq<char>>,
    ) -> bool {
        if !checks {
            exists|known: bool|
                #![trigger self.store_view().contains_answers(username, known)]
                self.store_view().contains_answers(username, known) && turns.len() == 1 && outcome
                    == Ok::<Verdict, Seq<char>>(
                    if known {
                        Verdict::AuthenticationError
                    } else {
                        Verdict::UserUnknown
                    },
                )
        } else if self.expired_view().contains(username) {
            &&& turns.len() == 2
            &&& turns[1].0 is Error
            &&& turns[1].0.text() == expired_message(username)
            &&& outcome == Ok::<Verdict, Seq<char>>(Verdict::AccountExpired)
        } else {
            turns.len() == 1 && outcome == Ok::<Verdict, Seq<char>>(Verdict::Success)
        }
    }
}

impl<K: CredentialCheck> Stack for InProcess<K> {
    /// A service the stack does not have is an error and not a verdict, and
    /// nothing is asked; for its own service the login goes as
    /// [`InProcess::login`] says.
    open spec fn concludes(
        &self,
        service: Seq<char>,
        username: Seq<char>,
        turns: Seq<Turn>,
        outcome: Result<Verdict, Seq<char>>,
    ) -> bool {
        if service != self.service_view() {
            outcome == Err::<Verdict, Seq<char>>(no_service_message(service, self.service_view()))
                && turns.len() == 0
        } else {
            self.login(username, turns, outcome)
        }
    }

    fn authenticate<C: Conversation>(
        &self,
        service: &str,
        username: &str,
        conversation: &mut C,
    ) -> (concluded: Result<Verdict, AuthenticateError>) {
        let ghost before = *conversation;
        let asked_for = String::from_str(service);
        if asked_for != self.service {
            let mut message = String::from_str("the PAM stack has no service '");
            message.append(service);
            message.append("': it answers for '");
            message.append(self.service.as_str());
            message.append("'");
            assert(talked(before, before, seq![before], Seq::<Turn>::empty()));
            return Err(AuthenticateError::new(message));
        }
        let asked = Prompt::EchoOff(String::from_str("Password: "));
        let answer = conversation.answer(&asked);
        let ghost mid = *conversation;
        let ghost first: Turn = (asked, option_text(answer));
        let ghost one = seq![first];
        assert(talked(before, mid, seq![before, mid], one));
        assert(one[0].0 is EchoOff);
        assert(one[0].0.text() == password_prompt());
        if answer.is_none() {
            assert(self.login(username@, one, Ok(Verdict::ConversationError)));
            return Ok(Verdict::ConversationError);
        }
        let password = answer.unwrap();
        let checks = self.store.verify(username, password.as_str());
        assert(self.store_view().verify_answers(username@, password@, checks));
        assert(one[0].1 == Some(password@));
        let ghost pw = password@;
        if !checks {
            let known = self.store.contains(username);
            assert(self.store_view().contains_answers(username@, known));
            let verdict = if known {
                Verdict::AuthenticationError
            } else {
                Verdict::UserUnknown
            };
            assert(self.account_phase(username@, checks, one, Ok(verdict)));
            assert(one[0].1->Some_0 == pw);
            assert(self.store_view().verify_answers(username@, one[0].1->Some_0, checks));
            assert(self.login(username@, one, Ok(verdict)));
            return Ok(verdict);
        }
        let name = String::from_str(username);
        if holds(&self.expired, &name) {
            let mut message = String::from_str("the account '");
            message.append(username);
            message.append("' has expired");
            let told = Prompt::Error(message);
            let reply = conversation.answer(&told);
            let ghost two = seq![first, (told, option_text(reply))];
            let ghost chain = seq![before, mid, *conversation];
            assert(talked(before, *conversation, chain, two)) by {
                assert(chain[0].replies(two[0].0, two[0].1, chain[1]));
                assert(chain[1].replies(two[1].0, two[1].1, chain[2]));
            }
            assert(self.account_phase(username@, checks, two, Ok(Verdict::AccountExpired)));
            assert(two[0].1->Some_0 == pw);
            assert(self.store_view().verify_answers(username@, two[0].1->Some_0, checks));
            assert(self.login(username@, two, Ok(Verdict::AccountExpired)));
            Ok(Verdict::AccountExpired)
        } else {
            assert(self.account_phase(username@, checks, one, Ok(Verdict::Success)));
            assert(one[0].1->Some_0 == pw);
            assert(self.store_view().verify_answers(username@, one[0].1->Some_0, checks));
            assert(self.login(username@, one, Ok(Verdict::Success)));
            Ok(Verdict::Success)
        }
    }
}

} // verus!
