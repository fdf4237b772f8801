//! The PAM conversation: what a stack asks, and who answers.
//!
//! A PAM module does not take a password; it asks for one, through a
//! conversation function the application hands it, in one of four message
//! styles. A headless node has nobody to show a prompt to, so the
//! application's side of the conversation is the credential that was
//! presented: a prompt with echo off is answered with the password, a prompt
//! with echo on with the username, and what the stack merely says is kept,
//! because it is often the only reason a refusal comes with.
use vstd::prelude::*;
use vstd::string::*;

use crate::error::{join, joined, option_text, texts};

verus! {

/// One message from the stack, by PAM's four styles.
#[derive(Clone, Debug, Eq, PartialEq)]
pub enum Prompt {
    /// `PAM_PROMPT_ECHO_OFF`: a secret is asked for.
    EchoOff(String),
    /// `PAM_PROMPT_ECHO_ON`: something that may be shown is asked for.
    EchoOn(String),
    /// `PAM_ERROR_MSG`: the stack reports a problem and expects no answer.
    Error(String),
    /// `PAM_TEXT_INFO`: the stack says something and expects no answer.
    Info(String),
}

impl Prompt {
    /// The text the message carries, whatever its style.
    pub open spec fn text(&self) -> Seq<char> {
        match self {
            Prompt::EchoOff(t) => t@,
            Prompt::EchoOn(t) => t@,
            Prompt::Error(t) => t@,
            Prompt::Info(t) => t@,
        }
    }

    /// Whether the message expects an answer.
    pub open spec fn asks(&self) -> bool {
        self is EchoOff || self is EchoOn
    }
}

/// The application's side of the conversation.
pub trait Conversation: Sized {
    /// Whether this conversation may give `answer` to `prompt` and become
    /// `after` in doing so. A conversation that says nothing of its answers
    /// may give any.
    open spec fn replies(&self, prompt: Prompt, answer: Option<Seq<char>>, after: Self) -> bool {
        true
    }

    /// Answer one message. `None` where the message expects no answer, or
    /// where there is none to give, which ends the conversation.
    fn answer(&mut self, prompt: &Prompt) -> (answer: Option<String>)
        ensures
            old(self).replies(*prompt, option_text(answer), *final(self)),
    ;
}

/// The texts of the messages among `prompts` that expect no answer, in
/// order: what a conversation is told by them.
pub open spec fn told(prompts: Seq<Prompt>) -> Seq<Seq<char>>
    decreases prompts.len(),
{
    if prompts.len() == 0 {
        Seq::empty()
    } else if prompts.last().asks() {
        told(prompts.drop_last())
    } else {
        told(prompts.drop_last()).push(prompts.last().text())
    }
}

/// A presented credential, answering for itself.
pub struct Credential<'a> {
    username: &'a str,
    password: &'a str,
    said: Vec<String>,
}

/// How the standard library's `Debug` writes a string: quoted, with the
/// characters that need it escaped.
pub uninterp spec fn debug_quoted(s: Seq<char>) -> Seq<char>;

/// Writes `s` as `Debug` does.
#[verifier::external_body]
fn quote(s: &str) -> (quoted: String)
    ensures
        quoted@ == debug_quoted(s@),
{
    format!("{:?}", s)
}

/// Each text of `said`, written as `Debug` writes a string.
pub open spec fn quoted_all(said: Seq<Seq<char>>) -> Seq<Seq<char>> {
    said.map_values(|t: Seq<char>| debug_quoted(t))
}

/// What a credential with this username that was told `said` prints for
/// debugging. The password is no argument of it.
pub open spec fn credential_debug(username: Seq<char>, said: Seq<Seq<char>>) -> Seq<char> {
    "Credential { username: "@ + debug_quoted(username) + ", said: ["@ + joined(
        quoted_all(said),
        ", "@,
    ) + "], .. }"@
}

impl<'a> Credential<'a> {
    /// The username this credential answers open prompts with.
    pub closed spec fn username_view(&self) -> Seq<char> {
        self.username@
    }

    /// The password this credential answers secret prompts with.
    pub closed spec fn password_view(&self) -> Seq<char> {
        self.password@
    }

    /// What the stack said to this credential, in the order it said it.
    pub closed spec fn said_view(&self) -> Seq<Seq<char>> {
        texts(self.said@)
    }

    /// A credential for `username` and `password` that has been told nothing yet.
    #[must_use]
    pub fn new(username: &'a str, password: &'a str) -> (credential: Self)
        ensures
            credential.username_view() == username@,
            credential.password_view() == password@,
            credential.said_view() == Seq::<Seq<char>>::empty(),
    {
        let said: Vec<String> = Vec::new();
        let credential = Self { username, password, said };
        assert(credential.said_view() =~= Seq::<Seq<char>>::empty());
        credential
    }

    /// What the stack said along the way, errors and information alike, in
    /// the order it said them.
    #[must_use]
    pub fn said(&self) -> (said: &[String])
        ensures
            texts(said@) == self.said_view(),
    {
        self.said.as_slice()
    }

    /// The credential as it prints for debugging: the username and what the
    /// stack said. The password is not printed.
    pub fn debug_text(&self) -> (text: String)
        ensures
            text@ == credential_debug(self.username_view(), self.said_view()),
    {
        let ghost said = self.said_view();
        let mut quoted: Vec<String> = Vec::new();
        let mut i: usize = 0;
        while i < self.said.len()
            invariant
                i <= self.said@.len(),
                said == texts(self.said@),
                texts(quoted@) =~= quoted_all(said.take(i as int)),
            decreases self.said@.len() - i,
        {
            let q = quote(self.said[i].as_str());
            let ghost before = quoted@;
            quoted.push(q);
            assert(said[i as int] == self.said@[i as int]@);
            assert(texts(quoted@) =~= texts(before).push(debug_quoted(said[i as int])));
            assert(said.take(i + 1) =~= said.take(i as int).push(said[i as int]));
            i = i + 1;
        }
        assert(said.take(self.said@.len() as int) =~= said);
        let mut text = String::from_str("Credential { username: ");
        let name = quote(self.username);
        text.append(name.as_str());
        text.append(", said: [");
        let list = join(quoted.as_slice(), ", ");
        text.append(list.as_str());
        text.append("], .. }");
        text
    }
}

impl<'a> Conversation for Credential<'a> {
    /// A secret prompt is answered with the password, an open one with the
    /// username, and neither is kept; what the stack merely says is not
    /// answered and is kept, after what it said before. The username and
    /// the password never change.
    open spec fn replies(&self, prompt: Prompt, answer: Option<Seq<char>>, after: Self) -> bool {
        &&& after.username_view() == self.username_view()
        &&& after.password_view() == self.password_view()
        &&& prompt is EchoOff ==> answer == Some(self.password_view())
        &&& prompt is EchoOn ==> answer == Some(self.username_view())
        &&& prompt.asks() ==> after.said_view() == self.said_view()
        &&& !prompt.asks() ==> answer is None && after.said_view() == self.said_view().push(
            prompt.text(),
        )
    }

    fn answer(&mut self, prompt: &Prompt) -> (answer: Option<String>)
    {
        match prompt {
            Prompt::EchoOff(_) => Some(String::from_str(self.password)),
            Prompt::EchoOn(_) => Some(String::from_str(self.username)),
            Prompt::Error(text) | Prompt::Info(text) => {
                let ghost before = self.said@;
                self.said.push(text.clone());
                assert(texts(self.said@) =~= texts(before).push(text@));
                None
            },
        }
    }
}

/// One message of a conversation and the answer it got.
pub type Turn = (Prompt, Option<Seq<char>>);

/// The messages of a run of turns, in order.
pub open spec fn prompts_of(turns: Seq<Turn>) -> Seq<Prompt> {
    turns.map_values(|t: Turn| t.0)
}

/// Whether a conversation that was `before` ends up `after` through
/// `turns`, passing through the states `chain`: each message got its answer
/// as the conversation says it may.
pub open spec fn talked<C: Conversation>(before: C, after: C, chain: Seq<C>, turns: Seq<Turn>) -> bool {
    &&& chain.len() == turns.len() + 1
    &&& chain[0] == before
    &&& chain.last() == after
    &&& forall|i: int|
        0 <= i < turns.len() ==> #[trigger] chain[i].replies(turns[i].0, turns[i].1, chain[i + 1])
}

/// Whether `turn` got the answer a credential for `username` and
/// `password` gives: the password to a secret prompt, the username to an
/// open one, and nothing to a message that expects no answer.
pub open spec fn answered_as(username: Seq<char>, password: Seq<char>, turn: Turn) -> bool {
    &&& turn.0 is EchoOff ==> turn.1 == Some(password)
    &&& turn.0 is EchoOn ==> turn.1 == Some(username)
    &&& !turn.0.asks() ==> turn.1 is None
}

/// What a credential does over a run of messages: each message gets the
/// answer of a credential for its username and password, and afterwards the
/// credential holds what it held before and then the texts of the messages
/// that expect no answer, errors and information alike, in the order they
/// came. The username and the password never change.
pub proof fn lemma_said_is_what_was_told<'a>(chain: Seq<Credential<'a>>, turns: Seq<Turn>)
    requires
        talked(chain[0], chain.last(), chain, turns),
    ensures
        forall|i: int|
            0 <= i < turns.len() ==> #[trigger] answered_as(
                chain[0].username_view(),
                chain[0].password_view(),
                turns[i],
            ),
        chain.last().said_view() == chain[0].said_view() + told(prompts_of(turns)),
        chain.last().username_view() == chain[0].username_view(),
        chain.last().password_view() == chain[0].password_view(),
    decreases turns.len(),
{
    if turns.len() == 0 {
        assert(prompts_of(turns) =~= Seq::<Prompt>::empty());
        assert(chain[0].said_view() + told(prompts_of(turns)) =~= chain[0].said_view());
    } else {
        let n = turns.len() - 1;
        let shorter = chain.drop_last();
        let fewer = turns.drop_last();
        assert forall|i: int| 0 <= i < fewer.len() implies #[trigger] shorter[i].replies(
            fewer[i].0,
            fewer[i].1,
            shorter[i + 1],
        ) by {
            assert(chain[i].replies(turns[i].0, turns[i].1, chain[i + 1]));
        }
        assert(talked(shorter[0], shorter.last(), shorter, fewer));
        lemma_said_is_what_was_told(shorter, fewer);
        assert(chain[n].replies(turns[n].0, turns[n].1, chain[n + 1]));
        assert(shorter.last() == chain[n]);
        assert forall|i: int| 0 <= i < turns.len() implies #[trigger] answered_as(
            chain[0].username_view(),
            chain[0].password_view(),
            turns[i],
        ) by {
            if i < n {
                assert(fewer[i] == turns[i]);
                assert(answered_as(chain[0].username_view(), chain[0].password_view(), fewer[i]));
            }
        }
        assert(prompts_of(fewer) =~= prompts_of(turns).drop_last());
        assert(prompts_of(turns).last() == turns[n].0);
        if turns[n].0.asks() {
        } else {
            assert(chain[0].said_view() + told(prompts_of(turns)) =~= (chain[0].said_view() + told(
                prompts_of(fewer),
            )).push(turns[n].0.text()));
        }
    }
}

/// The password is never printed: two credentials for the same username
/// that were told the same messages print alike, whatever their passwords.
pub proof fn lemma_password_never_printed<'a, 'b>(
    first: Seq<Credential<'a>>,
    second: Seq<Credential<'b>>,
    first_turns: Seq<Turn>,
    second_turns: Seq<Turn>,
)
    requires
        talked(first[0], first.last(), first, first_turns),
        talked(second[0], second.last(), second, second_turns),
        prompts_of(first_turns) == prompts_of(second_turns),
        first[0].username_view() == second[0].username_view(),
        first[0].said_view() == second[0].said_view(),
    ensures
        credential_debug(first.last().username_view(), first.last().said_view())
            == credential_debug(second.last().username_view(), second.last().said_view()),
{
    lemma_said_is_what_was_told(first, first_turns);
    lemma_said_is_what_was_told(second, second_turns);
}

/// The password is never printed: two credentials that differ in their
/// password alone print alike.
pub proof fn lemma_password_not_printed(a: Credential, b: Credential)
    requires
        a.username_view() == b.username_view(),
        a.said_view() == b.said_view(),
    ensures
        credential_debug(a.username_view(), a.said_view()) == credential_debug(
            b.username_view(),
            b.said_view(),
        ),
{
}

} // verus!
