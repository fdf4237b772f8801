//! The error an authentication step reports when it cannot conclude, and
//! the text helpers its messages are built with.
use vstd::prelude::*;
use vstd::string::*;

verus! {

/// Why a claim could not be verified: the stack could not be run, or the
/// claim was not one this verifier reads. It is not a verdict on the
/// credential.
#[derive(Debug, Eq, PartialEq)]
pub struct AuthenticateError {
    pub message: String,
}

impl AuthenticateError {
    /// An error carrying `message` word for word.
    pub fn new(message: String) -> (e: Self)
        ensures
            e.message@ == message@,
    {
        AuthenticateError { message }
    }

    /// The message, as a sequence of characters.
    pub open spec fn text(&self) -> Seq<char> {
        self.message@
    }
}

/// A result whose error is an [`AuthenticateError`], seen through its message.
pub open spec fn result_view<T>(r: Result<T, AuthenticateError>) -> Result<T, Seq<char>> {
    match r {
        Ok(v) => Ok(v),
        Err(e) => Err(e.message@),
    }
}

/// `parts`, with `sep` between each two of them.
pub open spec fn joined(parts: Seq<Seq<char>>, sep: Seq<char>) -> Seq<char>
    decreases parts.len(),
{
    if parts.len() == 0 {
        Seq::empty()
    } else if parts.len() == 1 {
        parts[0]
    } else {
        joined(parts.drop_last(), sep) + sep + parts.last()
    }
}

/// The characters of the string, where there is one.
pub open spec fn option_text(s: Option<String>) -> Option<Seq<char>> {
    match s {
        Some(t) => Some(t@),
        None => None,
    }
}

/// The characters of each string, in order.
pub open spec fn texts(strings: Seq<String>) -> Seq<Seq<char>> {
    strings.map_values(|s: String| s@)
}

/// Joins `parts` with `sep` between each two of them.
pub fn join(parts: &[String], sep: &str) -> (r: String)
    ensures
        r@ == joined(texts(parts@), sep@),
{
    let mut r = String::new();
    let ghost all = texts(parts@);
    let mut i: usize = 0;
    while i < parts.len()
        invariant
            i <= parts@.len(),
            all == texts(parts@),
            r@ == joined(all.take(i as int), sep@),
        decreases parts@.len() - i,
    {
        if i != 0 {
            r.append(sep);
        }
        r.append(parts[i].as_str());
        assert(all.take(i + 1).drop_last() =~= all.take(i as int));
        i = i + 1;
    }
    assert(all.take(parts@.len() as int) =~= all);
    r
}

} // verus!
