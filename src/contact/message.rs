//! The text of the submitted message.
use crate::text::{
    count_graphemes, grapheme_count, is_blank, lemma_trim_padded, lemma_trimmed_idempotent, trim,
    trimmed,
};
use vstd::prelude::*;

verus! {

/// The largest number of grapheme clusters a message may have.
pub const MAX_MESSAGE_GRAPHEMES: usize = 2000;

/// A trimmed, non-empty message of at most `MAX_MESSAGE_GRAPHEMES` grapheme clusters.
#[derive(Debug, PartialEq, Eq, PartialOrd, Ord, Clone)]
pub struct Message(String);

/// Why a message was rejected.
#[derive(Debug, PartialEq, Eq, PartialOrd, Ord, Clone, Copy, Structural)]
pub enum Error {
    IsEmpty,
    IsGreaterThan2000,
}

impl View for Message {
    type V = Seq<char>;

    closed spec fn view(&self) -> Seq<char> {
        self.0@
    }
}

/// What validating a message whose trimmed text is `t` and counts `graphemes`
/// clusters gives: the text itself, or the error.
pub open spec fn message_decision(t: Seq<char>, graphemes: nat) -> Result<Seq<char>, Error> {
    if t.len() == 0 {
        Err(Error::IsEmpty)
    } else if graphemes > MAX_MESSAGE_GRAPHEMES {
        Err(Error::IsGreaterThan2000)
    } else {
        Ok(t)
    }
}

/// What validating the raw input `raw` gives.
pub open spec fn message_outcome(raw: Seq<char>) -> Result<Seq<char>, Error> {
    message_decision(trimmed(raw), grapheme_count(trimmed(raw)))
}

/// `r` carries exactly the outcome `o`.
pub open spec fn message_result_is(r: Result<Message, Error>, o: Result<Seq<char>, Error>) -> bool {
    match o {
        Ok(t) => r is Ok && r->Ok_0@ == t,
        Err(e) => r == Err::<Message, Error>(e),
    }
}

impl Message {
    /// Validates an already trimmed text `t` that has `graphemes` grapheme clusters.
    pub fn from_trimmed(t: &str, graphemes: usize) -> (r: Result<Message, Error>)
        requires
            t@ == trimmed(t@),
        ensures
            message_result_is(r, message_decision(t@, graphemes as nat)),
    {
        if t.is_empty() {
            Err(Error::IsEmpty)
        } else if graphemes > MAX_MESSAGE_GRAPHEMES {
            Err(Error::IsGreaterThan2000)
        } else {
            Ok(Message(t.to_owned()))
        }
    }

    /// Trims `message` and validates what is left.
    pub fn new(message: &str) -> (r: Result<Message, Error>)
        ensures
            message_result_is(r, message_outcome(message@)),
    {
        let t = trim(message);
        proof {
            lemma_trimmed_idempotent(message@);
        }
        let graphemes = count_graphemes(t);
        Message::from_trimmed(t, graphemes)
    }

    /// The validated text.
    pub fn as_ref(&self) -> (r: &str)
        ensures
            r@ == self@,
    {
        self.0.as_str()
    }

    /// A copy of the validated text.
    pub fn to_string(&self) -> (r: String)
        ensures
            r@ == self@,
    {
        self.0.clone()
    }
}


/// At the limit: a message whose trimmed text is non-empty and has exactly
/// `MAX_MESSAGE_GRAPHEMES` grapheme clusters is accepted; with one cluster more it is
/// rejected as too long.
pub proof fn lemma_message_length_boundary(raw: Seq<char>, r: Result<Message, Error>)
    requires
        message_result_is(r, message_outcome(raw)),
        trimmed(raw).len() > 0,
    ensures
        grapheme_count(trimmed(raw)) == MAX_MESSAGE_GRAPHEMES ==> r is Ok && r->Ok_0@ == trimmed(raw),
        grapheme_count(trimmed(raw)) == MAX_MESSAGE_GRAPHEMES + 1 ==> r == Err::<Message, Error>(
            Error::IsGreaterThan2000,
        ),
{
}

/// White space of any length around a text that is its own trimmed form
/// counts neither towards the limit nor in the stored value.
pub proof fn lemma_message_padding_ignored(
    p: Seq<char>,
    c: Seq<char>,
    q: Seq<char>,
    r: Result<Message, Error>,
)
    requires
        is_blank(p),
        is_blank(q),
        trimmed(c) == c,
        c.len() > 0,
        grapheme_count(c) <= MAX_MESSAGE_GRAPHEMES,
        message_result_is(r, message_outcome(p + c + q)),
    ensures
        r is Ok && r->Ok_0@ == c,
{
    lemma_trim_padded(p, c, q);
}

/// A stored message validates again to itself: trimming it once more changes nothing.
pub proof fn lemma_message_revalidates(raw: Seq<char>, r: Result<Message, Error>)
    requires
        message_result_is(r, message_outcome(raw)),
        r is Ok,
    ensures
        message_outcome(r->Ok_0@) == Ok::<Seq<char>, Error>(r->Ok_0@),
{
    lemma_trimmed_idempotent(raw);
}

} // verus!
