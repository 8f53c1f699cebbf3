//! The sender's email address.
use crate::text::{
    contains_char, count_graphemes, grapheme_count, is_blank, lemma_trim_padded,
    lemma_trimmed_idempotent, lemma_trimmed_within, trim, trimmed,
};
use vstd::prelude::*;

verus! {

/// The largest number of grapheme clusters an email address may have.
pub const MAX_EMAIL_GRAPHEMES: usize = 300;

/// A trimmed, non-empty text of at most `MAX_EMAIL_GRAPHEMES` grapheme
/// clusters that contains an `@`.
#[derive(Debug, PartialEq, Eq, PartialOrd, Ord, Clone)]
pub struct Email(String);

/// Why an email address was rejected.
#[derive(Debug, PartialEq, Eq, PartialOrd, Ord, Clone, Copy, Structural)]
pub enum Error {
    IsEmpty,
    IsGreaterThan300,
    IsMissingAtSign,
}

impl View for Email {
    type V = Seq<char>;

    closed spec fn view(&self) -> Seq<char> {
        self.0@
    }
}

/// What validating an email whose trimmed text is `t` and counts `graphemes`
/// clusters gives. The checks come in this order: emptiness, length, `@`.
pub open spec fn email_decision(t: Seq<char>, graphemes: nat) -> Result<Seq<char>, Error> {
    if t.len() == 0 {
        Err(Error::IsEmpty)
    } else if graphemes > MAX_EMAIL_GRAPHEMES {
        Err(Error::IsGreaterThan300)
    } else if !t.contains('@') {
        Err(Error::IsMissingAtSign)
    } else {
        Ok(t)
    }
}

/// What validating the raw input `raw` gives.
pub open spec fn email_outcome(raw: Seq<char>) -> Result<Seq<char>, Error> {
    email_decision(trimmed(raw), grapheme_count(trimmed(raw)))
}

/// `r` carries exactly the outcome `o`.
pub open spec fn email_result_is(r: Result<Email, Error>, o: Result<Seq<char>, Error>) -> bool {
    match o {
        Ok(t) => r is Ok && r->Ok_0@ == t,
        Err(e) => r == Err::<Email, Error>(e),
    }
}

impl Email {
    /// Validates an already trimmed text `t` that has `graphemes` grapheme clusters.
    pub fn from_trimmed(t: &str, graphemes: usize) -> (r: Result<Email, Error>)
        requires
            t@ == trimmed(t@),
        ensures
            email_result_is(r, email_decision(t@, graphemes as nat)),
    {
        if t.is_empty() {
            Err(Error::IsEmpty)
        } else if graphemes > MAX_EMAIL_GRAPHEMES {
            Err(Error::IsGreaterThan300)
        } else if !contains_char(t, '@') {
            Err(Error::IsMissingAtSign)
        } else {
            Ok(Email(t.to_owned()))
        }
    }

    /// Trims `email` and validates what is left.
    pub fn new(email: &str) -> (r: Result<Email, Error>)
        ensures
            email_result_is(r, email_outcome(email@)),
    {
        let t = trim(email);
        proof {
            lemma_trimmed_idempotent(email@);
        }
        let graphemes = count_graphemes(t);
        Email::from_trimmed(t, graphemes)
    }

    /// The validated text.
    pub fn as_ref(&self) -> (r: &str)
        ensures
            r@ == self@,
    {
        self.0.as_str()
    }

    /// A copy of the validated text.
    pub fn to_string(&self) -> (r: String)
        ensures
            r@ == self@,
    {
        self.0.clone()
    }
}


/// At the limit: an email whose trimmed text is non-empty, holds an `@` and
/// has exactly `MAX_EMAIL_GRAPHEMES` grapheme clusters is accepted; with one
/// cluster more it is rejected as too long, `@` or not.
pub proof fn lemma_email_length_boundary(raw: Seq<char>, r: Result<Email, Error>)
    requires
        email_result_is(r, email_outcome(raw)),
        trimmed(raw).len() > 0,
    ensures
        grapheme_count(trimmed(raw)) == MAX_EMAIL_GRAPHEMES && trimmed(raw).contains('@') ==> r is Ok
            && r->Ok_0@ == trimmed(raw),
        grapheme_count(trimmed(raw)) == MAX_EMAIL_GRAPHEMES + 1 ==> r == Err::<Email, Error>(
            Error::IsGreaterThan300,
        ),
{
}

/// An input without `@` whose trimmed text is non-empty and within the limit
/// is rejected for the missing `@`.
pub proof fn lemma_email_needs_at_sign(raw: Seq<char>, r: Result<Email, Error>)
    requires
        email_result_is(r, email_outcome(raw)),
        !raw.contains('@'),
        trimmed(raw).len() > 0,
        grapheme_count(trimmed(raw)) <= MAX_EMAIL_GRAPHEMES,
    ensures
        r == Err::<Email, Error>(Error::IsMissingAtSign),
{
    if trimmed(raw).contains('@') {
        lemma_trimmed_within(raw, '@');
    }
}

/// White space of any length around a text that is its own trimmed form
/// counts neither towards the limit nor in the stored value.
pub proof fn lemma_email_padding_ignored(
    p: Seq<char>,
    c: Seq<char>,
    q: Seq<char>,
    r: Result<Email, Error>,
)
    requires
        is_blank(p),
        is_blank(q),
        trimmed(c) == c,
        c.len() > 0,
        c.contains('@'),
        grapheme_count(c) <= MAX_EMAIL_GRAPHEMES,
        email_result_is(r, email_outcome(p + c + q)),
    ensures
        r is Ok && r->Ok_0@ == c,
{
    lemma_trim_padded(p, c, q);
}

/// A stored email validates again to itself: trimming it once more changes nothing.
pub proof fn lemma_email_revalidates(raw: Seq<char>, r: Result<Email, Error>)
    requires
        email_result_is(r, email_outcome(raw)),
        r is Ok,
    ensures
        email_outcome(r->Ok_0@) == Ok::<Seq<char>, Error>(r->Ok_0@),
{
    lemma_trimmed_idempotent(raw);
}

} // verus!
