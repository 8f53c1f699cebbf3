//! The sender's name.
use crate::text::{
    count_graphemes, grapheme_count, is_blank, lemma_trim_padded, lemma_trimmed_idempotent, trim,
    trimmed,
};
use vstd::prelude::*;

verus! {

/// The largest number of grapheme clusters a name may have.
pub const MAX_NAME_GRAPHEMES: usize = 200;

/// A trimmed, non-empty name of at most `MAX_NAME_GRAPHEMES` grapheme clusters.
#[derive(Debug, PartialEq, Eq, PartialOrd, Ord, Clone)]
pub struct Name(String);

/// Why a name was rejected.
#[derive(Debug, PartialEq, Eq, PartialOrd, Ord, Clone, Copy, Structural)]
pub enum Error {
    IsEmpty,
    IsGreaterThan200,
}

impl View for Name {
    type V = Seq<char>;

    closed spec fn view(&self) -> Seq<char> {
        self.0@
    }
}

/// What validating a name whose trimmed text is `t` and counts `graphemes`
/// clusters gives: the text itself, or the error.
pub open spec fn name_decision(t: Seq<char>, graphemes: nat) -> Result<Seq<char>, Error> {
    if t.len() == 0 {
        Err(Error::IsEmpty)
    } else if graphemes > MAX_NAME_GRAPHEMES {
        Err(Error::IsGreaterThan200)
    } else {
        Ok(t)
    }
}

/// What validating the raw input `raw` gives.
pub open spec fn name_outcome(raw: Seq<char>) -> Result<Seq<char>, Error> {
    name_decision(trimmed(raw), grapheme_count(trimmed(raw)))
}

/// `r` carries exactly the outcome `o`.
pub open spec fn name_result_is(r: Result<Name, Error>, o: Result<Seq<char>, Error>) -> bool {
    match o {
        Ok(t) => r is Ok && r->Ok_0@ == t,
        Err(e) => r == Err::<Name, Error>(e),
    }
}

impl Name {
    /// Validates an already trimmed text `t` that has `graphemes` grapheme clusters.
    pub fn from_trimmed(t: &str, graphemes: usize) -> (r: Result<Name, Error>)
        requires
            t@ == trimmed(t@),
        ensures
            name_result_is(r, name_decision(t@, graphemes as nat)),
    {
        if t.is_empty() {
            Err(Error::IsEmpty)
        } else if graphemes > MAX_NAME_GRAPHEMES {
            Err(Error::IsGreaterThan200)
        } else {
            Ok(Name(t.to_owned()))
        }
    }

    /// Trims `name` and validates what is left.
    pub fn new(name: &str) -> (r: Result<Name, Error>)
        ensures
            name_result_is(r, name_outcome(name@)),
    {
        let t = trim(name);
        proof {
            lemma_trimmed_idempotent(name@);
        }
        let graphemes = count_graphemes(t);
        Name::from_trimmed(t, graphemes)
    }

    /// The validated text.
    pub fn as_ref(&self) -> (r: &str)
        ensures
            r@ == self@,
    {
        self.0.as_str()
    }

    /// A copy of the validated text.
    pub fn to_string(&self) -> (r: String)
        ensures
            r@ == self@,
    {
        self.0.clone()
    }
}


/// At the limit: a name whose trimmed text is non-empty and has exactly
/// `MAX_NAME_GRAPHEMES` grapheme clusters is accepted; with one cluster more it is
/// rejected as too long.
pub proof fn lemma_name_length_boundary(raw: Seq<char>, r: Result<Name, Error>)
    requires
        name_result_is(r, name_outcome(raw)),
        trimmed(raw).len() > 0,
    ensures
        grapheme_count(trimmed(raw)) == MAX_NAME_GRAPHEMES ==> r is Ok && r->Ok_0@ == trimmed(raw),
        grapheme_count(trimmed(raw)) == MAX_NAME_GRAPHEMES + 1 ==> r == Err::<Name, Error>(
            Error::IsGreaterThan200,
        ),
{
}

/// White space of any length around a text that is its own trimmed form
/// counts neither towards the limit nor in the stored value.
pub proof fn lemma_name_padding_ignored(
    p: Seq<char>,
    c: Seq<char>,
    q: Seq<char>,
    r: Result<Name, Error>,
)
    requires
        is_blank(p),
        is_blank(q),
        trimmed(c) == c,
        c.len() > 0,
        grapheme_count(c) <= MAX_NAME_GRAPHEMES,
        name_result_is(r, name_outcome(p + c + q)),
    ensures
        r is Ok && r->Ok_0@ == c,
{
    lemma_trim_padded(p, c, q);
}

/// A stored name validates again to itself: trimming it once more changes nothing.
pub proof fn lemma_name_revalidates(raw: Seq<char>, r: Result<Name, Error>)
    requires
        name_result_is(r, name_outcome(raw)),
        r is Ok,
    ensures
        name_outcome(r->Ok_0@) == Ok::<Seq<char>, Error>(r->Ok_0@),
{
    lemma_trimmed_idempotent(raw);
}

} // verus!
