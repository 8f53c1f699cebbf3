//! Text primitives used by the field validators: whitespace trimming,
//! grapheme-cluster counting and character search.
use unicode_segmentation::UnicodeSegmentation;
use vstd::prelude::*;

verus! {

/// The Unicode `White_Space` property, which is what `char::is_whitespace`
/// and `str::trim` go by.
pub open spec fn is_white_space(c: char) -> bool {
    ||| ('\u{9}' <= c && c <= '\u{d}')
    ||| c == ' '
    ||| c == '\u{85}'
    ||| c == '\u{a0}'
    ||| c == '\u{1680}'
    ||| ('\u{2000}' <= c && c <= '\u{200a}')
    ||| c == '\u{2028}'
    ||| c == '\u{2029}'
    ||| c == '\u{202f}'
    ||| c == '\u{205f}'
    ||| c == '\u{3000}'
}

/// `s` without its leading white space.
pub open spec fn trim_start(s: Seq<char>) -> Seq<char>
    decreases s.len(),
{
    if s.len() > 0 && is_white_space(s[0]) {
        trim_start(s.drop_first())
    } else {
        s
    }
}

/// `s` without its trailing white space.
pub open spec fn trim_end(s: Seq<char>) -> Seq<char>
    decreases s.len(),
{
    if s.len() > 0 && is_white_space(s.last()) {
        trim_end(s.drop_last())
    } else {
        s
    }
}

/// `s` without leading and trailing white space.
pub open spec fn trimmed(s: Seq<char>) -> Seq<char> {
    trim_end(trim_start(s))
}

/// Every character of `s` is white space.
pub open spec fn is_blank(s: Seq<char>) -> bool {
    forall|i: int| 0 <= i < s.len() ==> is_white_space(#[trigger] s[i])
}

/// Trimming removes a blank text entirely.
pub proof fn lemma_blank_trims_to_empty(s: Seq<char>)
    requires
        is_blank(s),
    ensures
        trimmed(s).len() == 0,
    decreases s.len(),
{
    if s.len() > 0 {
        assert(is_white_space(s[0]));
        let t = s.drop_first();
        assert forall|i: int| 0 <= i < t.len() implies is_white_space(#[trigger] t[i]) by {
            assert(t[i] == s[i + 1]);
        }
        lemma_blank_trims_to_empty(t);
        assert(trim_start(s) == trim_start(t));
    }
}

/// Removing leading white space keeps no character that `s` lacks.
proof fn lemma_trim_start_within(s: Seq<char>, c: char)
    requires
        trim_start(s).contains(c),
    ensures
        s.contains(c),
    decreases s.len(),
{
    if s.len() > 0 && is_white_space(s[0]) {
        lemma_trim_start_within(s.drop_first(), c);
        let i = choose|i: int| 0 <= i < s.drop_first().len() && s.drop_first()[i] == c;
        assert(s[i + 1] == c);
    }
}

/// Removing trailing white space keeps no character that `s` lacks.
proof fn lemma_trim_end_within(s: Seq<char>, c: char)
    requires
        trim_end(s).contains(c),
    ensures
        s.contains(c),
    decreases s.len(),
{
    if s.len() > 0 && is_white_space(s.last()) {
        lemma_trim_end_within(s.drop_last(), c);
        let i = choose|i: int| 0 <= i < s.drop_last().len() && s.drop_last()[i] == c;
        assert(s[i] == c);
    }
}

/// A character of the trimmed text is a character of the text.
pub proof fn lemma_trimmed_within(s: Seq<char>, c: char)
    requires
        trimmed(s).contains(c),
    ensures
        s.contains(c),
{
    lemma_trim_end_within(trim_start(s), c);
    lemma_trim_start_within(s, c);
}

/// Leading white space in front of a text that does not start with white
/// space is all that `trim_start` removes.
proof fn lemma_trim_start_prefix(p: Seq<char>, s: Seq<char>)
    requires
        is_blank(p),
        s.len() == 0 || !is_white_space(s[0]),
    ensures
        trim_start(p + s) == s,
    decreases p.len(),
{
    if p.len() == 0 {
        assert(p + s =~= s);
    } else {
        assert(is_white_space(p[0]));
        let t = p.drop_first();
        assert forall|i: int| 0 <= i < t.len() implies is_white_space(#[trigger] t[i]) by {
            assert(t[i] == p[i + 1]);
        }
        assert((p + s).drop_first() =~= t + s);
        lemma_trim_start_prefix(t, s);
    }
}

/// Trailing white space behind a text that does not end with white space is
/// all that `trim_end` removes.
proof fn lemma_trim_end_suffix(s: Seq<char>, q: Seq<char>)
    requires
        is_blank(q),
        s.len() == 0 || !is_white_space(s.last()),
    ensures
        trim_end(s + q) == s,
    decreases q.len(),
{
    if q.len() == 0 {
        assert(s + q =~= s);
    } else {
        assert(is_white_space(q.last()));
        let t = q.drop_last();
        assert forall|i: int| 0 <= i < t.len() implies is_white_space(#[trigger] t[i]) by {
            assert(t[i] == q[i]);
        }
        assert((s + q).drop_last() =~= s + t);
        assert((s + q).last() == q.last());
        lemma_trim_end_suffix(s, t);
    }
}

/// `trim_start` leaves a text that does not start with white space.
proof fn lemma_trim_start_result(s: Seq<char>)
    ensures
        trim_start(s).len() == 0 || !is_white_space(trim_start(s)[0]),
    decreases s.len(),
{
    if s.len() > 0 && is_white_space(s[0]) {
        lemma_trim_start_result(s.drop_first());
    }
}

/// `trim_end` keeps a prefix of the text and leaves one that does not end
/// with white space.
proof fn lemma_trim_end_result(s: Seq<char>)
    ensures
        trim_end(s).len() <= s.len(),
        trim_end(s) =~= s.subrange(0, trim_end(s).len() as int),
        trim_end(s).len() == 0 || !is_white_space(trim_end(s).last()),
    decreases s.len(),
{
    if s.len() > 0 && is_white_space(s.last()) {
        lemma_trim_end_result(s.drop_last());
    }
}

/// A trimmed text neither starts nor ends with white space.
pub proof fn lemma_trimmed_bounds(s: Seq<char>)
    ensures
        trimmed(s).len() == 0 || !is_white_space(trimmed(s)[0]),
        trimmed(s).len() == 0 || !is_white_space(trimmed(s).last()),
{
    lemma_trim_start_result(s);
    lemma_trim_end_result(trim_start(s));
    let t = trimmed(s);
    if t.len() > 0 {
        assert(t[0] == trim_start(s)[0]);
    }
}

/// Surrounding a text that is its own trimmed form with white space of any
/// length changes nothing that trimming gives.
pub proof fn lemma_trim_padded(p: Seq<char>, c: Seq<char>, q: Seq<char>)
    requires
        is_blank(p),
        is_blank(q),
        trimmed(c) == c,
    ensures
        trimmed(p + c + q) == c,
{
    lemma_trimmed_bounds(c);
    let s = p + c + q;
    if c.len() > 0 {
        assert(s =~= p + (c + q));
        assert((c + q)[0] == c[0]);
        lemma_trim_start_prefix(p, c + q);
        lemma_trim_end_suffix(c, q);
    } else {
        assert forall|i: int| 0 <= i < s.len() implies is_white_space(#[trigger] s[i]) by {
            if i < p.len() {
                assert(s[i] == p[i]);
            } else {
                assert(s[i] == q[i - p.len()]);
            }
        }
        lemma_blank_trims_to_empty(s);
        assert(trimmed(s) =~= c);
    }
}

/// Trimming twice gives what trimming once does.
pub proof fn lemma_trimmed_idempotent(s: Seq<char>)
    ensures
        trimmed(trimmed(s)) == trimmed(s),
{
    let t = trimmed(s);
    lemma_trimmed_bounds(s);
    lemma_trim_start_prefix(Seq::empty(), t);
    assert(Seq::<char>::empty() + t =~= t);
    lemma_trim_end_suffix(t, Seq::empty());
    assert(t + Seq::<char>::empty() =~= t);
}

/// The views of a list of strings.
pub open spec fn texts(v: Seq<String>) -> Seq<Seq<char>> {
    v.map_values(|s: String| s@)
}

/// The number of extended grapheme clusters (user-perceived characters) in `s`.
pub uninterp spec fn grapheme_count(s: Seq<char>) -> nat;

/// Relies on `str::trim`: the slice without leading and trailing characters
/// that have the `White_Space` property.
#[verifier::external_body]
pub(crate) fn trim(s: &str) -> (r: &str)
    ensures
        r@ == trimmed(s@),
{
    s.trim()
}

/// Relies on `UnicodeSegmentation::graphemes` (extended clusters) and
/// `Iterator::count`: the number of grapheme clusters in `s`.
#[verifier::external_body]
pub(crate) fn count_graphemes(s: &str) -> (r: usize)
    ensures
        r as nat == grapheme_count(s@),
{
    s.graphemes(true).count()
}

/// Relies on `str::contains` with a `char` pattern: whether `c` occurs in `s`.
#[verifier::external_body]
pub(crate) fn contains_char(s: &str, c: char) -> (r: bool)
    ensures
        r == s@.contains(c),
{
    s.contains(c)
}

} // verus!
