//! The parts of `lettre` that message assembly uses: the mailbox, builder and
//! message types, and one wrapper per call.
use lettre::address::AddressError;
use lettre::message::{Mailbox, MessageBuilder};

use vstd::prelude::*;

verus! {

#[verifier::external_type_specification]
#[verifier::external_body]
pub struct ExMailbox(lettre::message::Mailbox);

#[verifier::external_type_specification]
#[verifier::external_body]
pub struct ExAddressError(lettre::address::AddressError);

#[verifier::external_type_specification]
#[verifier::external_body]
pub struct ExMessageBuilder(lettre::message::MessageBuilder);

/// A finished `lettre` message, the one payload that both the archive and
/// the relay are handed. Nothing here reads inside it.
#[verifier::external_body]
pub struct OutgoingMail {
    pub message: lettre::Message,
}

/// The result of parsing `s` as a mailbox (`user@domain` or
/// `Name <user@domain>`).
pub uninterp spec fn mailbox_parse(s: Seq<char>) -> Result<Mailbox, AddressError>;

/// Whether `s` parses as a mailbox.
pub open spec fn is_mailbox(s: Seq<char>) -> bool {
    mailbox_parse(s) is Ok
}

/// The mailbox that `s` parses to, where it does.
pub open spec fn mailbox_of(s: Seq<char>) -> Mailbox {
    mailbox_parse(s)->Ok_0
}

/// The mailboxes that the texts `addrs` parse to, in order.
pub open spec fn mailboxes_of(addrs: Seq<Seq<char>>) -> Seq<Mailbox> {
    addrs.map_values(|a: Seq<char>| mailbox_of(a))
}

/// A character that keeps an address text free of a display name, quotes,
/// list separators and white space: an ASCII letter or digit, `.`, `_`,
/// `+`, `-` or `@`.
pub open spec fn is_plain_address_char(c: char) -> bool {
    ||| ('a' <= c && c <= 'z')
    ||| ('A' <= c && c <= 'Z')
    ||| ('0' <= c && c <= '9')
    ||| c == '.'
    ||| c == '_'
    ||| c == '+'
    ||| c == '-'
    ||| c == '@'
}

/// Every character of the address text `s` is plain. The mailbox of such a
/// text is written to a header as the text itself, and reads back as the
/// same mailbox.
pub open spec fn is_plain_address(s: Seq<char>) -> bool {
    forall|i: int| 0 <= i < s.len() ==> is_plain_address_char(#[trigger] s[i])
}

/// Every address text of `addrs` is plain.
pub open spec fn all_plain_addresses(addrs: Seq<Seq<char>>) -> bool {
    forall|i: int| 0 <= i < addrs.len() ==> is_plain_address(#[trigger] addrs[i])
}

/// `m` is the mailbox of some plain address text.
pub open spec fn is_plain_mailbox(m: Mailbox) -> bool {
    exists|t: Seq<char>|
        is_plain_address(t) && #[trigger] mailbox_parse(t) == Ok::<Mailbox, AddressError>(m)
}

/// Every mailbox of `ms` is the mailbox of a plain address text.
pub open spec fn all_plain(ms: Seq<Mailbox>) -> bool {
    forall|i: int| 0 <= i < ms.len() ==> is_plain_mailbox(#[trigger] ms[i])
}

/// The mailbox of a plain address text that parses is plain.
pub proof fn lemma_plain_mailbox(t: Seq<char>)
    requires
        is_plain_address(t),
        is_mailbox(t),
    ensures
        is_plain_mailbox(mailbox_of(t)),
{
    assert(mailbox_parse(t) == Ok::<Mailbox, AddressError>(mailbox_of(t)));
}

/// `s` with CRLF line endings: a `\r` goes in front of every `\n` that does
/// not already follow one.
pub open spec fn crlf(s: Seq<char>) -> Seq<char>
    decreases s.len(),
{
    if s.len() == 0 {
        s
    } else if s.last() == '\n' && (s.len() == 1 || s[s.len() - 2] != '\r') {
        crlf(s.drop_last()) + seq!['\r', '\n']
    } else {
        crlf(s.drop_last()).push(s.last())
    }
}

/// What a builder holds, as `lettre` reads it back from the header texts:
/// the `From` mailboxes and the `To` mailboxes (empty where a header cannot
/// be read back), and the subject, if one was set.
pub uninterp spec fn builder_headers(b: MessageBuilder) -> (Seq<Mailbox>, Seq<Mailbox>, Option<Seq<char>>);

/// What a finished message holds: its `From`, `To` and `Subject` headers as
/// `lettre` reads them back, and its body text before transfer encoding.
pub uninterp spec fn mail_content(m: OutgoingMail) -> ((Seq<Mailbox>, Seq<Mailbox>, Option<Seq<char>>), Seq<char>);

/// Relies on `<Mailbox as FromStr>::from_str`: the result depends on the
/// text alone.
#[verifier::external_body]
pub(crate) fn parse_mailbox(s: &str) -> (r: Result<Mailbox, AddressError>)
    ensures
        r == mailbox_parse(s@),
{
    s.parse::<Mailbox>()
}

/// Relies on `Message::builder` (`MessageBuilder::new`): a builder with no
/// headers set.
#[verifier::external_body]
pub(crate) fn message_builder() -> (r: MessageBuilder)
    ensures
        builder_headers(r) == (Seq::<Mailbox>::empty(), Seq::<Mailbox>::empty(), None::<Seq<char>>),
{
    lettre::Message::builder()
}

/// Relies on `MessageBuilder::from`: reads the `From` header back, adds the
/// mailbox after those already there and writes the header again. Only
/// plain mailboxes are sure to read back unchanged; other headers are left
/// as they were.
#[verifier::external_body]
pub(crate) fn with_from(b: MessageBuilder, mbox: Mailbox) -> (r: MessageBuilder)
    ensures
        all_plain(builder_headers(b).0) && is_plain_mailbox(mbox) ==> builder_headers(r).0
            == builder_headers(b).0.push(mbox),
        builder_headers(r).1 == builder_headers(b).1,
        builder_headers(r).2 == builder_headers(b).2,
{
    b.from(mbox)
}

/// Relies on `MessageBuilder::to`: reads the `To` header back, adds the
/// mailbox after those already there and writes the header again. Only
/// plain mailboxes are sure to read back unchanged; other headers are left
/// as they were.
#[verifier::external_body]
pub(crate) fn with_to(b: MessageBuilder, mbox: Mailbox) -> (r: MessageBuilder)
    ensures
        builder_headers(r).0 == builder_headers(b).0,
        all_plain(builder_headers(b).1) && is_plain_mailbox(mbox) ==> builder_headers(r).1
            == builder_headers(b).1.push(mbox),
        builder_headers(r).2 == builder_headers(b).2,
{
    b.to(mbox)
}

/// Relies on `MessageBuilder::subject`: sets the `Subject` header.
#[verifier::external_body]
pub(crate) fn with_subject(b: MessageBuilder, subject: String) -> (r: MessageBuilder)
    ensures
        builder_headers(r) == (builder_headers(b).0, builder_headers(b).1, Some(subject@)),
{
    b.subject(subject)
}

/// Relies on `MessageBuilder::body`: finishes the message with a text body,
/// whose line endings become CRLF. It fails only when `From` does not read
/// back as one mailbox (without a `Sender`) or no recipient reads back; the
/// error is handed back as its text. The headers are kept as they were.
#[verifier::external_body]
pub(crate) fn with_body(b: MessageBuilder, body: String) -> (r: Result<OutgoingMail, String>)
    ensures
        builder_headers(b).0.len() == 1 && builder_headers(b).1.len() > 0 ==> r is Ok,
        r is Ok ==> mail_content(r->Ok_0) == (builder_headers(b), crlf(body@)),
{
    match b.body(body) {
        Ok(message) => Ok(OutgoingMail { message }),
        Err(e) => Err(format!("{}", e)),
    }
}

} // verus!
