//! Delivery of a validated contact: one message is assembled, archived, and
//! then handed to the relay, each step only once the one before succeeded.
use crate::contact::Contact;
use crate::text::texts;
use lettre::message::Mailbox;
use crate::mail::{
    all_plain, all_plain_addresses, builder_headers, crlf, is_mailbox, is_plain_mailbox,
    lemma_plain_mailbox,
    mail_content, mailbox_of, mailboxes_of, message_builder, parse_mailbox, with_body, with_from,
    with_subject, with_to,
    OutgoingMail,
};
use vstd::prelude::*;

verus! {

/// Why a delivery did not complete.
#[derive(Debug, PartialEq, Eq, Clone)]
pub enum DeliveryError {
    /// A configured address, given here, does not parse as a mailbox.
    InvalidAddress(String),
    /// The message could not be assembled; the text says why.
    Assembly(String),
    /// Writing the archive copy failed.
    Archive,
    /// Handing the message to the relay failed.
    Relay,
}

impl DeliveryError {
    /// An equal copy of this error.
    pub fn duplicate(&self) -> (r: DeliveryError)
        ensures
            r == *self,
    {
        match self {
            DeliveryError::InvalidAddress(a) => DeliveryError::InvalidAddress(a.clone()),
            DeliveryError::Assembly(t) => DeliveryError::Assembly(t.clone()),
            DeliveryError::Archive => DeliveryError::Archive,
            DeliveryError::Relay => DeliveryError::Relay,
        }
    }
}

/// The message to send, as plain text: sender, recipients in order, subject
/// and body.
#[derive(Debug, Clone)]
pub struct OutboundMessage {
    pub from: String,
    pub to: Vec<String>,
    pub subject: String,
    pub body: String,
}

/// The subject of the message for a contact: the name, a space, and the
/// email in parentheses.
pub open spec fn subject_text(name: Seq<char>, email: Seq<char>) -> Seq<char> {
    name + " ("@ + email + ")"@
}

/// The first address of `addrs` that does not parse as a mailbox.
pub open spec fn first_invalid(addrs: Seq<Seq<char>>) -> Option<Seq<char>>
    decreases addrs.len(),
{
    if addrs.len() == 0 {
        None
    } else if !is_mailbox(addrs[0]) {
        Some(addrs[0])
    } else {
        first_invalid(addrs.drop_first())
    }
}

/// Sender and recipients that every message goes out with.
#[derive(Debug, Clone)]
pub struct Outbox {
    from: String,
    recipients: Vec<String>,
}

/// Where a delivery stands.
#[derive(Debug, PartialEq, Eq)]
pub enum Stage {
    /// The archive copy is to be written.
    Archiving,
    /// The archive copy exists; the relay is to be handed the message.
    Relaying,
    /// Nothing is left to do; this is the outcome.
    Finished(Result<(), DeliveryError>),
}

/// What the caller is to do next.
#[derive(Debug, PartialEq, Eq)]
pub enum Action {
    /// Write the message to the archive, then report whether that succeeded.
    Archive,
    /// Hand the message to the relay, then report whether that succeeded.
    Relay,
    /// Stop, with this outcome.
    Finish(Result<(), DeliveryError>),
}

/// The stage after the pending step reported `succeeded`.
pub open spec fn transition(s: Stage, succeeded: bool) -> Stage {
    match s {
        Stage::Archiving => if succeeded {
            Stage::Relaying
        } else {
            Stage::Finished(Err(DeliveryError::Archive))
        },
        Stage::Relaying => if succeeded {
            Stage::Finished(Ok(()))
        } else {
            Stage::Finished(Err(DeliveryError::Relay))
        },
        Stage::Finished(r) => Stage::Finished(r),
    }
}

/// What a delivery at stage `s` asks the caller to do.
pub open spec fn action_of(s: Stage) -> Action {
    match s {
        Stage::Archiving => Action::Archive,
        Stage::Relaying => Action::Relay,
        Stage::Finished(r) => Action::Finish(r),
    }
}

/// The actions asked for, one after another, by a delivery that starts at
/// stage `s` and is told the reports in `reports`.
pub open spec fn actions(s: Stage, reports: Seq<bool>) -> Seq<Action>
    decreases reports.len(),
{
    if reports.len() == 0 {
        seq![action_of(s)]
    } else {
        seq![action_of(s)] + actions(transition(s, reports[0]), reports.drop_first())
    }
}

/// One delivery: the assembled message and how far it has gone.
pub struct Delivery {
    outbound: OutboundMessage,
    mail: OutgoingMail,
    stage: Stage,
}

impl Delivery {
    /// The stage this delivery is at.
    pub closed spec fn stage_spec(&self) -> Stage {
        self.stage
    }

    /// The message, as plain text.
    pub closed spec fn outbound_spec(&self) -> OutboundMessage {
        self.outbound
    }

    /// The assembled message that every step is handed.
    pub closed spec fn mail_spec(&self) -> &OutgoingMail {
        &self.mail
    }

    /// The stage this delivery is at.
    pub fn stage(&self) -> (r: &Stage)
        ensures
            *r == self.stage_spec(),
    {
        &self.stage
    }

    /// The message, as plain text.
    pub fn outbound(&self) -> (r: &OutboundMessage)
        ensures
            *r == self.outbound_spec(),
    {
        &self.outbound
    }

    /// The assembled message: the one value that both the archive and the
    /// relay are handed.
    pub fn mail(&self) -> (r: &OutgoingMail)
        ensures
            r == self.mail_spec(),
    {
        &self.mail
    }

    /// What the caller is to do now.
    pub fn next_action(&self) -> (r: Action)
        ensures
            r == action_of(self.stage_spec()),
    {
        match &self.stage {
            Stage::Archiving => Action::Archive,
            Stage::Relaying => Action::Relay,
            Stage::Finished(r) => match r {
                Ok(u) => Action::Finish(Ok(*u)),
                Err(e) => Action::Finish(Err(e.duplicate())),
            },
        }
    }
}


impl Delivery {
    /// Takes the report of the pending step and moves on: the relay is asked
    /// for only once the archive copy was written, and a failure ends the
    /// delivery with that step's error. The message is left as it is.
    pub fn record(&mut self, succeeded: bool) -> (r: Action)
        ensures
            final(self).stage_spec() == transition(old(self).stage_spec(), succeeded),
            final(self).outbound_spec() == old(self).outbound_spec(),
            final(self).mail_spec() == old(self).mail_spec(),
            r == action_of(final(self).stage_spec()),
    {
        let next = match &self.stage {
            Stage::Archiving => if succeeded {
                Stage::Relaying
            } else {
                Stage::Finished(Err(DeliveryError::Archive))
            },
            Stage::Relaying => if succeeded {
                Stage::Finished(Ok(()))
            } else {
                Stage::Finished(Err(DeliveryError::Relay))
            },
            Stage::Finished(_) => {
                return self.next_action();
            },
        };
        self.stage = next;
        self.next_action()
    }
}

/// A finished delivery asks for nothing but to finish with its outcome.
proof fn lemma_finished_stays(r: Result<(), DeliveryError>, reports: Seq<bool>)
    ensures
        actions(Stage::Finished(r), reports).len() == reports.len() + 1,
        forall|i: int|
            0 <= i < reports.len() + 1 ==> #[trigger] actions(Stage::Finished(r), reports)[i]
                == Action::Finish(r),
    decreases reports.len(),
{
    if reports.len() > 0 {
        lemma_finished_stays(r, reports.drop_first());
        let rest = actions(Stage::Finished(r), reports.drop_first());
        assert forall|i: int| 0 <= i < reports.len() + 1 implies #[trigger] actions(
            Stage::Finished(r),
            reports,
        )[i] == Action::Finish(r) by {
            if i > 0 {
                assert(actions(Stage::Finished(r), reports)[i] == rest[i - 1]);
            }
        }
    }
}

/// The order of a delivery: the archive copy is asked for first and once; the
/// relay is asked for at most once, right after it, and only when the archive
/// copy was written; everything after that is the final outcome.
pub proof fn lemma_archive_before_relay(reports: Seq<bool>)
    ensures
        actions(Stage::Archiving, reports).len() == reports.len() + 1,
        actions(Stage::Archiving, reports)[0] == Action::Archive,
        forall|i: int|
            1 <= i < reports.len() + 1 ==> (#[trigger] actions(Stage::Archiving, reports)[i]
                == Action::Relay <==> (i == 1 && reports[0])),
        forall|i: int|
            1 <= i < reports.len() + 1 ==> #[trigger] actions(Stage::Archiving, reports)[i]
                != Action::Archive,
{
    let acts = actions(Stage::Archiving, reports);
    if reports.len() > 0 {
        let rest = reports.drop_first();
        if reports[0] {
            if rest.len() > 0 {
                let fin = transition(Stage::Relaying, rest[0]);
                lemma_finished_stays(fin->Finished_0, rest.drop_first());
                let tail = actions(fin, rest.drop_first());
                assert forall|i: int| 2 <= i < reports.len() + 1 implies acts[i] == action_of(fin) by {
                    assert(acts[i] == actions(Stage::Relaying, rest)[i - 1]);
                    assert(actions(Stage::Relaying, rest)[i - 1] == tail[i - 2]);
                }
            }
            assert(acts[1] == actions(Stage::Relaying, rest)[0]);
        } else {
            let fin = Stage::Finished(Err(DeliveryError::Archive));
            lemma_finished_stays(Err(DeliveryError::Archive), rest);
            assert forall|i: int| 1 <= i < reports.len() + 1 implies acts[i] == action_of(fin) by {
                assert(acts[i] == actions(fin, rest)[i - 1]);
            }
        }
    }
}

/// When the archive write fails the relay is never asked for, whatever is
/// reported afterwards, and the delivery ends with the archive error.
pub proof fn lemma_failed_archive_never_relays(reports: Seq<bool>)
    requires
        reports.len() > 0,
        !reports[0],
    ensures
        forall|i: int|
            0 <= i < actions(Stage::Archiving, reports).len() ==> #[trigger] actions(
                Stage::Archiving,
                reports,
            )[i] != Action::Relay,
        actions(Stage::Archiving, reports).last() == Action::Finish(Err(DeliveryError::Archive)),
{
    lemma_archive_before_relay(reports);
    let rest = reports.drop_first();
    lemma_finished_stays(Err(DeliveryError::Archive), rest);
    assert(actions(Stage::Archiving, reports).last() == actions(
        Stage::Finished(Err(DeliveryError::Archive)),
        rest,
    )[rest.len() as int]);
}

/// When both steps succeed the message is archived once, relayed once, and
/// the delivery ends in success.
pub proof fn lemma_successful_delivery(reports: Seq<bool>)
    requires
        reports == seq![true, true],
    ensures
        actions(Stage::Archiving, reports) == seq![
            Action::Archive,
            Action::Relay,
            Action::Finish(Ok(())),
        ],
{
    let r1 = reports.drop_first();
    let r2 = r1.drop_first();
    assert(r1 =~= seq![true]);
    assert(r2 =~= Seq::<bool>::empty());
    assert(actions(Stage::Finished(Ok(())), r2) == seq![Action::Finish(Ok(()))]);
    assert(actions(Stage::Relaying, r1) =~= seq![Action::Relay, Action::Finish(Ok(()))]);
    assert(actions(Stage::Archiving, reports) =~= seq![
        Action::Archive,
        Action::Relay,
        Action::Finish(Ok(())),
    ]);
}


/// `m` is the message for `contact` sent from `from` to `recipients`: the
/// recipients in their configured order, the subject made of the name and
/// the email, and the message text as the body.
pub open spec fn composed(
    m: OutboundMessage,
    from: Seq<char>,
    recipients: Seq<Seq<char>>,
    contact: Contact,
) -> bool {
    &&& m.from@ == from
    &&& texts(m.to@) == recipients
    &&& m.subject@ == subject_text(contact.name@, contact.email@)
    &&& m.body@ == contact.message@
}

/// `mail` was built from `m`: the sender's mailbox as `From`, the
/// recipients' mailboxes in order as `To`, the subject, and the body with
/// CRLF line endings.
pub open spec fn mail_carries(mail: OutgoingMail, m: OutboundMessage) -> bool {
    mail_content(mail) == (
        (seq![mailbox_of(m.from@)], mailboxes_of(texts(m.to@)), Some(m.subject@)),
        crlf(m.body@),
    )
}

/// Every address of `addrs` before index `k` parses, so the first one that
/// does not lies at `k` or after.
proof fn lemma_first_invalid_skip(addrs: Seq<Seq<char>>, k: int)
    requires
        0 <= k <= addrs.len(),
        forall|j: int| 0 <= j < k ==> is_mailbox(#[trigger] addrs[j]),
    ensures
        first_invalid(addrs) == first_invalid(addrs.subrange(k, addrs.len() as int)),
    decreases k,
{
    if k > 0 {
        let rest = addrs.drop_first();
        assert forall|j: int| 0 <= j < k - 1 implies is_mailbox(#[trigger] rest[j]) by {
            assert(rest[j] == addrs[j + 1]);
        }
        lemma_first_invalid_skip(rest, k - 1);
        assert(rest.subrange(k - 1, rest.len() as int) =~= addrs.subrange(k, addrs.len() as int));
    } else {
        assert(addrs.subrange(0, addrs.len() as int) =~= addrs);
    }
}

impl Outbox {
    /// The sender's address.
    pub closed spec fn from_spec(&self) -> Seq<char> {
        self.from@
    }

    /// The recipients' addresses, in order.
    pub closed spec fn recipients_spec(&self) -> Seq<Seq<char>> {
        texts(self.recipients@)
    }

    /// The addresses that a delivery parses, sender first.
    pub open spec fn addresses(&self) -> Seq<Seq<char>> {
        seq![self.from_spec()] + self.recipients_spec()
    }

    /// An outbox that sends from `from` to `recipients`, in that order.
    pub fn new(from: String, recipients: Vec<String>) -> (r: Outbox)
        ensures
            r.from_spec() == from@,
            r.recipients_spec() == texts(recipients@),
    {
        Outbox { from, recipients }
    }

    /// The subject for `contact`: `"<name> (<email>)"`.
    pub fn subject_line(contact: &Contact) -> (r: String)
        ensures
            r@ == subject_text(contact.name@, contact.email@),
    {
        let mut s = contact.name.to_string();
        s.append(" (");
        s.append(contact.email.as_ref());
        s.append(")");
        s
    }

    /// The message for `contact`, as plain text.
    pub fn compose(&self, contact: &Contact) -> (r: OutboundMessage)
        ensures
            composed(r, self.from_spec(), self.recipients_spec(), *contact),
    {
        let mut to: Vec<String> = Vec::new();
        let mut i: usize = 0;
        while i < self.recipients.len()
            invariant
                i <= self.recipients@.len(),
                to@.len() == i,
                forall|k: int| 0 <= k < i ==> #[trigger] to@[k]@ == self.recipients@[k]@,
            decreases self.recipients@.len() - i,
        {
            to.push(self.recipients[i].clone());
            i = i + 1;
        }
        assert(texts(to@) =~= texts(self.recipients@));
        OutboundMessage {
            from: self.from.clone(),
            to,
            subject: Outbox::subject_line(contact),
            body: contact.message.to_string(),
        }
    }

    /// Assembles the message for `contact` into a delivery that is still to
    /// be archived. The sender and then each recipient, in order, must parse
    /// as a mailbox: the first that does not is the error. Once all parse,
    /// the delivery holds the composed message. Where every address is
    /// plain (see `is_plain_address`), the mail carries exactly the composed
    /// sender, recipients, subject and body, and assembly fails only when
    /// there is no recipient. Other addresses that parse are accepted as
    /// well; for them `lettre` may not read a header back as it was given.
    pub fn prepare(&self, contact: &Contact) -> (r: Result<Delivery, DeliveryError>)
        ensures
            match first_invalid(self.addresses()) {
                Some(a) => r is Err && r->Err_0 is InvalidAddress && r->Err_0->InvalidAddress_0@
                    == a,
                None => {
                    &&& all_plain_addresses(self.addresses()) && self.recipients_spec().len() > 0
                        ==> r is Ok
                    &&& match r {
                        Ok(d) => {
                            &&& d.stage_spec() == Stage::Archiving
                            &&& composed(
                                d.outbound_spec(),
                                self.from_spec(),
                                self.recipients_spec(),
                                *contact,
                            )
                            &&& all_plain_addresses(self.addresses()) ==> mail_carries(
                                *d.mail_spec(),
                                d.outbound_spec(),
                            )
                        },
                        Err(e) => {
                            &&& e is Assembly
                            &&& all_plain_addresses(self.addresses()) ==> self.recipients_spec().len()
                                == 0
                        },
                    }
                },
            },
    {
        let m = self.compose(contact);
        let ghost addrs = self.addresses();
        assert(addrs[0] == m.from@);
        assert forall|k: int| 0 <= k < m.to@.len() implies addrs[k + 1] == #[trigger] m.to@[k]@ by {
            assert(texts(m.to@)[k] == m.to@[k]@);
        }
        let from = match parse_mailbox(m.from.as_str()) {
            Ok(mb) => mb,
            Err(_) => {
                return Err(DeliveryError::InvalidAddress(m.from.clone()));
            },
        };
        let b0 = message_builder();
        proof {
            if all_plain_addresses(addrs) {
                lemma_plain_mailbox(addrs[0]);
                assert(all_plain(builder_headers(b0).0));
                assert(seq![mailbox_of(m.from@)] =~= builder_headers(b0).0.push(mailbox_of(m.from@)));
                assert(mailboxes_of(texts(m.to@).subrange(0, 0)) =~= Seq::<Mailbox>::empty());
            }
        }
        let mut builder = with_from(b0, from);
        builder = with_subject(builder, m.subject.clone());
        let mut i: usize = 0;
        while i < m.to.len()
            invariant
                i <= m.to@.len(),
                all_plain_addresses(addrs) ==> builder_headers(builder) == (
                    seq![mailbox_of(m.from@)],
                    mailboxes_of(texts(m.to@).subrange(0, i as int)),
                    Some(m.subject@),
                ),
                addrs == self.addresses(),
                composed(m, self.from_spec(), self.recipients_spec(), *contact),
                addrs.len() == m.to@.len() + 1,
                forall|k: int| 0 <= k < m.to@.len() ==> addrs[k + 1] == #[trigger] m.to@[k]@,
                forall|j: int| 0 <= j < i + 1 ==> is_mailbox(#[trigger] addrs[j]),
            decreases m.to@.len() - i,
        {
            match parse_mailbox(m.to[i].as_str()) {
                Ok(mb) => {
                    proof {
                        if all_plain_addresses(addrs) {
                            let done = mailboxes_of(texts(m.to@).subrange(0, i as int));
                            assert forall|k: int| 0 <= k < done.len() implies is_plain_mailbox(
                                #[trigger] done[k],
                            ) by {
                                assert(done[k] == mailbox_of(addrs[k + 1]));
                                lemma_plain_mailbox(addrs[k + 1]);
                            }
                            lemma_plain_mailbox(addrs[i + 1]);
                        }
                    }
                    builder = with_to(builder, mb);
                    assert(mailboxes_of(texts(m.to@).subrange(0, i + 1)) =~= mailboxes_of(
                        texts(m.to@).subrange(0, i as int),
                    ).push(mailbox_of(m.to@[i as int]@)));
                },
                Err(_) => {
                    proof {
                        lemma_first_invalid_skip(addrs, i + 1);
                        let sub = addrs.subrange(i + 1, addrs.len() as int);
                        assert(sub[0] == addrs[i + 1]);
                        assert(addrs[i + 1] == m.to@[i as int]@);
                        assert(!is_mailbox(sub[0]));
                        assert(first_invalid(sub) == Some(sub[0]));
                    }
                    let bad = m.to[i].clone();
                    assert(bad@ == addrs[i + 1]);
                    return Err(DeliveryError::InvalidAddress(bad));
                },
            }
            i = i + 1;
        }
        proof {
            lemma_first_invalid_skip(addrs, addrs.len() as int);
            assert(texts(m.to@).subrange(0, m.to@.len() as int) =~= texts(m.to@));
        }
        let body = m.body.clone();
        match with_body(builder, body) {
            Ok(mail) => Ok(Delivery { outbound: m, mail, stage: Stage::Archiving }),
            Err(text) => Err(DeliveryError::Assembly(text)),
        }
    }
}


/// The mail of a prepared delivery, the one value that the archive and the
/// relay are both handed, carries the configured sender as `From`, the
/// configured recipients in their order as `To`, the subject
/// `"<name> (<email>)"` and the contact's message, with CRLF line endings,
/// as body.
pub proof fn lemma_mail_matches_contact(
    mail: OutgoingMail,
    m: OutboundMessage,
    from: Seq<char>,
    recipients: Seq<Seq<char>>,
    contact: Contact,
)
    requires
        composed(m, from, recipients, contact),
        mail_carries(mail, m),
    ensures
        mail_content(mail) == (
            (
                seq![mailbox_of(from)],
                mailboxes_of(recipients),
                Some(subject_text(contact.name@, contact.email@)),
            ),
            crlf(contact.message@),
        ),
{
}

} // verus!
