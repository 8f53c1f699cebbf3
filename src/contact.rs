//! A validated contact-form submission.
pub mod email;
pub mod message;
pub mod name;

use vstd::prelude::*;

pub use self::email::Email;
pub use self::email::Error as EmailError;
pub use self::message::Error as MessageError;
pub use self::message::Message;
pub use self::name::Error as NameError;
pub use self::name::Name;
use self::email::email_outcome;
use self::message::message_outcome;
use self::name::name_outcome;
use crate::text::{is_blank, lemma_blank_trims_to_empty};

verus! {

/// A submission whose three fields each passed validation.
#[derive(Debug, PartialEq, Eq, Clone)]
pub struct Contact {
    pub email: Email,
    pub name: Name,
    pub message: Message,
}

/// The per-field errors of a rejected submission; a field that passed is `None`.
#[derive(Debug, PartialEq, Eq, Clone, Copy, Structural)]
pub struct Error {
    pub email: Option<EmailError>,
    pub name: Option<NameError>,
    pub message: Option<MessageError>,
}

/// The error of a field outcome, if it has one.
pub open spec fn error_of<T, E>(o: Result<T, E>) -> Option<E> {
    match o {
        Ok(_) => None,
        Err(e) => Some(e),
    }
}

/// Whether `r` is what validating the raw fields `email`, `name` and
/// `message` gives: a contact holding the three accepted texts when all three
/// pass, else every field's error, with `None` for those that passed.
pub open spec fn contact_result_is(
    r: Result<Contact, Error>,
    email: Seq<char>,
    name: Seq<char>,
    message: Seq<char>,
) -> bool {
    let (e, n, m) = (email_outcome(email), name_outcome(name), message_outcome(message));
    if e is Ok && n is Ok && m is Ok {
        &&& r is Ok
        &&& r->Ok_0.email@ == e->Ok_0
        &&& r->Ok_0.name@ == n->Ok_0
        &&& r->Ok_0.message@ == m->Ok_0
    } else {
        r == Err::<Contact, Error>(
            Error { email: error_of(e), name: error_of(n), message: error_of(m) },
        )
    }
}

impl Contact {
    /// Validates all three fields, collecting the error of each one that fails.
    pub fn new(email: &str, name: &str, message: &str) -> (r: Result<Contact, Error>)
        ensures
            contact_result_is(r, email@, name@, message@),
    {
        let e = Email::new(email);
        let n = Name::new(name);
        let m = Message::new(message);
        match (e, n, m) {
            (Ok(email), Ok(name), Ok(message)) => Ok(Contact { email, name, message }),
            (e, n, m) => Err(
                Error {
                    email: match e {
                        Ok(_) => None,
                        Err(x) => Some(x),
                    },
                    name: match n {
                        Ok(_) => None,
                        Err(x) => Some(x),
                    },
                    message: match m {
                        Ok(_) => None,
                        Err(x) => Some(x),
                    },
                },
            ),
        }
    }
}


/// Fields are judged one by one: a field whose input is empty or all white
/// space is reported as empty, and a field whose input validates is reported
/// with no error, whatever the other two fields hold.
pub proof fn lemma_fields_reported_independently(
    email: Seq<char>,
    name: Seq<char>,
    message: Seq<char>,
    r: Result<Contact, Error>,
)
    requires
        contact_result_is(r, email, name, message),
    ensures
        is_blank(email) ==> r is Err && r->Err_0.email == Some(EmailError::IsEmpty),
        is_blank(name) ==> r is Err && r->Err_0.name == Some(NameError::IsEmpty),
        is_blank(message) ==> r is Err && r->Err_0.message == Some(MessageError::IsEmpty),
        r is Err && email_outcome(email) is Ok ==> r->Err_0.email is None,
        r is Err && name_outcome(name) is Ok ==> r->Err_0.name is None,
        r is Err && message_outcome(message) is Ok ==> r->Err_0.message is None,
{
    if is_blank(email) {
        lemma_blank_trims_to_empty(email);
    }
    if is_blank(name) {
        lemma_blank_trims_to_empty(name);
    }
    if is_blank(message) {
        lemma_blank_trims_to_empty(message);
    }
}

} // verus!
