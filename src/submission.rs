//! The raw form as submitted, and the user-facing text for each field error.
use crate::contact::{
    contact_result_is, Contact, EmailError, Error, MessageError, NameError,
};
use vstd::prelude::*;

verus! {

/// The three fields of a submitted form, as received.
#[derive(Debug, Clone)]
pub struct ContactRequest {
    pub email: String,
    pub name: String,
    pub message: String,
}

/// The text shown to the user for each field that failed; `None` for a field
/// that passed.
#[derive(Debug, Clone, Copy)]
pub struct ContactErrors {
    pub email: Option<&'static str>,
    pub name: Option<&'static str>,
    pub message: Option<&'static str>,
}

/// The text shown for an email error. Note the mismatch: the text for an
/// email that is too long speaks of 200 characters, while the limit is 300
/// grapheme clusters. The wording is kept as existing clients see it.
pub open spec fn email_error_text(e: EmailError) -> Seq<char> {
    match e {
        EmailError::IsEmpty => "Email may not be empty."@,
        EmailError::IsMissingAtSign => "Email is missing @ symbol."@,
        EmailError::IsGreaterThan300 => "Email may not be longer than 200 characters long."@,
    }
}

/// The text shown for a name error.
pub open spec fn name_error_text(e: NameError) -> Seq<char> {
    match e {
        NameError::IsEmpty => "Name may not be empty."@,
        NameError::IsGreaterThan200 => "Name may not be longer than 200 characters long."@,
    }
}

/// The text shown for a message error.
pub open spec fn message_error_text(e: MessageError) -> Seq<char> {
    match e {
        MessageError::IsEmpty => "Message may not be empty."@,
        MessageError::IsGreaterThan2000 => "Message may not be longer than 2000 characters long."@,
    }
}

/// `t` is the text of the field error `e`, under the mapping `text`; both are
/// absent together.
pub open spec fn shown_as<E>(t: Option<&'static str>, e: Option<E>, text: spec_fn(E) -> Seq<char>) -> bool {
    match e {
        None => t is None,
        Some(e) => t is Some && t->0@ == text(e),
    }
}

/// `r` shows exactly the field errors of `e`.
pub open spec fn errors_shown(r: ContactErrors, e: Error) -> bool {
    &&& shown_as(r.email, e.email, |x: EmailError| email_error_text(x))
    &&& shown_as(r.name, e.name, |x: NameError| name_error_text(x))
    &&& shown_as(r.message, e.message, |x: MessageError| message_error_text(x))
}

impl EmailError {
    /// The text shown to the user for this error. For `IsGreaterThan300` it
    /// names 200 characters, not the actual limit of 300 grapheme clusters.
    pub fn text(&self) -> (r: &'static str)
        ensures
            r@ == email_error_text(*self),
    {
        match self {
            EmailError::IsEmpty => "Email may not be empty.",
            EmailError::IsMissingAtSign => "Email is missing @ symbol.",
            EmailError::IsGreaterThan300 => "Email may not be longer than 200 characters long.",
        }
    }
}

impl NameError {
    /// The text shown to the user for this error.
    pub fn text(&self) -> (r: &'static str)
        ensures
            r@ == name_error_text(*self),
    {
        match self {
            NameError::IsEmpty => "Name may not be empty.",
            NameError::IsGreaterThan200 => "Name may not be longer than 200 characters long.",
        }
    }
}

impl MessageError {
    /// The text shown to the user for this error.
    pub fn text(&self) -> (r: &'static str)
        ensures
            r@ == message_error_text(*self),
    {
        match self {
            MessageError::IsEmpty => "Message may not be empty.",
            MessageError::IsGreaterThan2000 => "Message may not be longer than 2000 characters long.",
        }
    }
}

impl ContactErrors {
    /// The user-facing text of every field error in `error`.
    pub fn from_error(error: &Error) -> (r: ContactErrors)
        ensures
            errors_shown(r, *error),
    {
        ContactErrors {
            email: match &error.email {
                Some(e) => Some(e.text()),
                None => None,
            },
            name: match &error.name {
                Some(e) => Some(e.text()),
                None => None,
            },
            message: match &error.message {
                Some(e) => Some(e.text()),
                None => None,
            },
        }
    }
}

impl ContactRequest {
    /// Validates the form: the contact that `Contact::new` gives on success,
    /// else the text of every field error that it reports.
    pub fn try_into(self) -> (r: Result<Contact, ContactErrors>)
        ensures
            exists|c: Result<Contact, Error>|
                #![trigger contact_result_is(c, self.email@, self.name@, self.message@)]
                contact_result_is(c, self.email@, self.name@, self.message@) && match c {
                    Ok(contact) => r == Ok::<Contact, ContactErrors>(contact),
                    Err(e) => r is Err && errors_shown(r->Err_0, e),
                },
    {
        match Contact::new(self.email.as_str(), self.name.as_str(), self.message.as_str()) {
            Ok(contact) => Ok(contact),
            Err(error) => Err(ContactErrors::from_error(&error)),
        }
    }
}

} // verus!
