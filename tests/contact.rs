use contact_api::contact::{Contact, EmailError, Error, MessageError, NameError};
use contact_api::submission::{ContactErrors, ContactRequest};

#[test]
fn collects_all_errors() {
    let contact = Contact::new("", "", "");

    let expected_errors = Error {
        email: Some(EmailError::IsEmpty),
        name: Some(NameError::IsEmpty),
        message: Some(MessageError::IsEmpty),
    };

    assert_eq!(Err(expected_errors), contact);
}

#[test]
fn can_fail_just_email() {
    let contact = Contact::new("", "good", "good");

    let expected_errors = Error {
        email: Some(EmailError::IsEmpty),
        name: None,
        message: None,
    };

    assert_eq!(Err(expected_errors), contact);
}

#[test]
fn can_fail_just_name() {
    let contact = Contact::new("good@foo.com", "", "good");

    let expected_errors = Error {
        email: None,
        name: Some(NameError::IsEmpty),
        message: None,
    };

    assert_eq!(Err(expected_errors), contact);
}

#[test]
fn can_fail_just_message() {
    let contact = Contact::new("good@foo.com", "good", "");

    let expected_errors = Error {
        email: None,
        name: None,
        message: Some(MessageError::IsEmpty),
    };

    assert_eq!(Err(expected_errors), contact);
}

#[test]
fn can_construct_a_contact() {
    let contact = Contact::new("good@foo.com", "joe", "hello world").unwrap();

    assert_eq!("good@foo.com".to_owned(), contact.email.to_string());
    assert_eq!("joe".to_owned(), contact.name.to_string());
    assert_eq!("hello world".to_owned(), contact.message.to_string());
}

#[test]
fn all_whitespace_fields_are_each_reported_empty() {
    let contact = Contact::new(" \t ", "\n", "\u{3000}\u{a0}");

    let expected_errors = Error {
        email: Some(EmailError::IsEmpty),
        name: Some(NameError::IsEmpty),
        message: Some(MessageError::IsEmpty),
    };

    assert_eq!(Err(expected_errors), contact);
}

#[test]
fn contact_fields_are_trimmed() {
    let contact = Contact::new(" good@foo.com ", "  scooby doo  ", "\thello world\n").unwrap();

    assert_eq!("good@foo.com", contact.email.as_ref());
    assert_eq!("scooby doo", contact.name.as_ref());
    assert_eq!("hello world", contact.message.as_ref());
}

#[test]
fn contact_reports_every_kind_of_error_together() {
    let long_name = "a".repeat(201);
    let long_message = "m".repeat(2001);
    let contact = Contact::new("no-at-sign", &long_name, &long_message);

    let expected_errors = Error {
        email: Some(EmailError::IsMissingAtSign),
        name: Some(NameError::IsGreaterThan200),
        message: Some(MessageError::IsGreaterThan2000),
    };

    assert_eq!(Err(expected_errors), contact);
}

#[test]
fn error_texts_match_each_field_error() {
    assert_eq!("Email may not be empty.", EmailError::IsEmpty.text());
    assert_eq!("Email is missing @ symbol.", EmailError::IsMissingAtSign.text());
    assert_eq!(
        "Email may not be longer than 200 characters long.",
        EmailError::IsGreaterThan300.text()
    );
    assert_eq!("Name may not be empty.", NameError::IsEmpty.text());
    assert_eq!(
        "Name may not be longer than 200 characters long.",
        NameError::IsGreaterThan200.text()
    );
    assert_eq!("Message may not be empty.", MessageError::IsEmpty.text());
    assert_eq!(
        "Message may not be longer than 2000 characters long.",
        MessageError::IsGreaterThan2000.text()
    );
}

#[test]
fn contact_errors_show_only_failed_fields() {
    let errors = ContactErrors::from_error(&Error {
        email: None,
        name: Some(NameError::IsEmpty),
        message: None,
    });

    assert_eq!(None, errors.email);
    assert_eq!(Some("Name may not be empty."), errors.name);
    assert_eq!(None, errors.message);
}

#[test]
fn request_with_everything_empty_shows_three_texts() {
    let request = ContactRequest {
        email: String::new(),
        name: String::new(),
        message: String::new(),
    };

    let errors = request.try_into().unwrap_err();

    assert_eq!(Some("Email may not be empty."), errors.email);
    assert_eq!(Some("Name may not be empty."), errors.name);
    assert_eq!(Some("Message may not be empty."), errors.message);
}

#[test]
fn valid_request_gives_the_contact() {
    let request = ContactRequest {
        email: "scooby@mystery.van".to_owned(),
        name: "Shaggy".to_owned(),
        message: "Let's solve some mysteries, dude.".to_owned(),
    };

    let contact = request.try_into().unwrap();

    assert_eq!("scooby@mystery.van", contact.email.as_ref());
    assert_eq!("Shaggy", contact.name.as_ref());
    assert_eq!("Let's solve some mysteries, dude.", contact.message.as_ref());
}
