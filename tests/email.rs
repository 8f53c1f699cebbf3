use contact_api::contact::email::{Email, Error};
use std::iter;

#[test]
fn does_not_allow_empty_email() {
    assert_eq!(Err(Error::IsEmpty), Email::new(""));
}

#[test]
fn does_not_allow_all_whitespace_for_email() {
    assert_eq!(Err(Error::IsEmpty), Email::new("      "));
}

#[test]
fn does_not_allow_all_more_than_300_characters_for_email() {
    let long_message = iter::repeat('@').take(301).collect::<String>();
    assert_eq!(Err(Error::IsGreaterThan300), Email::new(&long_message));
}

#[test]
fn does_not_allow_email_to_not_have_at_sign() {
    assert_eq!(
        Err(Error::IsMissingAtSign),
        Email::new("someemail_at_domain")
    );
}

#[test]
fn accepts_valid_emails() {
    let valid_emails = vec![
        "email@example.com",
        "firstname.lastname@example.com",
        "email@subdomain.example.com",
        "firstname+lastname@example.com",
        "email@123.123.123.123",
        "email@[123.123.123.123]",
        "1234567890@example.com",
        "email@example-one.com",
        "_______@example.com",
        "email@example.name",
        "email@example.museum",
        "email@example.co.jp",
        "firstname-lastname@example.com",
        "\u{201c}email\u{201d}@example.com",
    ];

    for email in valid_emails {
        assert_eq!(
            Ok(email),
            Email::new(email)
                .map(|e| e.to_string())
                .as_ref()
                .map(|s| s.as_ref())
        );
    }
}

#[test]
fn allows_email_of_exactly_300_characters() {
    let email = format!("{}@example.com", "a".repeat(288));
    assert_eq!(300, email.chars().count());
    assert_eq!(Ok(email.clone()), Email::new(&email).map(|e| e.to_string()));
}

#[test]
fn too_long_is_reported_before_missing_at_sign() {
    let long = "a".repeat(301);
    assert_eq!(Err(Error::IsGreaterThan300), Email::new(&long));
}

#[test]
fn whitespace_around_email_is_not_counted_or_kept() {
    let core = format!("{}@example.com", "a".repeat(288));
    let padded = format!("  \t{}\n ", core);
    assert_eq!(Ok(core), Email::new(&padded).map(|e| e.to_string()));
}

#[test]
fn email_from_trimmed_takes_the_count_as_given() {
    assert_eq!(Err(Error::IsGreaterThan300), Email::from_trimmed("a@b", 301));
    assert_eq!(
        Ok("a@b".to_owned()),
        Email::from_trimmed("a@b", 300).map(|e| e.to_string())
    );
    assert_eq!(Err(Error::IsMissingAtSign), Email::from_trimmed("ab", 2));
    assert_eq!(Err(Error::IsEmpty), Email::from_trimmed("", 0));
}
