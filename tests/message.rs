use contact_api::contact::message::{Error, Message};
use std::iter;

#[test]
fn does_not_allow_empty_messages() {
    assert_eq!(Err(Error::IsEmpty), Message::new(""))
}

#[test]
fn does_not_allow_messages_that_are_all_whitespace() {
    assert_eq!(Err(Error::IsEmpty), Message::new("    "))
}

#[test]
fn does_not_allow_messages_longer_than_2000_characters() {
    let long_message = iter::repeat('a').take(2001).collect::<String>();
    assert_eq!(Err(Error::IsGreaterThan2000), Message::new(&long_message));
}

#[test]
fn does_allow_messages_of_200_characters() {
    let long_message = iter::repeat('a').take(2000).collect::<String>();
    assert_eq!(
        Ok(&long_message),
        Message::new(&long_message).map(|n| n.to_string()).as_ref()
    );
}

#[test]
fn trims_messages() {
    assert_eq!(
        Ok("scooby doo".to_owned()),
        Message::new("  scooby doo   ").map(|n| n.to_string())
    );
}

#[test]
fn message_does_not_count_leading_and_trailing_whitespace_as_length() {
    let long_message = iter::repeat('a').take(2000).collect::<String>();

    assert_eq!(
        Ok(&long_message),
        Message::new(&format!("  {}   ", &long_message))
            .map(|n| n.to_string())
            .as_ref()
    );
}

#[test]
fn messages_are_counted_in_grapheme_clusters() {
    // A flag: two regional indicators, one cluster.
    let flags = "\u{1f1f7}\u{1f1fa}".repeat(2000);
    assert_eq!(
        Ok(flags.clone()),
        Message::new(&flags).map(|m| m.to_string())
    );
    let more = "\u{1f1f7}\u{1f1fa}".repeat(2001);
    assert_eq!(Err(Error::IsGreaterThan2000), Message::new(&more));
}

#[test]
fn message_from_trimmed_takes_the_count_as_given() {
    assert_eq!(
        Err(Error::IsGreaterThan2000),
        Message::from_trimmed("hi", 2001)
    );
    assert_eq!(
        Ok("hi".to_owned()),
        Message::from_trimmed("hi", 2000).map(|m| m.to_string())
    );
}
