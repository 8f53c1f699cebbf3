use contact_api::contact::Contact;
use contact_api::delivery::{Action, DeliveryError, Outbox, Stage};

fn contact() -> Contact {
    Contact::new("scooby@mystery.van", "Shaggy", "Let's solve some mysteries, dude.").unwrap()
}

fn outbox(recipients: &[&str]) -> Outbox {
    Outbox::new(
        "sender@test.fake".to_owned(),
        recipients.iter().map(|r| r.to_string()).collect(),
    )
}

#[test]
fn subject_is_name_then_email_in_parentheses() {
    assert_eq!(
        "Shaggy (scooby@mystery.van)",
        Outbox::subject_line(&contact())
    );
}

#[test]
fn composed_message_keeps_sender_recipient_order_and_body() {
    let message = outbox(&["bob@fake.fake", "beth@fake.fake", "george@other.fake"])
        .compose(&contact());

    assert_eq!("sender@test.fake", message.from);
    assert_eq!(
        vec!["bob@fake.fake", "beth@fake.fake", "george@other.fake"],
        message.to
    );
    assert_eq!("Shaggy (scooby@mystery.van)", message.subject);
    assert_eq!("Let's solve some mysteries, dude.", message.body);
}

#[test]
fn successful_steps_archive_then_relay_then_finish() {
    let mut delivery = outbox(&["bob@fake.fake", "beth@fake.fake"])
        .prepare(&contact())
        .unwrap();

    assert_eq!(&Stage::Archiving, delivery.stage());
    assert_eq!(Action::Archive, delivery.next_action());
    assert_eq!(Action::Relay, delivery.record(true));
    assert_eq!(Action::Finish(Ok(())), delivery.record(true));
    assert_eq!(&Stage::Finished(Ok(())), delivery.stage());
    assert_eq!("Shaggy (scooby@mystery.van)", delivery.outbound().subject);
}

#[test]
fn failed_archive_never_reaches_the_relay() {
    let mut delivery = outbox(&["bob@fake.fake"]).prepare(&contact()).unwrap();

    assert_eq!(
        Action::Finish(Err(DeliveryError::Archive)),
        delivery.record(false)
    );
    assert_eq!(
        Action::Finish(Err(DeliveryError::Archive)),
        delivery.record(true)
    );
    assert_eq!(
        Action::Finish(Err(DeliveryError::Archive)),
        delivery.next_action()
    );
}

#[test]
fn failed_relay_is_reported_after_the_archive() {
    let mut delivery = outbox(&["bob@fake.fake"]).prepare(&contact()).unwrap();

    assert_eq!(Action::Relay, delivery.record(true));
    assert_eq!(
        Action::Finish(Err(DeliveryError::Relay)),
        delivery.record(false)
    );
}

#[test]
fn invalid_sender_is_reported_first() {
    let outbox = Outbox::new(
        "not an address".to_owned(),
        vec!["also bad".to_owned()],
    );
    match outbox.prepare(&contact()) {
        Err(e) => assert_eq!(DeliveryError::InvalidAddress("not an address".to_owned()), e),
        Ok(_) => panic!("the sender does not parse"),
    }
}

#[test]
fn first_invalid_recipient_is_reported() {
    let outbox = outbox(&["bob@fake.fake", "beth-at-fake", "nobody"]);
    match outbox.prepare(&contact()) {
        Err(e) => assert_eq!(DeliveryError::InvalidAddress("beth-at-fake".to_owned()), e),
        Ok(_) => panic!("a recipient does not parse"),
    }
}

#[test]
fn no_recipients_cannot_be_assembled() {
    match outbox(&[]).prepare(&contact()) {
        Err(DeliveryError::Assembly(_)) => {}
        Err(e) => panic!("unexpected error {:?}", e),
        Ok(_) => panic!("a message needs a recipient"),
    }
}

#[test]
fn named_mailboxes_are_accepted() {
    let outbox = Outbox::new(
        "Contact Form <form@test.fake>".to_owned(),
        vec!["Bob <bob@fake.fake>".to_owned()],
    );
    assert!(outbox.prepare(&contact()).is_ok());
}

#[test]
fn assembled_message_carries_the_headers() {
    let delivery = outbox(&["bob@fake.fake", "beth@fake.fake"])
        .prepare(&contact())
        .unwrap();
    let text = String::from_utf8(delivery.mail().message.formatted()).unwrap();

    assert!(text.contains("From: sender@test.fake"));
    assert!(text.contains("To: bob@fake.fake, beth@fake.fake"));
    assert!(text.contains("Subject: Shaggy (scooby@mystery.van)"));
    assert!(text.contains("Let's solve some mysteries, dude."));
}

#[test]
fn multi_line_body_gets_crlf_line_endings() {
    let contact = Contact::new("scooby@mystery.van", "Shaggy", "line one\nline two").unwrap();
    let delivery = outbox(&["bob@fake.fake"]).prepare(&contact).unwrap();
    let text = String::from_utf8(delivery.mail().message.formatted()).unwrap();

    assert!(text.contains("line one\r\nline two"));
}
