//! Contact-form handling: validation of the submitted fields into a
//! `Contact`, assembly of the outbound email, and the archive-then-relay
//! delivery sequence.
pub mod contact;
pub mod delivery;
pub mod mail;
pub mod settings;
pub mod submission;
pub mod text;
