//! Batch dispatch of one templated e-mail to a list of recipients.
//!
//! A run loads its recipients and its template once, renders the template
//! for each recipient in turn, hands each message to a mail transport, and
//! records one outcome per recipient. A send that fails is recorded and the
//! run goes on; only a source that cannot be loaded ends it early.
//!
//! The library decides and computes; reading files and talking to the mail
//! relay is left to the program that drives a [`dispatch::Dispatcher`].

pub mod text;
pub mod recipient;
pub mod render;
pub mod source;
pub mod json;
pub mod roster;
pub mod message;
pub mod compose;
pub mod outcome;
pub mod report;
pub mod dispatch;
pub mod laws;
