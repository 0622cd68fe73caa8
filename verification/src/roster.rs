//! The recipient store adapter: from the text of a recipient source to the
//! list of recipients, in the source's order, or to no list at all.

use vstd::prelude::*;
use crate::json::{array_items, json_of, jsons_of, member, parse_json, parsed_json, text_of, Json};
use crate::recipient::{recipient_views, Recipient, RecipientView};
use crate::source::{LoadError, SourceRead};

verus! {

/// The text under `key` in a record: present only where the record is an
/// object that has the key with a text as its value.
pub open spec fn text_field(record: Json, key: Seq<char>) -> Option<Seq<char>> {
    match record {
        Json::Object(fields) => if fields.contains_key(key) {
            match fields[key] {
                Json::Text(text) => Some(text),
                _ => None,
            }
        } else {
            None
        },
        _ => None,
    }
}

/// The recipient that a record describes: it takes all three of `name`,
/// `email` and `phone`, each a text. Other members are not looked at.
pub open spec fn record_of(record: Json) -> Option<RecipientView> {
    match (text_field(record, "name"@), text_field(record, "email"@), text_field(record, "phone"@)) {
        (Some(name), Some(email), Some(phone)) => Some(RecipientView { name, email, phone }),
        _ => None,
    }
}

/// The recipients that a document lists: the document is an array, and every
/// element is a record. One bad record and there is no list.
pub open spec fn roster_of(document: Json) -> Option<Seq<RecipientView>> {
    match document {
        Json::Array(records) => if forall|i: int|
            0 <= i < records.len() ==> (#[trigger] record_of(records[i])) is Some {
            Some(records.map_values(|record: Json| record_of(record)->Some_0))
        } else {
            None
        },
        _ => None,
    }
}

/// The recipients that the text of a source lists.
pub open spec fn roster_in(text: Seq<char>) -> Option<Seq<RecipientView>> {
    match parsed_json(text) {
        Some(document) => roster_of(document),
        None => None,
    }
}

/// The text under `key` in `record`, if the record has one there.
fn field<'a>(record: &'a serde_json::Value, key: &str) -> (text: Option<&'a str>)
    ensures
        match text {
            Some(t) => text_field(json_of(*record), key@) == Some(t@),
            None => text_field(json_of(*record), key@) is None,
        },
{
    match member(record, key) {
        Some(inner) => text_of(inner),
        None => None,
    }
}

/// Reads one record. `None` where a field is missing or is not a text.
pub fn recipient_of(record: &serde_json::Value) -> (recipient: Option<Recipient>)
    ensures
        match recipient {
            Some(r) => record_of(json_of(*record)) == Some(r@),
            None => record_of(json_of(*record)) is None,
        },
{
    let name = match field(record, "name") {
        Some(text) => text,
        None => { return None; },
    };
    let email = match field(record, "email") {
        Some(text) => text,
        None => { return None; },
    };
    let phone = match field(record, "phone") {
        Some(text) => text,
        None => { return None; },
    };
    Some(Recipient::new(name, email, phone))
}

/// Reads a parsed document as a list of recipients, keeping the document's
/// order. `None` where the document is no array or holds a bad record.
pub fn recipients_of(document: &serde_json::Value) -> (recipients: Option<Vec<Recipient>>)
    ensures
        match recipients {
            Some(list) => roster_of(json_of(*document)) == Some(recipient_views(list@)),
            None => roster_of(json_of(*document)) is None,
        },
{
    let records = match array_items(document) {
        Some(records) => records,
        None => { return None; },
    };
    let ghost items = jsons_of(records@);
    let mut list: Vec<Recipient> = Vec::new();
    let mut at: usize = 0;
    while at < records.len()
        invariant
            at <= records.len(),
            items == jsons_of(records@),
            json_of(*document) == Json::Array(items),
            list.len() == at,
            forall|i: int|
                0 <= i < at ==> (#[trigger] record_of(items[i])) == Some(list@[i]@),
        decreases records.len() - at,
    {
        assert(items[at as int] == json_of(records@[at as int]));
        match recipient_of(&records[at]) {
            Some(recipient) => {
                list.push(recipient);
            },
            None => {
                assert(record_of(items[at as int]) is None);
                return None;
            },
        }
        at += 1;
    }
    assert(recipient_views(list@) =~= items.map_values(|record: Json| record_of(record)->Some_0));
    Some(list)
}

/// Parses the text of a recipient source. Text that is no JSON, or no array
/// of records, is malformed; there is no partial list.
///
/// The whole document is parsed before any record is read, so the members
/// that no record needs count too: one that is nested more than 128 levels
/// deep, or that holds a number beyond the range of a 64-bit float, makes the
/// source malformed. A key written twice in a record is taken with its last
/// value.
pub fn parse_recipients(text: &str) -> (parsed: Result<Vec<Recipient>, LoadError>)
    ensures
        match parsed {
            Ok(list) => roster_in(text@) == Some(recipient_views(list@)),
            Err(e) => e == LoadError::SourceMalformed && roster_in(text@) is None,
        },
{
    match parse_json(text) {
        Ok(document) => match recipients_of(&document) {
            Some(list) => Ok(list),
            None => Err(LoadError::SourceMalformed),
        },
        Err(_) => Err(LoadError::SourceMalformed),
    }
}

/// Loads the recipients from what reading their source gave.
pub fn load_recipients(read: SourceRead) -> (loaded: Result<Vec<Recipient>, LoadError>)
    ensures
        match read {
            SourceRead::Missing => loaded == Err::<Vec<Recipient>, LoadError>(
                LoadError::SourceNotFound,
            ),
            SourceRead::Unreadable => loaded == Err::<Vec<Recipient>, LoadError>(
                LoadError::SourceUnreadable,
            ),
            SourceRead::Text(text) => match loaded {
                Ok(list) => roster_in(text@) == Some(recipient_views(list@)),
                Err(e) => e == LoadError::SourceMalformed && roster_in(text@) is None,
            },
        },
{
    match read {
        SourceRead::Missing => Err(LoadError::SourceNotFound),
        SourceRead::Unreadable => Err(LoadError::SourceUnreadable),
        SourceRead::Text(text) => parse_recipients(text.as_str()),
    }
}

} // verus!
