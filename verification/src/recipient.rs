//! One addressee of the batch.

use vstd::prelude::*;

verus! {

/// One addressee: the display name that templates take, the address the
/// message goes to, and a phone number that is carried along unread.
#[derive(Debug, Clone, PartialEq, Eq)]
pub struct Recipient {
    pub name: String,
    pub email: String,
    pub phone: String,
}

/// What a `Recipient` holds, as text.
pub struct RecipientView {
    pub name: Seq<char>,
    pub email: Seq<char>,
    pub phone: Seq<char>,
}

impl View for Recipient {
    type V = RecipientView;

    open spec fn view(&self) -> RecipientView {
        RecipientView { name: self.name@, email: self.email@, phone: self.phone@ }
    }
}

/// The recipients of a list, each by what it holds, in the list's order.
pub open spec fn recipient_views(list: Seq<Recipient>) -> Seq<RecipientView> {
    list.map_values(|r: Recipient| r@)
}

/// The one-line description of a recipient.
pub open spec fn described(r: RecipientView) -> Seq<char> {
    "Contact(name="@ + r.name + ", email="@ + r.email + ", phone="@ + r.phone + ")"@
}

impl Recipient {
    /// A recipient with the given fields; none of them is checked or changed.
    pub fn new(name: &str, email: &str, phone: &str) -> (r: Recipient)
        ensures
            r@ == (RecipientView { name: name@, email: email@, phone: phone@ }),
    {
        Recipient {
            name: name.to_owned(),
            email: email.to_owned(),
            phone: phone.to_owned(),
        }
    }

    /// The recipient on one line, all three fields named.
    pub fn describe(&self) -> (line: String)
        ensures
            line@ == described(self@),
    {
        let mut line = "Contact(name=".to_owned();
        line.append(self.name.as_str());
        line.append(", email=");
        line.append(self.email.as_str());
        line.append(", phone=");
        line.append(self.phone.as_str());
        line.append(")");
        line
    }
}

} // verus!
