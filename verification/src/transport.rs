//! The messages of the WebSocket transport, as the `ws` crate hands them
//! over.

use vstd::prelude::*;
use vstd::utf8::{decode_utf8, valid_utf8};
use crate::action::{Event, EventView};

verus! {

/// What a message of the transport holds: text, or binary data.
pub enum Payload {
    Text(Seq<char>),
    Binary(Seq<u8>),
}

impl Payload {
    /// The text of a message: the text that it holds, or the text that its
    /// data spells in UTF-8; `None` for data that is no UTF-8.
    pub open spec fn text(self) -> Option<Seq<char>> {
        match self {
            Payload::Text(text) => Some(text),
            Payload::Binary(data) => if valid_utf8(data) {
                Some(decode_utf8(data))
            } else {
                None
            },
        }
    }

    /// The event that a message is: its text, or the report that it holds
    /// none.
    pub open spec fn arrival(self) -> EventView {
        match self.text() {
            Some(text) => EventView::Message(text),
            None => EventView::Garbled,
        }
    }
}

/// A message of the `ws` crate. Nothing of its inside is visible to the
/// verifier: it is read through `as_text`.
#[verifier::external_type_specification]
#[verifier::external_body]
pub struct ExMessage(ws::Message);

/// The error of the `ws` crate.
#[verifier::external_type_specification]
#[verifier::external_body]
pub struct ExTransportError(ws::Error);

/// What a message of the `ws` crate holds.
pub uninterp spec fn payload(message: ws::Message) -> Payload;

/// `ws::Message::as_text`. The contract claims what its source shows: the
/// text of a text message; for binary data what `std::str::from_utf8`
/// makes of it, which is the text that the data spells where it is UTF-8,
/// and an error where it is not.
pub assume_specification[ ws::Message::as_text ](message: &ws::Message) -> (r: Result<
    &str,
    ws::Error,
>)
    ensures
        r is Ok <==> payload(*message).text() is Some,
        r matches Ok(text) ==> payload(*message).text() == Some(text@),
;

/// The event that a message of the transport is: its text, or the report
/// that it holds none.
pub fn event_of(message: &ws::Message) -> (event: Event)
    ensures
        event@ == payload(*message).arrival(),
{
    match message.as_text() {
        Ok(text) => Event::Message(text.to_owned()),
        Err(_) => Event::Garbled,
    }
}

} // verus!
