//! The one-shot responder: one request, one reply.

use vstd::prelude::*;
use crate::action::{Action, Event, EventView, Reaction};
use crate::error::CallError;
use crate::frame::{decode_reply, reply_in, Reply, ReplyView};
use crate::json::json_read;

verus! {

/// What a call returns where the reply holds no string `result`.
pub const EMPTY_RESULT: &'static str = "0x00";

/// Where a one-shot call stands.
#[derive(Clone, Copy, Debug, PartialEq, Eq, Structural)]
pub enum Phase {
    /// The session is not open yet.
    Created,
    /// The request was sent; the reply is awaited.
    AwaitReply,
    /// The call has resolved.
    Done,
}

/// The one-shot responder of one call. It owns the request of that call.
#[derive(Debug)]
pub struct Getter {
    request: String,
    phase: Phase,
}

/// The model of a [`Getter`].
pub struct GetterView {
    pub request: Seq<char>,
    pub phase: Phase,
}

impl GetterView {
    /// The same call in another phase.
    pub open spec fn at(self, phase: Phase) -> GetterView {
        GetterView { phase, ..self }
    }

    /// The session opened: the request is sent, once.
    pub open spec fn on_open(self) -> (GetterView, Reaction<Seq<char>>) {
        if self.phase is Created {
            (self.at(Phase::AwaitReply), Reaction::Send(self.request))
        } else {
            (self, Reaction::Nothing)
        }
    }

    /// A reply was read: the call resolves with its `result`, or with
    /// `0x00` where it holds none.
    pub open spec fn on_reply(self, reply: ReplyView) -> (GetterView, Reaction<Seq<char>>) {
        if self.phase is AwaitReply {
            (
                self.at(Phase::Done),
                Reaction::Finish(
                    Ok(
                        match reply.result {
                            Some(result) => result,
                            None => EMPTY_RESULT@,
                        },
                    ),
                ),
            )
        } else {
            (self, Reaction::Nothing)
        }
    }

    /// A message that cannot be read arrived.
    pub open spec fn on_garbled(self) -> (GetterView, Reaction<Seq<char>>) {
        if self.phase is AwaitReply {
            (self.at(Phase::Done), Reaction::Finish(Err(CallError::Protocol)))
        } else {
            (self, Reaction::Nothing)
        }
    }

    /// A text message arrived.
    pub open spec fn on_message(self, text: Seq<char>) -> (GetterView, Reaction<Seq<char>>) {
        match json_read(text) {
            Some(doc) => self.on_reply(reply_in(doc)),
            None => self.on_garbled(),
        }
    }

    /// The session is gone.
    pub open spec fn on_lost(self) -> (GetterView, Reaction<Seq<char>>) {
        if self.phase is Done {
            (self, Reaction::Nothing)
        } else {
            (self.at(Phase::Done), Reaction::Abandon(CallError::Connection))
        }
    }

    /// The deadline passed.
    pub open spec fn on_expired(self) -> (GetterView, Reaction<Seq<char>>) {
        if self.phase is Done {
            (self, Reaction::Nothing)
        } else {
            (self.at(Phase::Done), Reaction::Finish(Err(CallError::Timeout)))
        }
    }

    /// Any event.
    pub open spec fn on_event(self, event: EventView) -> (GetterView, Reaction<Seq<char>>) {
        match event {
            EventView::Open => self.on_open(),
            EventView::Message(text) => self.on_message(text),
            EventView::Garbled => self.on_garbled(),
            EventView::Lost => self.on_lost(),
            EventView::Expired => self.on_expired(),
        }
    }
}

impl View for Getter {
    type V = GetterView;

    closed spec fn view(&self) -> GetterView {
        GetterView { request: self.request@, phase: self.phase }
    }
}

impl Getter {
    /// The responder of a new call with this request.
    pub fn new(request: String) -> (g: Getter)
        ensures
            g@ == (GetterView { request: request@, phase: Phase::Created }),
    {
        Getter { request, phase: Phase::Created }
    }

    /// Where the call stands.
    pub fn phase(&self) -> (p: Phase)
        ensures
            p == self@.phase,
    {
        self.phase
    }

    /// The request of the call.
    pub fn request(&self) -> (r: &str)
        ensures
            r@ == self@.request,
    {
        self.request.as_str()
    }

    /// The session opened.
    pub fn on_open(&mut self) -> (action: Action<String>)
        ensures
            (final(self)@, action@) == old(self)@.on_open(),
    {
        match self.phase {
            Phase::Created => {
                self.phase = Phase::AwaitReply;
                Action::Send(self.request.clone())
            },
            _ => Action::Nothing,
        }
    }

    /// A reply was read.
    pub fn on_reply(&mut self, reply: &Reply) -> (action: Action<String>)
        ensures
            (final(self)@, action@) == old(self)@.on_reply(reply@),
    {
        match self.phase {
            Phase::AwaitReply => {
                self.phase = Phase::Done;
                let value = match &reply.result {
                    Some(result) => result.clone(),
                    None => EMPTY_RESULT.to_owned(),
                };
                Action::Finish(Ok(value))
            },
            _ => Action::Nothing,
        }
    }

    /// A message that cannot be read arrived.
    pub fn on_garbled(&mut self) -> (action: Action<String>)
        ensures
            (final(self)@, action@) == old(self)@.on_garbled(),
    {
        match self.phase {
            Phase::AwaitReply => {
                self.phase = Phase::Done;
                Action::Finish(Err(CallError::Protocol))
            },
            _ => Action::Nothing,
        }
    }

    /// A text message arrived.
    pub fn on_message(&mut self, text: &str) -> (action: Action<String>)
        ensures
            (final(self)@, action@) == old(self)@.on_message(text@),
    {
        match decode_reply(text) {
            Ok(reply) => self.on_reply(&reply),
            Err(_) => self.on_garbled(),
        }
    }

    /// The session is gone.
    pub fn on_lost(&mut self) -> (action: Action<String>)
        ensures
            (final(self)@, action@) == old(self)@.on_lost(),
    {
        match self.phase {
            Phase::Done => Action::Nothing,
            _ => {
                self.phase = Phase::Done;
                Action::Abandon(CallError::Connection)
            },
        }
    }

    /// The deadline passed.
    pub fn on_expired(&mut self) -> (action: Action<String>)
        ensures
            (final(self)@, action@) == old(self)@.on_expired(),
    {
        match self.phase {
            Phase::Done => Action::Nothing,
            _ => {
                self.phase = Phase::Done;
                Action::Finish(Err(CallError::Timeout))
            },
        }
    }

    /// Any event.
    pub fn on_event(&mut self, event: &Event) -> (action: Action<String>)
        ensures
            (final(self)@, action@) == old(self)@.on_event(event@),
    {
        match event {
            Event::Open => self.on_open(),
            Event::Message(text) => self.on_message(text.as_str()),
            Event::Garbled => self.on_garbled(),
            Event::Lost => self.on_lost(),
            Event::Expired => self.on_expired(),
        }
    }
}

} // verus!
