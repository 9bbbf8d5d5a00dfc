//! The subscription responder: one submission, watched until the node
//! reports the block that finalized it.

use vstd::prelude::*;
use crate::action::{Action, Event, EventView, Reaction};
use crate::error::CallError;
use crate::frame::{decode_frame, frame_in, Frame, FrameView};
use crate::hash::{hash_of_hexstr, hexstr_to_hash};
use crate::json::json_read;
use crate::text::{parse_u32, parsed_u32, same_text};

verus! {

/// The identifier that marks the reply to a submission.
pub const REQUEST_SUBMIT: u32 = 3;

/// The method of the notifications that follow a submission.
pub const UPDATE_METHOD: &'static str = "author_extrinsicUpdate";

/// Where a submission stands.
#[derive(Clone, Copy, Debug, PartialEq, Eq, Structural)]
pub enum Stage {
    /// The session is not open yet.
    Created,
    /// The request was sent; the node has not acknowledged it.
    AwaitAck,
    /// The node acknowledged the request; the final notification is awaited.
    AwaitFinal,
    /// The call has resolved.
    Done,
}

/// Whether a frame is the reply to the submission: its `id` is a string
/// that spells [`REQUEST_SUBMIT`].
pub open spec fn is_submit_reply(frame: FrameView) -> bool {
    frame.id matches Some(id) && parsed_u32(id) == Some(REQUEST_SUBMIT)
}

/// Whether a frame is a notification on the submission: it has no string
/// `id`, and its `method` is [`UPDATE_METHOD`].
pub open spec fn is_update(frame: FrameView) -> bool {
    frame.id is None && frame.method == Some(UPDATE_METHOD@)
}

/// Whether the node reports an error: in the reply to the submission, or in
/// a notification that carries neither a status nor a finalized block.
pub open spec fn reports_error(frame: FrameView) -> bool {
    ||| is_submit_reply(frame) && frame.error
    ||| is_update(frame) && frame.status is None && frame.finalized is None && frame.update_error
}

/// Whether the node accepts the submission.
pub open spec fn acknowledges(frame: FrameView) -> bool {
    is_submit_reply(frame) && !frame.error
}

/// The text that names the finalized block. A notification with a plain
/// status names none, whatever else it holds.
pub open spec fn finalized_text(frame: FrameView) -> Option<Seq<char>> {
    if is_update(frame) && frame.status is None {
        frame.finalized
    } else {
        None
    }
}

/// Whether a frame leaves the call waiting: it acknowledges the submission,
/// or it is a notification with a plain status.
pub open spec fn keeps_waiting(frame: FrameView) -> bool {
    acknowledges(frame) || (is_update(frame) && frame.status is Some)
}

/// The subscription responder of one call. It owns the request of that call.
#[derive(Debug)]
pub struct Submitter {
    request: String,
    stage: Stage,
}

/// The model of a [`Submitter`].
pub struct SubmitterView {
    pub request: Seq<char>,
    pub stage: Stage,
}

impl SubmitterView {
    /// The same call at another stage.
    pub open spec fn at(self, stage: Stage) -> SubmitterView {
        SubmitterView { stage, ..self }
    }

    /// Whether the request was sent and the call has not resolved.
    pub open spec fn awaiting(self) -> bool {
        self.stage is AwaitAck || self.stage is AwaitFinal
    }

    /// The session opened: the request is sent, once.
    pub open spec fn on_open(self) -> (SubmitterView, Reaction<Seq<u8>>) {
        if self.stage is Created {
            (self.at(Stage::AwaitAck), Reaction::Send(self.request))
        } else {
            (self, Reaction::Nothing)
        }
    }

    /// A frame was read. While the call awaits: an error that the node
    /// reports fails the call; an acknowledgement moves it on; a finalized
    /// block resolves it, with the hash that its text spells; any other
    /// frame is passed over.
    pub open spec fn on_frame(self, frame: FrameView) -> (SubmitterView, Reaction<Seq<u8>>) {
        if !self.awaiting() {
            (self, Reaction::Nothing)
        } else if reports_error(frame) {
            (self.at(Stage::Done), Reaction::Finish(Err(CallError::Node)))
        } else if acknowledges(frame) {
            (self.at(Stage::AwaitFinal), Reaction::Nothing)
        } else {
            match finalized_text(frame) {
                Some(text) => match hash_of_hexstr(text) {
                    Some(hash) => (self.at(Stage::Done), Reaction::Finish(Ok(hash))),
                    None => (self.at(Stage::Done), Reaction::Finish(Err(CallError::Protocol))),
                },
                None => (self, Reaction::Nothing),
            }
        }
    }

    /// A message that cannot be read arrived.
    pub open spec fn on_garbled(self) -> (SubmitterView, Reaction<Seq<u8>>) {
        if self.awaiting() {
            (self.at(Stage::Done), Reaction::Finish(Err(CallError::Protocol)))
        } else {
            (self, Reaction::Nothing)
        }
    }

    /// A text message arrived.
    pub open spec fn on_message(self, text: Seq<char>) -> (SubmitterView, Reaction<Seq<u8>>) {
        match json_read(text) {
            Some(doc) => self.on_frame(frame_in(doc)),
            None => self.on_garbled(),
        }
    }

    /// The session is gone.
    pub open spec fn on_lost(self) -> (SubmitterView, Reaction<Seq<u8>>) {
        if self.stage is Done {
            (self, Reaction::Nothing)
        } else {
            (self.at(Stage::Done), Reaction::Abandon(CallError::Connection))
        }
    }

    /// The deadline passed.
    pub open spec fn on_expired(self) -> (SubmitterView, Reaction<Seq<u8>>) {
        if self.stage is Done {
            (self, Reaction::Nothing)
        } else {
            (self.at(Stage::Done), Reaction::Finish(Err(CallError::Timeout)))
        }
    }

    /// Any event.
    pub open spec fn on_event(self, event: EventView) -> (SubmitterView, Reaction<Seq<u8>>) {
        match event {
            EventView::Open => self.on_open(),
            EventView::Message(text) => self.on_message(text),
            EventView::Garbled => self.on_garbled(),
            EventView::Lost => self.on_lost(),
            EventView::Expired => self.on_expired(),
        }
    }
}

impl View for Submitter {
    type V = SubmitterView;

    closed spec fn view(&self) -> SubmitterView {
        SubmitterView { request: self.request@, stage: self.stage }
    }
}

fn submit_reply(frame: &Frame) -> (r: bool)
    ensures
        r == is_submit_reply(frame@),
{
    match &frame.id {
        Some(id) => match parse_u32(id.as_str()) {
            Some(n) => n == REQUEST_SUBMIT,
            None => false,
        },
        None => false,
    }
}

fn update(frame: &Frame) -> (r: bool)
    ensures
        r == is_update(frame@),
{
    match (&frame.id, &frame.method) {
        (None, Some(method)) => same_text(method.as_str(), UPDATE_METHOD),
        _ => false,
    }
}

impl Submitter {
    /// The responder of a new call with this request.
    pub fn new(request: String) -> (s: Submitter)
        ensures
            s@ == (SubmitterView { request: request@, stage: Stage::Created }),
    {
        Submitter { request, stage: Stage::Created }
    }

    /// Where the call stands.
    pub fn stage(&self) -> (s: Stage)
        ensures
            s == self@.stage,
    {
        self.stage
    }

    /// The request of the call.
    pub fn request(&self) -> (r: &str)
        ensures
            r@ == self@.request,
    {
        self.request.as_str()
    }

    /// The session opened.
    pub fn on_open(&mut self) -> (action: Action<crate::hash::Hash>)
        ensures
            (final(self)@, action@) == old(self)@.on_open(),
    {
        match self.stage {
            Stage::Created => {
                self.stage = Stage::AwaitAck;
                Action::Send(self.request.clone())
            },
            _ => Action::Nothing,
        }
    }

    /// A frame was read.
    pub fn on_frame(&mut self, frame: &Frame) -> (action: Action<crate::hash::Hash>)
        ensures
            (final(self)@, action@) == old(self)@.on_frame(frame@),
    {
        match self.stage {
            Stage::AwaitAck | Stage::AwaitFinal => {},
            _ => {
                return Action::Nothing;
            },
        }
        if submit_reply(frame) {
            if frame.error {
                self.stage = Stage::Done;
                Action::Finish(Err(CallError::Node))
            } else {
                self.stage = Stage::AwaitFinal;
                Action::Nothing
            }
        } else if update(frame) {
            match (&frame.status, &frame.finalized) {
                (Some(_), _) => Action::Nothing,
                (None, Some(text)) => {
                    self.stage = Stage::Done;
                    match hexstr_to_hash(text.as_str()) {
                        Some(hash) => Action::Finish(Ok(hash)),
                        None => Action::Finish(Err(CallError::Protocol)),
                    }
                },
                (None, None) => {
                    if frame.update_error {
                        self.stage = Stage::Done;
                        Action::Finish(Err(CallError::Node))
                    } else {
                        Action::Nothing
                    }
                },
            }
        } else {
            Action::Nothing
        }
    }

    /// A message that cannot be read arrived.
    pub fn on_garbled(&mut self) -> (action: Action<crate::hash::Hash>)
        ensures
            (final(self)@, action@) == old(self)@.on_garbled(),
    {
        match self.stage {
            Stage::AwaitAck | Stage::AwaitFinal => {
                self.stage = Stage::Done;
                Action::Finish(Err(CallError::Protocol))
            },
            _ => Action::Nothing,
        }
    }

    /// A text message arrived.
    pub fn on_message(&mut self, text: &str) -> (action: Action<crate::hash::Hash>)
        ensures
            (final(self)@, action@) == old(self)@.on_message(text@),
    {
        match decode_frame(text) {
            Ok(frame) => self.on_frame(&frame),
            Err(_) => self.on_garbled(),
        }
    }

    /// The session is gone.
    pub fn on_lost(&mut self) -> (action: Action<crate::hash::Hash>)
        ensures
            (final(self)@, action@) == old(self)@.on_lost(),
    {
        match self.stage {
            Stage::Done => Action::Nothing,
            _ => {
                self.stage = Stage::Done;
                Action::Abandon(CallError::Connection)
            },
        }
    }

    /// The deadline passed.
    pub fn on_expired(&mut self) -> (action: Action<crate::hash::Hash>)
        ensures
            (final(self)@, action@) == old(self)@.on_expired(),
    {
        match self.stage {
            Stage::Done => Action::Nothing,
            _ => {
                self.stage = Stage::Done;
                Action::Finish(Err(CallError::Timeout))
            },
        }
    }

    /// Any event.
    pub fn on_event(&mut self, event: &Event) -> (action: Action<crate::hash::Hash>)
        ensures
            (final(self)@, action@) == old(self)@.on_event(event@),
    {
        match event {
            Event::Open => self.on_open(),
            Event::Message(text) => self.on_message(text.as_str()),
            Event::Garbled => self.on_garbled(),
            Event::Lost => self.on_lost(),
            Event::Expired => self.on_expired(),
        }
    }
}

} // verus!
