//! What a transport reports to a responder, and what a responder asks of it.

use vstd::prelude::*;
use crate::error::CallError;

verus! {

/// What the transport session reports, in the order in which it happens.
#[derive(Clone, Debug, PartialEq, Eq)]
pub enum Event {
    /// The handshake succeeded: the session is open for sending.
    Open,
    /// A text message arrived.
    Message(String),
    /// A message arrived that holds no text.
    Garbled,
    /// The session could not be opened, a send failed, or the session ended.
    Lost,
    /// The caller's deadline passed.
    Expired,
}

/// The model of an [`Event`].
pub enum EventView {
    Open,
    Message(Seq<char>),
    Garbled,
    Lost,
    Expired,
}

impl View for Event {
    type V = EventView;

    open spec fn view(&self) -> EventView {
        match self {
            Event::Open => EventView::Open,
            Event::Message(text) => EventView::Message(text@),
            Event::Garbled => EventView::Garbled,
            Event::Lost => EventView::Lost,
            Event::Expired => EventView::Expired,
        }
    }
}

/// The models of some events, in order.
pub open spec fn event_views(events: Seq<Event>) -> Seq<EventView> {
    events.map_values(|e: Event| e@)
}

/// What a responder asks of the transport after an event.
#[derive(Debug, PartialEq, Eq)]
pub enum Action<T> {
    /// Nothing is to be done.
    Nothing,
    /// Send this text over the session.
    Send(String),
    /// Hand the outcome to the caller and close the session, as a normal
    /// closure.
    Finish(Result<T, CallError>),
    /// Hand the failure to the caller; the session is gone already.
    Abandon(CallError),
}

/// The model of an [`Action`].
pub enum Reaction<V> {
    Nothing,
    Send(Seq<char>),
    Finish(Result<V, CallError>),
    Abandon(CallError),
}

impl<V> Reaction<V> {
    /// What the caller receives through this reaction, if anything.
    pub open spec fn outcome(self) -> Option<Result<V, CallError>> {
        match self {
            Reaction::Finish(outcome) => Some(outcome),
            Reaction::Abandon(e) => Some(Err(e)),
            _ => None,
        }
    }

    /// Whether the reaction closes the session.
    pub open spec fn closes(self) -> bool {
        self is Finish
    }

    /// Whether the reaction sends a text.
    pub open spec fn sends(self) -> bool {
        self is Send
    }
}

impl<T: View> View for Action<T> {
    type V = Reaction<T::V>;

    open spec fn view(&self) -> Reaction<T::V> {
        match self {
            Action::Nothing => Reaction::Nothing,
            Action::Send(text) => Reaction::Send(text@),
            Action::Finish(Ok(value)) => Reaction::Finish(Ok(value@)),
            Action::Finish(Err(e)) => Reaction::Finish(Err(*e)),
            Action::Abandon(e) => Reaction::Abandon(*e),
        }
    }
}

/// The model of what a caller receives.
pub open spec fn outcome_view<T: View>(outcome: Option<Result<T, CallError>>) -> Option<
    Result<T::V, CallError>,
> {
    match outcome {
        Some(Ok(value)) => Some(Ok(value@)),
        Some(Err(e)) => Some(Err(e)),
        None => None,
    }
}

impl<T: View> Action<T> {
    /// What the caller receives through this action, if anything.
    pub fn into_outcome(self) -> (r: Option<Result<T, CallError>>)
        ensures
            outcome_view(r) == self@.outcome(),
    {
        match self {
            Action::Finish(outcome) => Some(outcome),
            Action::Abandon(e) => Some(Err(e)),
            _ => None,
        }
    }

    /// Whether the session is to be closed.
    pub fn closes(&self) -> (r: bool)
        ensures
            r == self@.closes(),
    {
        match self {
            Action::Finish(_) => true,
            _ => false,
        }
    }
}

} // verus!
