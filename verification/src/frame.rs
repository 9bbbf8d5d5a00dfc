//! What the responders read in a frame from the node.

use vstd::prelude::*;
use crate::error::CallError;
use crate::json::{json_read, member, parse, tree_of, Json};

verus! {

/// The model of an optional text.
pub open spec fn text_view(text: Option<String>) -> Option<Seq<char>> {
    match text {
        Some(s) => Some(s@),
        None => None,
    }
}

/// The member `key` of a document, where there is a document.
pub open spec fn under(doc: Option<Json>, key: Seq<char>) -> Option<Json> {
    match doc {
        Some(d) => d.member(key),
        None => None,
    }
}

/// The text of a document, where there is a document and it is a string.
pub open spec fn text_in(doc: Option<Json>) -> Option<Seq<char>> {
    match doc {
        Some(d) => d.text(),
        None => None,
    }
}

fn step<'a>(doc: Option<&'a serde_json::Value>, key: &str) -> (r: Option<&'a serde_json::Value>)
    ensures
        tree_of(r) == under(tree_of(doc), key@),
{
    match doc {
        Some(d) => member(d, key),
        None => None,
    }
}

fn text<'a>(doc: Option<&'a serde_json::Value>) -> (r: Option<String>)
    ensures
        text_view(r) == text_in(tree_of(doc)),
{
    match doc {
        Some(d) => match d.as_str() {
            Some(s) => Some(s.to_owned()),
            None => None,
        },
        None => None,
    }
}

/// What the one-shot responder reads in a reply.
#[derive(Clone, Debug, PartialEq, Eq)]
pub struct Reply {
    /// The member `result`, where it is a string.
    pub result: Option<String>,
}

/// The model of a [`Reply`].
pub struct ReplyView {
    pub result: Option<Seq<char>>,
}

impl View for Reply {
    type V = ReplyView;

    open spec fn view(&self) -> ReplyView {
        ReplyView { result: text_view(self.result) }
    }
}

/// What the submission responder reads in a frame.
#[derive(Clone, Debug, PartialEq, Eq)]
pub struct Frame {
    /// The member `id`, where it is a string.
    pub id: Option<String>,
    /// Whether the frame has a member `error`.
    pub error: bool,
    /// The member `method`, where it is a string.
    pub method: Option<String>,
    /// The member `result` of `params`, where it is a string.
    pub status: Option<String>,
    /// The member `finalized` of that `result`, where it is a string.
    pub finalized: Option<String>,
    /// Whether `params` has a member `error`.
    pub update_error: bool,
}

/// The model of a [`Frame`].
pub struct FrameView {
    pub id: Option<Seq<char>>,
    pub error: bool,
    pub method: Option<Seq<char>>,
    pub status: Option<Seq<char>>,
    pub finalized: Option<Seq<char>>,
    pub update_error: bool,
}

impl View for Frame {
    type V = FrameView;

    open spec fn view(&self) -> FrameView {
        FrameView {
            id: text_view(self.id),
            error: self.error,
            method: text_view(self.method),
            status: text_view(self.status),
            finalized: text_view(self.finalized),
            update_error: self.update_error,
        }
    }
}

/// What a one-shot responder reads in a document.
pub open spec fn reply_in(doc: Json) -> ReplyView {
    ReplyView { result: text_in(under(Some(doc), "result"@)) }
}

/// What a submission responder reads in a document.
pub open spec fn frame_in(doc: Json) -> FrameView {
    let params = under(Some(doc), "params"@);
    let result = under(params, "result"@);
    FrameView {
        id: text_in(under(Some(doc), "id"@)),
        error: under(Some(doc), "error"@) is Some,
        method: text_in(under(Some(doc), "method"@)),
        status: text_in(result),
        finalized: text_in(under(result, "finalized"@)),
        update_error: under(params, "error"@) is Some,
    }
}

/// In a frame read from a document, a plain status and a finalized block
/// exclude each other: the `result` of `params` is a string or an object,
/// never both.
pub proof fn lemma_status_excludes_finalized(doc: Json)
    ensures
        !(frame_in(doc).status is Some && frame_in(doc).finalized is Some),
{
}

/// Reads a reply to a one-shot request. A text that is no JSON document is
/// a protocol error; any document is read.
pub fn decode_reply(text: &str) -> (r: Result<Reply, CallError>)
    ensures
        match r {
            Ok(reply) => json_read(text@) matches Some(doc) && reply@ == reply_in(doc),
            Err(e) => e == CallError::Protocol && json_read(text@) is None,
        },
{
    match parse(text) {
        Ok(doc) => Ok(Reply { result: self::text(step(Some(&doc), "result")) }),
        Err(_) => Err(CallError::Protocol),
    }
}

/// Reads a frame of a submission. A text that is no JSON document is a
/// protocol error; any document is read.
pub fn decode_frame(text: &str) -> (r: Result<Frame, CallError>)
    ensures
        match r {
            Ok(frame) => json_read(text@) matches Some(doc) && frame@ == frame_in(doc),
            Err(e) => e == CallError::Protocol && json_read(text@) is None,
        },
{
    match parse(text) {
        Ok(doc) => {
            let params = step(Some(&doc), "params");
            let result = step(params, "result");
            Ok(
                Frame {
                    id: self::text(step(Some(&doc), "id")),
                    error: step(Some(&doc), "error").is_some(),
                    method: self::text(step(Some(&doc), "method")),
                    status: self::text(result),
                    finalized: self::text(step(result, "finalized")),
                    update_error: step(params, "error").is_some(),
                },
            )
        },
        Err(_) => Err(CallError::Protocol),
    }
}

} // verus!
