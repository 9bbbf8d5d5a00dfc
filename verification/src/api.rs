//! The client: the node it talks to, and the calls it offers.

use vstd::prelude::*;
use crate::action::{event_views, outcome_view, Event, EventView};
use crate::bridge::{get_response, response_to, submission_of, submit};
use crate::error::CallError;
use crate::hash::{hash_of_hexstr, hexstr_to_hash};
use crate::request::{
    genesis_request, genesis_request_view, storage_request, storage_request_view, submit_request,
    submit_request_view,
};

verus! {

/// The endpoint of a node on this machine.
pub const WS_URL_LOCAL: &'static str = "ws://127.0.0.1:9944";

/// Where a node is reached.
#[derive(Clone, Copy, Debug, PartialEq, Eq)]
pub enum Url {
    /// The node on this machine, at [`WS_URL_LOCAL`].
    Local,
    /// A node at the given endpoint.
    Custom(&'static str),
}

impl Url {
    /// The endpoint that a target stands for.
    pub open spec fn address(self) -> Seq<char> {
        match self {
            Url::Local => WS_URL_LOCAL@,
            Url::Custom(url) => url@,
        }
    }
}

/// A client bound to one node. It is read only once made.
#[derive(Debug)]
pub struct Api {
    url: String,
    genesis_hash: Option<crate::hash::Hash>,
}

/// The model of an [`Api`].
pub struct ApiView {
    pub url: Seq<char>,
    pub genesis_hash: Option<Seq<u8>>,
}

impl View for Api {
    type V = ApiView;

    closed spec fn view(&self) -> ApiView {
        ApiView {
            url: self.url@,
            genesis_hash: match self.genesis_hash {
                Some(hash) => Some(hash@),
                None => None,
            },
        }
    }
}

/// The hash of the first block, as a lookup over the events of its session
/// finds it. A lookup that does not return a result is a connection error;
/// a result that spells no hash is a protocol error.
pub open spec fn genesis_found(events: Seq<EventView>) -> Result<Seq<u8>, CallError> {
    match response_to(genesis_request_view().text(), events) {
        Some(Ok(text)) => match hash_of_hexstr(text) {
            Some(hash) => Ok(hash),
            None => Err(CallError::Protocol),
        },
        _ => Err(CallError::Connection),
    }
}

/// The client that [`Api::init`] makes.
pub open spec fn client_of(url: Url, lookup: Option<Seq<EventView>>) -> Result<ApiView, CallError> {
    match lookup {
        None => Ok(ApiView { url: url.address(), genesis_hash: None }),
        Some(events) => match genesis_found(events) {
            Ok(hash) => Ok(ApiView { url: url.address(), genesis_hash: Some(hash) }),
            Err(e) => Err(e),
        },
    }
}

/// The model of an optional run of events.
pub open spec fn lookup_view(lookup: Option<&[Event]>) -> Option<Seq<EventView>> {
    match lookup {
        Some(events) => Some(event_views(events@)),
        None => None,
    }
}

impl Api {
    /// A client for the node at `url`. With the events of a lookup session,
    /// the client also learns the hash of the node's first block from it,
    /// and fails where the lookup does.
    pub fn init(url: Url, lookup: Option<&[Event]>) -> (r: Result<Api, CallError>)
        ensures
            match r {
                Ok(api) => client_of(url, lookup_view(lookup)) == Ok::<ApiView, CallError>(api@),
                Err(e) => client_of(url, lookup_view(lookup)) == Err::<ApiView, CallError>(e),
            },
    {
        let address = match url {
            Url::Local => WS_URL_LOCAL.to_owned(),
            Url::Custom(url) => url.to_owned(),
        };
        let api = Api { url: address, genesis_hash: None };
        match lookup {
            None => Ok(api),
            Some(events) => match get_response(genesis_request().render(), events) {
                Some(Ok(text)) => api.with_genesis(text.as_str()),
                _ => Err(CallError::Connection),
            },
        }
    }

    /// The same client, knowing the hash of the node's first block from
    /// the result of a lookup. A result that spells no hash is a protocol
    /// error.
    pub fn with_genesis(self, result: &str) -> (r: Result<Api, CallError>)
        ensures
            match r {
                Ok(api) => hash_of_hexstr(result@) matches Some(hash) && api@ == (ApiView {
                    url: self@.url,
                    genesis_hash: Some(hash),
                }),
                Err(e) => e == CallError::Protocol && hash_of_hexstr(result@) is None,
            },
    {
        match hexstr_to_hash(result) {
            Some(hash) => Ok(Api { url: self.url, genesis_hash: Some(hash) }),
            None => Err(CallError::Protocol),
        }
    }

    /// The endpoint of the node.
    pub fn url(&self) -> (url: &str)
        ensures
            url@ == self@.url,
    {
        self.url.as_str()
    }

    /// The hash of the node's first block, where the client has looked it
    /// up.
    pub fn genesis_hash(&self) -> (hash: Option<crate::hash::Hash>)
        ensures
            match hash {
                Some(h) => self@.genesis_hash == Some(h@),
                None => self@.genesis_hash is None,
            },
    {
        self.genesis_hash
    }

    /// Reads the storage under `key_hash`, over the events of the call's
    /// session: the result that the node replies, as it stands.
    pub fn get_storage(&self, key_hash: &str, events: &[Event]) -> (r: Option<
        Result<String, CallError>,
    >)
        ensures
            outcome_view(r) == response_to(
                storage_request_view(key_hash@).text(),
                event_views(events@),
            ),
    {
        get_response(storage_request(key_hash).render(), events)
    }

    /// Submits a signed extrinsic, over the events of the call's session:
    /// the hash of the block that finalized it.
    pub fn submit_extrinsic(&self, params: String, events: &[Event]) -> (r: Option<
        Result<crate::hash::Hash, CallError>,
    >)
        ensures
            outcome_view(r) == submission_of(
                submit_request_view(params@).text(),
                event_views(events@),
            ),
    {
        submit(submit_request(params.as_str()).render(), events)
    }
}

} // verus!
