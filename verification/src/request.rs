//! The requests of a call: JSON-RPC envelopes, and the text that goes over
//! the wire.

use vstd::prelude::*;
use vstd::string::StringExecFns;
use crate::hash::{digit_char, hex_digit};
use crate::submitter::REQUEST_SUBMIT;
use crate::text::{chars_of, decimal_digit, decimal_text};

verus! {

/// The method that reads the hash of a block.
pub const METHOD_BLOCK_HASH: &'static str = "chain_getBlockHash";

/// The method that reads storage.
pub const METHOD_GET_STORAGE: &'static str = "state_getStorage";

/// The method that submits an extrinsic and subscribes to what becomes of
/// it.
pub const METHOD_SUBMIT: &'static str = "author_submitAndWatchExtrinsic";

/// The identifier of the one-shot requests.
pub const REQUEST_ONE_SHOT: u32 = 1;

/// What stands for one character inside a JSON string.
pub open spec fn escaped(c: char) -> Seq<char> {
    if c == '"' {
        seq!['\\', '"']
    } else if c == '\\' {
        seq!['\\', '\\']
    } else if c == '\u{8}' {
        seq!['\\', 'b']
    } else if c == '\t' {
        seq!['\\', 't']
    } else if c == '\n' {
        seq!['\\', 'n']
    } else if c == '\u{c}' {
        seq!['\\', 'f']
    } else if c == '\r' {
        seq!['\\', 'r']
    } else if (c as u32) < 0x20 {
        seq!['\\', 'u', '0', '0', hex_digit(c as int / 16), hex_digit(c as int % 16)]
    } else {
        seq![c]
    }
}

/// The characters of a text, each as it stands inside a JSON string.
pub open spec fn escaped_text(s: Seq<char>) -> Seq<char>
    decreases s.len(),
{
    if s.len() == 0 {
        Seq::empty()
    } else {
        escaped_text(s.drop_last()) + escaped(s.last())
    }
}

/// A text as a JSON string.
pub open spec fn quoted(s: Seq<char>) -> Seq<char> {
    seq!['"'] + escaped_text(s) + seq!['"']
}

/// A parameter of a request.
#[derive(Debug, PartialEq, Eq)]
pub enum Param {
    /// A JSON string.
    Text(String),
    /// A JSON number.
    Number(u64),
}

/// The model of a [`Param`].
pub enum ParamView {
    Text(Seq<char>),
    Number(nat),
}

impl View for Param {
    type V = ParamView;

    open spec fn view(&self) -> ParamView {
        match self {
            Param::Text(s) => ParamView::Text(s@),
            Param::Number(n) => ParamView::Number(*n as nat),
        }
    }
}

/// A parameter as JSON.
pub open spec fn param_text(param: ParamView) -> Seq<char> {
    match param {
        ParamView::Text(s) => quoted(s),
        ParamView::Number(n) => decimal_text(n),
    }
}

/// Some parameters as the members of a JSON array.
pub open spec fn params_text(params: Seq<ParamView>) -> Seq<char>
    decreases params.len(),
{
    if params.len() == 0 {
        Seq::empty()
    } else if params.len() == 1 {
        param_text(params[0])
    } else {
        params_text(params.drop_last()) + seq![','] + param_text(params.last())
    }
}

/// The model of a [`Request`].
pub struct RequestView {
    pub method: Seq<char>,
    pub params: Seq<ParamView>,
    pub id: Seq<char>,
}

impl RequestView {
    /// The envelope as it goes over the wire: the method, the parameters,
    /// the protocol version `2.0`, and the identifier as a string.
    pub open spec fn text(self) -> Seq<char> {
        "{\"method\":"@ + quoted(self.method) + ",\"params\":["@ + params_text(self.params)
            + "],\"jsonrpc\":\"2.0\",\"id\":"@ + quoted(self.id) + "}"@
    }
}

/// The request of one call. It is built once, and read only.
#[derive(Debug, PartialEq, Eq)]
pub struct Request {
    method: String,
    params: Vec<Param>,
    id: String,
}

impl View for Request {
    type V = RequestView;

    closed spec fn view(&self) -> RequestView {
        RequestView {
            method: self.method@,
            params: self.params@.map_values(|p: Param| p@),
            id: self.id@,
        }
    }
}

fn push_escaped(out: &mut String, c: char)
    ensures
        final(out)@ == old(out)@ + escaped(c),
{
    let ghost before = out@;
    if c == '"' {
        out.push('\\');
        out.push('"');
    } else if c == '\\' {
        out.push('\\');
        out.push('\\');
    } else if c == '\u{8}' {
        out.push('\\');
        out.push('b');
    } else if c == '\t' {
        out.push('\\');
        out.push('t');
    } else if c == '\n' {
        out.push('\\');
        out.push('n');
    } else if c == '\u{c}' {
        out.push('\\');
        out.push('f');
    } else if c == '\r' {
        out.push('\\');
        out.push('r');
    } else if (c as u32) < 0x20 {
        let code: u8 = c as u32 as u8;
        out.push('\\');
        out.push('u');
        out.push('0');
        out.push('0');
        out.push(digit_char(code / 16));
        out.push(digit_char(code % 16));
    } else {
        out.push(c);
    }
    assert(out@ =~= before + escaped(c));
}

fn push_quoted(out: &mut String, s: &str)
    ensures
        final(out)@ == old(out)@ + quoted(s@),
{
    let ghost before = out@;
    let chars = chars_of(s);
    out.push('"');
    let mut i: usize = 0;
    while i < chars.len()
        invariant
            i <= chars.len(),
            out@ == before + seq!['"'] + escaped_text(chars@.take(i as int)),
        decreases chars.len() - i,
    {
        push_escaped(out, chars[i]);
        proof {
            assert(chars@.take(i + 1).drop_last() =~= chars@.take(i as int));
            assert(chars@.take(i + 1).last() == chars@[i as int]);
            assert(out@ =~= before + seq!['"'] + escaped_text(chars@.take(i + 1)));
        }
        i += 1;
    }
    out.push('"');
    proof {
        assert(chars@.take(chars.len() as int) =~= s@);
        assert(out@ =~= before + quoted(s@));
    }
}

fn push_decimal(out: &mut String, n: u64)
    ensures
        final(out)@ == old(out)@ + decimal_text(n as nat),
    decreases n,
{
    let ghost before = out@;
    if n >= 10 {
        push_decimal(out, n / 10);
    }
    let digit = digit_char((n % 10) as u8);
    assert(digit == decimal_digit((n % 10) as nat));
    out.push(digit);
    assert(out@ =~= before + decimal_text(n as nat));
}

fn push_param(out: &mut String, param: &Param)
    ensures
        final(out)@ == old(out)@ + param_text(param@),
{
    match param {
        Param::Text(s) => push_quoted(out, s.as_str()),
        Param::Number(n) => push_decimal(out, *n),
    }
}

impl Request {
    /// A request with this method, these parameters and this identifier.
    pub fn new(method: String, params: Vec<Param>, id: String) -> (r: Request)
        ensures
            r@ == (RequestView {
                method: method@,
                params: params@.map_values(|p: Param| p@),
                id: id@,
            }),
    {
        Request { method, params, id }
    }

    /// The method of the request.
    pub fn method(&self) -> (m: &str)
        ensures
            m@ == self@.method,
    {
        self.method.as_str()
    }

    /// The identifier of the request.
    pub fn id(&self) -> (id: &str)
        ensures
            id@ == self@.id,
    {
        self.id.as_str()
    }

    /// The number of parameters of the request.
    pub fn param_count(&self) -> (n: usize)
        ensures
            n == self@.params.len(),
    {
        self.params.len()
    }

    /// The text of the request, as it goes over the wire.
    pub fn render(&self) -> (text: String)
        ensures
            text@ == self@.text(),
    {
        let ghost params = self@.params;
        let mut out = String::new();
        out.append("{\"method\":");
        push_quoted(&mut out, self.method.as_str());
        out.append(",\"params\":[");
        let ghost head = out@;
        let mut i: usize = 0;
        while i < self.params.len()
            invariant
                i <= self.params.len(),
                params == self.params@.map_values(|p: Param| p@),
                out@ == head + params_text(params.take(i as int)),
            decreases self.params.len() - i,
        {
            if i > 0 {
                out.push(',');
            }
            push_param(&mut out, &self.params[i]);
            proof {
                assert(params.take(i + 1).drop_last() =~= params.take(i as int));
                assert(params.take(i + 1).last() == self.params@[i as int]@);
                assert(params.take(i + 1)[0] == params[0]);
                assert(out@ =~= head + params_text(params.take(i + 1)));
            }
            i += 1;
        }
        proof {
            assert(params.take(self.params.len() as int) =~= params);
        }
        out.append("],\"jsonrpc\":\"2.0\",\"id\":");
        push_quoted(&mut out, self.id.as_str());
        out.append("}");
        proof {
            assert(out@ =~= self@.text());
        }
        out
    }
}

/// The identifier `n` as the text of a request's `id`.
pub fn id_text(n: u32) -> (id: String)
    ensures
        id@ == decimal_text(n as nat),
{
    let mut id = String::new();
    push_decimal(&mut id, n as u64);
    assert(id@ =~= decimal_text(n as nat));
    id
}

/// The model of the request that reads the hash of the first block.
pub open spec fn genesis_request_view() -> RequestView {
    RequestView {
        method: METHOD_BLOCK_HASH@,
        params: seq![ParamView::Number(0)],
        id: decimal_text(REQUEST_ONE_SHOT as nat),
    }
}

/// The model of the request that reads storage under a key.
pub open spec fn storage_request_view(key_hash: Seq<char>) -> RequestView {
    RequestView {
        method: METHOD_GET_STORAGE@,
        params: seq![ParamView::Text(key_hash)],
        id: decimal_text(REQUEST_ONE_SHOT as nat),
    }
}

/// The model of the request that submits a signed extrinsic.
pub open spec fn submit_request_view(extrinsic: Seq<char>) -> RequestView {
    RequestView {
        method: METHOD_SUBMIT@,
        params: seq![ParamView::Text(extrinsic)],
        id: decimal_text(REQUEST_SUBMIT as nat),
    }
}

/// The request that reads the hash of the first block.
pub fn genesis_request() -> (r: Request)
    ensures
        r@ == genesis_request_view(),
{
    let mut params: Vec<Param> = Vec::new();
    params.push(Param::Number(0));
    let r = Request::new(METHOD_BLOCK_HASH.to_owned(), params, id_text(REQUEST_ONE_SHOT));
    assert(r@.params =~= seq![ParamView::Number(0)]);
    r
}

/// The request that reads storage under a key.
pub fn storage_request(key_hash: &str) -> (r: Request)
    ensures
        r@ == storage_request_view(key_hash@),
{
    let mut params: Vec<Param> = Vec::new();
    params.push(Param::Text(key_hash.to_owned()));
    let r = Request::new(METHOD_GET_STORAGE.to_owned(), params, id_text(REQUEST_ONE_SHOT));
    assert(r@.params =~= seq![ParamView::Text(key_hash@)]);
    r
}

/// The request that submits a signed extrinsic, under the identifier
/// [`REQUEST_SUBMIT`].
pub fn submit_request(extrinsic: &str) -> (r: Request)
    ensures
        r@ == submit_request_view(extrinsic@),
{
    let mut params: Vec<Param> = Vec::new();
    params.push(Param::Text(extrinsic.to_owned()));
    let r = Request::new(METHOD_SUBMIT.to_owned(), params, id_text(REQUEST_SUBMIT));
    assert(r@.params =~= seq![ParamView::Text(extrinsic@)]);
    r
}

} // verus!
