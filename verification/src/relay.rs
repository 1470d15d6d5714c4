//! The vector-query relay: one component, parameterized by mode. Direct mode
//! calls the external search service through the HTTP client capability;
//! delegated mode forwards the query bytes to one fixed peer that holds the
//! credential. Either way the answer is handed back byte for byte.
use vstd::prelude::*;
use vstd::string::*;
use vstd::utf8::encode_utf8;
use crate::identity::{http_client_id, http_client_text, Address, ProcessId};
use crate::json::{append_json_quoted, json_quoted};
use crate::message::{HttpResponse, Payload, Request};

verus! {

/// Seconds a relay waits on the external HTTP client.
pub const DIRECT_TIMEOUT_SECS: u64 = 5;

/// Seconds a relay waits on the delegate peer, which makes its own outbound
/// call in turn.
pub const DELEGATED_TIMEOUT_SECS: u64 = 15;

/// Seconds the delegate waits on the external HTTP client.
pub const DELEGATE_CALL_TIMEOUT_SECS: u64 = 10;

/// How the relay reaches the vector-search backend.
pub enum RelayMode {
    Direct { api_key: String, uri: String },
    Delegated { delegate: Address },
}

/// An outbound correlated call: its destination, the request envelope, and
/// the payload bytes that ride along.
pub struct OutboundCall {
    pub to: Address,
    pub request: Request,
    pub payload: Payload,
}

/// The command body of a POST to the external search service, credential and
/// endpoint included.
pub open spec fn vector_ipc(api_key: Seq<char>, uri: Seq<char>) -> Seq<char> {
    "{\"method\":\"POST\",\"headers\":{\"Api-Key\":"@ + json_quoted(api_key)
        + ",\"accept\":\"application/json\",\"content-type\":\"application/json\"},\"uri\":"@
        + json_quoted(uri) + "}"@
}

/// Renders the command body of the external POST.
pub fn vector_ipc_text(api_key: &str, uri: &str) -> (r: String)
    ensures
        r@ == vector_ipc(api_key@, uri@),
{
    let mut out = String::from_str("{\"method\":\"POST\",\"headers\":{\"Api-Key\":");
    append_json_quoted(&mut out, api_key);
    out.append(",\"accept\":\"application/json\",\"content-type\":\"application/json\"},\"uri\":");
    append_json_quoted(&mut out, uri);
    out.append("}");
    proof {
        assert(out@ =~= vector_ipc(api_key@, uri@));
    }
    out
}

/// The shape of a direct call to the external HTTP client capability.
pub open spec fn direct_call_shape(
    node: Seq<char>,
    api_key: Seq<char>,
    uri: Seq<char>,
    timeout: u64,
    bytes: Seq<u8>,
    c: OutboundCall,
) -> bool {
    &&& c.to.node@ == node
    &&& c.to.process.text() == http_client_text()
    &&& c.request.inherit == false
    &&& c.request.expects_response == Some(timeout)
    &&& c.request.metadata is None
    &&& c.request.ipc matches Some(m) && m@ == vector_ipc(api_key, uri)
    &&& c.payload.mime matches Some(m) && m@ == "application/octet-stream"@
    &&& c.payload.bytes@ == bytes
}

/// The shape of a forwarded call to the delegate peer: an empty command
/// body, the query bytes as payload.
pub open spec fn delegated_call_shape(
    delegate: Address,
    timeout: u64,
    bytes: Seq<u8>,
    c: OutboundCall,
) -> bool {
    &&& c.to.node@ == delegate.node@
    &&& c.to.process.text() == delegate.process.text()
    &&& c.request.inherit == false
    &&& c.request.expects_response == Some(timeout)
    &&& c.request.metadata is None
    &&& c.request.ipc matches Some(m) && m@ == "{}"@
    &&& c.payload.mime matches Some(m) && m@ == "application/octet-stream"@
    &&& c.payload.bytes@ == bytes
}

/// What the relay sends for one query, by mode.
pub open spec fn relay_call_shape(
    node: Seq<char>,
    mode: RelayMode,
    bytes: Seq<u8>,
    c: OutboundCall,
) -> bool {
    match mode {
        RelayMode::Direct { api_key, uri } => direct_call_shape(
            node,
            api_key@,
            uri@,
            DIRECT_TIMEOUT_SECS,
            bytes,
            c,
        ),
        RelayMode::Delegated { delegate } => delegated_call_shape(
            delegate,
            DELEGATED_TIMEOUT_SECS,
            bytes,
            c,
        ),
    }
}

/// Builds the direct call to the external HTTP client.
pub fn build_direct_call(
    our_node: &String,
    api_key: &String,
    uri: &String,
    timeout: u64,
    bytes: Vec<u8>,
) -> (c: OutboundCall)
    ensures
        direct_call_shape(our_node@, api_key@, uri@, timeout, bytes@, c),
{
    OutboundCall {
        to: Address { node: our_node.clone(), process: http_client_id() },
        request: Request {
            inherit: false,
            expects_response: Some(timeout),
            ipc: Some(vector_ipc_text(api_key.as_str(), uri.as_str())),
            metadata: None,
        },
        payload: Payload { mime: Some(String::from_str("application/octet-stream")), bytes },
    }
}

/// Builds the outbound call for one query, by mode.
pub fn build_relay_call(our_node: &String, mode: &RelayMode, bytes: Vec<u8>) -> (c: OutboundCall)
    ensures
        relay_call_shape(our_node@, *mode, bytes@, c),
{
    match mode {
        RelayMode::Direct { api_key, uri } => build_direct_call(
            our_node,
            api_key,
            uri,
            DIRECT_TIMEOUT_SECS,
            bytes,
        ),
        RelayMode::Delegated { delegate } => OutboundCall {
            to: Address {
                node: delegate.node.clone(),
                process: ProcessId {
                    name: delegate.process.name.clone(),
                    package: delegate.process.package.clone(),
                    publisher: delegate.process.publisher.clone(),
                },
            },
            request: Request {
                inherit: false,
                expects_response: Some(DELEGATED_TIMEOUT_SECS),
                ipc: Some(String::from_str("{}")),
                metadata: None,
            },
            payload: Payload { mime: Some(String::from_str("application/octet-stream")), bytes },
        },
    }
}

/// What the relay answers the HTTP caller once the awaited call settles: the
/// backend's bytes verbatim with status 200, or a bad-gateway failure when
/// the call timed out or came back without a payload.
pub open spec fn relay_reply_post(outcome: Option<Payload>, r: HttpResponse) -> bool {
    match outcome {
        Some(p) => {
            &&& r.status == 200
            &&& r.headers@.len() == 1
            &&& r.headers@[0].0@ == "content-type"@
            &&& r.headers@[0].1@ == "application/json"@
            &&& r.body@ == p.bytes@
        },
        None => {
            &&& r.status == 502
            &&& r.headers@.len() == 1
            &&& r.headers@[0].0@ == "Content-Type"@
            &&& r.headers@[0].1@ == "text/html"@
            &&& r.body@ == encode_utf8("Bad Gateway"@)
        },
    }
}

/// Answers the original HTTP caller from the awaited call's outcome.
pub fn relay_reply(outcome: Option<Payload>) -> (r: HttpResponse)
    ensures
        relay_reply_post(outcome, r),
{
    match outcome {
        Some(p) => {
            let mut hs: Vec<(String, String)> = Vec::new();
            hs.push((String::from_str("content-type"), String::from_str("application/json")));
            HttpResponse { status: 200, headers: hs, body: p.bytes }
        },
        None => {
            let mut hs: Vec<(String, String)> = Vec::new();
            hs.push((String::from_str("Content-Type"), String::from_str("text/html")));
            HttpResponse { status: 502, headers: hs, body: "Bad Gateway".as_bytes_vec() }
        },
    }
}

/// Repeating the same query against a stable backend yields the same
/// answer: equal backend bytes give equal status, headers and body, and the
/// status is 200 with a JSON content type however often the call is made.
pub proof fn lemma_relay_reply_stable(p1: Payload, p2: Payload, r1: HttpResponse, r2: HttpResponse)
    requires
        p1.bytes@ == p2.bytes@,
        relay_reply_post(Some(p1), r1),
        relay_reply_post(Some(p2), r2),
    ensures
        r1.status == 200 && r2.status == 200,
        r1.headers@[0].0@ == "content-type"@ && r1.headers@[0].1@ == "application/json"@,
        r1.headers@[0].0@ == r2.headers@[0].0@ && r1.headers@[0].1@ == r2.headers@[0].1@,
        r1.body@ == r2.body@,
{
}

} // verus!
