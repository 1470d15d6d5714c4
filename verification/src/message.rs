//! The two message shapes of the transport, the out-of-band payload, and the
//! HTTP response surface emitted back through the transport.
use vstd::prelude::*;
use vstd::string::*;
use crate::json::{append_headers_object, append_u16, dec_text, headers_object};

verus! {

/// Out-of-band binary data attached to a message.
pub struct Payload {
    pub mime: Option<String>,
    pub bytes: Vec<u8>,
}

/// A request: may open a correlation (`expects_response` holds the timeout in
/// seconds) and may carry a JSON command body in `ipc`.
pub struct Request {
    pub inherit: bool,
    pub expects_response: Option<u64>,
    pub ipc: Option<String>,
    pub metadata: Option<String>,
}

/// A response: mirrors a request without `expects_response`.
pub struct Response {
    pub inherit: bool,
    pub ipc: Option<String>,
    pub metadata: Option<String>,
}

/// The tagged union the dispatcher consumes.
pub enum Message {
    Request(Request),
    Response(Response),
}

/// An HTTP response as this process emits it: status, headers in order, and
/// the body bytes.
pub struct HttpResponse {
    pub status: u16,
    pub headers: Vec<(String, String)>,
    pub body: Vec<u8>,
}

/// The ipc text that announces an HTTP response: its status and headers.
pub open spec fn response_meta(status: u16, hs: Seq<(String, String)>) -> Seq<char> {
    "{\"status\":"@ + dec_text(status as nat) + ",\"headers\":"@ + headers_object(hs) + "}"@
}

/// Renders the response announcement text.
pub fn response_meta_text(status: u16, hs: &Vec<(String, String)>) -> (r: String)
    ensures
        r@ == response_meta(status, hs@),
{
    let mut out = String::from_str("{\"status\":");
    append_u16(&mut out, status);
    out.append(",\"headers\":");
    append_headers_object(&mut out, hs);
    out.append("}");
    proof {
        assert(out@ =~= response_meta(status, hs@));
    }
    out
}

/// The message pair that carries one HTTP response over the transport: the
/// response envelope with the announcement text, and the body as payload.
pub fn http_response_message(status: u16, headers: &Vec<(String, String)>, body: Vec<u8>) -> (r: (
    Response,
    Payload,
))
    ensures
        r.0.inherit == false,
        r.0.metadata is None,
        r.0.ipc matches Some(m) && m@ == response_meta(status, headers@),
        r.1.mime matches Some(m) && m@ == "application/octet-stream"@,
        r.1.bytes@ == body@,
{
    let meta = response_meta_text(status, headers);
    (
        Response { inherit: false, ipc: Some(meta), metadata: None },
        Payload { mime: Some(String::from_str("application/octet-stream")), bytes: body },
    )
}

} // verus!
