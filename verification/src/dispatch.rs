//! The inbound dispatcher: one step of the steady-state loop. It classifies
//! the envelope's source by the textual process identity, parses the command
//! body, and decides what the process does next. The surrounding loop —
//! receiving envelopes, sending what is decided here, awaiting correlated
//! replies — is the transport's side.
use vstd::prelude::*;
use vstd::string::*;
use vstd::utf8::encode_utf8;
use crate::identity::{registrar_id, registrar_text, self_id, self_text, Address};
use crate::json::{json_parses, json_path_of, parse_ipc_path};
use crate::message::{HttpResponse, Message, Payload};
use crate::page::{render_page, spec_render};
use crate::registrar::{root_path, vector_path, worker_path};
use crate::relay::{build_relay_call, relay_call_shape, OutboundCall, RelayMode};
use crate::text::str_eq;

verus! {

/// The process-wide configuration loaded once at startup: the embedded page,
/// script and style texts, the worker script, and the relay mode with its
/// credential or peer.
pub struct Config {
    pub page: String,
    pub js: String,
    pub css: String,
    pub worker_js: String,
    pub mode: RelayMode,
}

/// Why an envelope is dropped without an answer.
#[derive(Clone, Copy, Debug, PartialEq, Eq, Structural)]
pub enum DiscardReason {
    /// A response arrived where only requests are expected.
    UnexpectedResponse,
    /// The request carried no command body.
    MissingIpc,
    /// The command body was not a JSON document.
    MalformedIpc,
    /// A message from this process's own peer identity: noted, nothing more.
    InternalMessage,
    /// A source that is neither the registrar nor this process.
    UnknownSource,
    /// A request that needs a payload arrived without one.
    MissingPayload,
}

/// What one dispatcher step decides: drop the envelope, answer the HTTP
/// caller at once, or issue a correlated outbound call whose outcome is
/// answered through `relay_reply`.
pub enum Dispatch {
    Discard(DiscardReason),
    Respond(HttpResponse),
    Relay(OutboundCall),
}

/// An HTTP response of the given status with one header pair and this body.
pub open spec fn plain_response(
    r: Dispatch,
    status: u16,
    key: Seq<char>,
    value: Seq<char>,
    body: Seq<u8>,
) -> bool {
    &&& r matches Dispatch::Respond(h) && h.status == status && h.headers@.len() == 1
        && h.headers@[0].0@ == key && h.headers@[0].1@ == value && h.body@ == body
}

/// How a request from the HTTP layer is routed by its path: the rendered
/// root page, the worker script, the vector relay, or a 404.
pub open spec fn routed(
    cfg: Config,
    our: Address,
    source: Address,
    payload: Option<Payload>,
    path: Seq<char>,
    r: Dispatch,
) -> bool {
    if path == root_path() {
        plain_response(
            r,
            200,
            "Content-Type"@,
            "text/html"@,
            encode_utf8(
                spec_render(cfg.page@, our.node@, source.process.text(), cfg.js@, cfg.css@),
            ),
        )
    } else if path == worker_path() {
        plain_response(
            r,
            200,
            "Content-Type"@,
            "application/javascript"@,
            encode_utf8(cfg.worker_js@),
        )
    } else if path == vector_path() {
        match payload {
            Some(p) => r matches Dispatch::Relay(c) && relay_call_shape(
                our.node@,
                cfg.mode,
                p.bytes@,
                c,
            ),
            None => plain_response(r, 400, "Content-Type"@, "text/html"@, encode_utf8(
                "Bad Request"@,
            )),
        }
    } else {
        plain_response(r, 404, "Content-Type"@, "text/html"@, encode_utf8("Not Found"@))
    }
}

/// Builds a header mapping of one pair.
fn header_pair(k: &str, v: &str) -> (hs: Vec<(String, String)>)
    ensures
        hs@.len() == 1,
        hs@[0].0@ == k@,
        hs@[0].1@ == v@,
{
    let mut hs: Vec<(String, String)> = Vec::new();
    hs.push((String::from_str(k), String::from_str(v)));
    hs
}

/// One dispatcher step over an inbound envelope.
///
/// A response, a request without a command body, and a body that does not
/// parse are dropped, each under its reason; so are messages from this
/// process itself and from unknown sources. What the registrar forwards from
/// the HTTP layer is routed by its path.
pub fn dispatch(
    cfg: &Config,
    our: &Address,
    source: &Address,
    message: &Message,
    payload: Option<Payload>,
) -> (r: Dispatch)
    ensures
        message is Response ==> r == Dispatch::Discard(DiscardReason::UnexpectedResponse),
        message matches Message::Request(q) && q.ipc is None ==> r == Dispatch::Discard(
            DiscardReason::MissingIpc,
        ),
        message matches Message::Request(q) && q.ipc matches Some(t) && !json_parses(t@) ==> r
            == Dispatch::Discard(DiscardReason::MalformedIpc),
        message matches Message::Request(q) && q.ipc matches Some(t) && json_parses(t@)
            && source.process.text() == self_text() ==> r == Dispatch::Discard(
            DiscardReason::InternalMessage,
        ),
        message matches Message::Request(q) && q.ipc matches Some(t) && json_parses(t@)
            && source.process.text() != self_text() && source.process.text() != registrar_text()
            ==> r == Dispatch::Discard(DiscardReason::UnknownSource),
        message matches Message::Request(q) ==> (q.ipc matches Some(t) ==> ((json_parses(t@)
            && source.process.text() != self_text() && source.process.text() == registrar_text())
            ==> routed(*cfg, *our, *source, payload, json_path_of(t@), r))),
{
    let q = match message {
        Message::Request(q) => q,
        Message::Response(_) => {
            return Dispatch::Discard(DiscardReason::UnexpectedResponse);
        },
    };
    let t = match &q.ipc {
        Some(t) => t,
        None => {
            return Dispatch::Discard(DiscardReason::MissingIpc);
        },
    };
    let path = match parse_ipc_path(t.as_str()) {
        Some(p) => p,
        None => {
            return Dispatch::Discard(DiscardReason::MalformedIpc);
        },
    };
    let stext = source.process.to_text();
    let own_text = self_id().to_text();
    if str_eq(stext.as_str(), own_text.as_str()) {
        return Dispatch::Discard(DiscardReason::InternalMessage);
    }
    let reg_text = registrar_id().to_text();
    if !str_eq(stext.as_str(), reg_text.as_str()) {
        return Dispatch::Discard(DiscardReason::UnknownSource);
    }
    if str_eq(path.as_str(), "/librarian") {
        let ptext = source.process.to_text();
        let rendered = render_page(
            cfg.page.as_str(),
            our.node.as_str(),
            ptext.as_str(),
            cfg.js.as_str(),
            cfg.css.as_str(),
        );
        let body = rendered.as_str().as_bytes_vec();
        Dispatch::Respond(
            HttpResponse {
                status: 200,
                headers: header_pair("Content-Type", "text/html"),
                body,
            },
        )
    } else if str_eq(path.as_str(), "/librarian/worker.js") {
        let body = cfg.worker_js.as_str().as_bytes_vec();
        Dispatch::Respond(
            HttpResponse {
                status: 200,
                headers: header_pair("Content-Type", "application/javascript"),
                body,
            },
        )
    } else if str_eq(path.as_str(), "/librarian/vector") {
        match payload {
            Some(p) => Dispatch::Relay(build_relay_call(&our.node, &cfg.mode, p.bytes)),
            None => Dispatch::Respond(
                HttpResponse {
                    status: 400,
                    headers: header_pair("Content-Type", "text/html"),
                    body: "Bad Request".as_bytes_vec(),
                },
            ),
        }
    } else {
        Dispatch::Respond(
            HttpResponse {
                status: 404,
                headers: header_pair("Content-Type", "text/html"),
                body: "Not Found".as_bytes_vec(),
            },
        )
    }
}

} // verus!
