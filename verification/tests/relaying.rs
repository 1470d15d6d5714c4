//! Pass-through of the relay and of the delegate-side handler, and the page
//! renderer's substitution.
use librarian::delegate::{delegate_reply, delegate_step, DelegateStep};
use librarian::dispatch::DiscardReason;
use librarian::identity::{Address, ProcessId};
use librarian::message::{Message, Payload, Request, Response};
use librarian::page::render_page;
use librarian::relay::relay_reply;

fn pid(name: &str, package: &str, publisher: &str) -> ProcessId {
    ProcessId {
        name: name.to_string(),
        package: package.to_string(),
        publisher: publisher.to_string(),
    }
}

#[test]
fn relay_reply_returns_backend_bytes_verbatim() {
    let backend = Payload { mime: Some("application/json".to_string()), bytes: b"{\"hits\":[3,1]}".to_vec() };
    let r = relay_reply(Some(backend));
    assert_eq!(r.status, 200);
    assert_eq!(r.headers, vec![("content-type".to_string(), "application/json".to_string())]);
    assert_eq!(r.body, b"{\"hits\":[3,1]}".to_vec());
}

#[test]
fn relay_reply_is_stable_across_calls() {
    let bytes = b"same-answer".to_vec();
    let r1 = relay_reply(Some(Payload { mime: None, bytes: bytes.clone() }));
    let r2 = relay_reply(Some(Payload { mime: None, bytes: bytes.clone() }));
    assert_eq!(r1.status, r2.status);
    assert_eq!(r1.status, 200);
    assert_eq!(r1.headers, r2.headers);
    assert_eq!(r1.body, r2.body);
}

#[test]
fn relay_timeout_surfaces_as_bad_gateway() {
    let r = relay_reply(None);
    assert_eq!(r.status, 502);
    assert_eq!(r.body, b"Bad Gateway".to_vec());
    assert_eq!(r.headers, vec![("Content-Type".to_string(), "text/html".to_string())]);
}

#[test]
fn delegate_serves_only_the_allowed_client() {
    let node = "drew.uq".to_string();
    let key = "test-api-key-0001".to_string();
    let uri = "https://backend.example/query".to_string();
    let allowed = pid("librarian", "librarian", "uqbar");
    let client = Address { node: "alice".to_string(), process: pid("librarian", "librarian", "uqbar") };
    let message = Message::Request(Request {
        inherit: false,
        expects_response: Some(15),
        ipc: Some("{}".to_string()),
        metadata: None,
    });
    let payload = Payload { mime: None, bytes: vec![9, 9, 9] };
    let r = delegate_step(&node, &key, &uri, &allowed, &client, &message, Some(payload));
    match r {
        DelegateStep::Call(c) => {
            assert_eq!(c.to.node, "drew.uq");
            assert_eq!(c.to.process.to_text(), "http_client:sys:uqbar");
            assert_eq!(c.request.expects_response, Some(10));
            assert!(c.request.ipc.unwrap().contains("test-api-key-0001"));
            assert_eq!(c.payload.bytes, vec![9, 9, 9]);
        }
        _ => panic!("expected the direct external call"),
    }

    let stranger = Address { node: "mallory".to_string(), process: pid("x", "y", "z") };
    let message2 = Message::Request(Request {
        inherit: false,
        expects_response: Some(15),
        ipc: Some("{}".to_string()),
        metadata: None,
    });
    let r2 = delegate_step(&node, &key, &uri, &allowed, &stranger, &message2, None);
    assert!(matches!(r2, DelegateStep::Ignore(DiscardReason::UnknownSource)));
}

#[test]
fn delegate_drops_requests_without_bytes() {
    let allowed = pid("librarian", "librarian", "uqbar");
    let client = Address { node: "alice".to_string(), process: pid("librarian", "librarian", "uqbar") };
    let message = Message::Request(Request {
        inherit: false,
        expects_response: Some(15),
        ipc: Some("{}".to_string()),
        metadata: None,
    });
    let r = delegate_step(
        &"drew.uq".to_string(),
        &"k".to_string(),
        &"u".to_string(),
        &allowed,
        &client,
        &message,
        None,
    );
    assert!(matches!(r, DelegateStep::Ignore(DiscardReason::MissingPayload)));
}

#[test]
fn delegate_ignores_responses() {
    let allowed = pid("librarian", "librarian", "uqbar");
    let client = Address { node: "alice".to_string(), process: pid("librarian", "librarian", "uqbar") };
    let message = Message::Response(Response { inherit: false, ipc: None, metadata: None });
    let r = delegate_step(
        &"drew.uq".to_string(),
        &"k".to_string(),
        &"u".to_string(),
        &allowed,
        &client,
        &message,
        None,
    );
    assert!(matches!(r, DelegateStep::Ignore(DiscardReason::UnexpectedResponse)));
}

#[test]
fn delegate_reply_passes_bytes_back_verbatim() {
    let backend = Payload { mime: None, bytes: b"[0.5,0.25]".to_vec() };
    let (resp, payload) = delegate_reply(Some(backend)).expect("a settled call is answered");
    assert!(!resp.inherit);
    assert_eq!(resp.ipc.unwrap(), "{}");
    assert_eq!(payload.mime.unwrap(), "application/octet-stream");
    assert_eq!(payload.bytes, b"[0.5,0.25]".to_vec());
    assert!(delegate_reply(None).is_none());
}

#[test]
fn render_substitutes_all_tokens() {
    let out = render_page(
        "<h1>${node}</h1><p>${process}</p><script>${js}</script><style>${css}</style>",
        "alice",
        "http_bindings:http_bindings:uqbar",
        "go();",
        "p { }",
    );
    assert_eq!(
        out,
        "<h1>alice</h1><p>http_bindings:http_bindings:uqbar</p><script>go();</script><style>p { }</style>"
    );
}

#[test]
fn render_leaves_plain_text_alone() {
    assert_eq!(render_page("no tokens here", "n", "p", "j", "c"), "no tokens here");
    assert_eq!(render_page("", "n", "p", "j", "c"), "");
}

#[test]
fn render_handles_token_at_edges_and_repeats() {
    assert_eq!(render_page("${node}x${node}", "a", "p", "j", "c"), "axa");
    assert_eq!(render_page("${css}${js}", "n", "p", "J", "C"), "CJ");
    assert_eq!(render_page("$ {node}", "a", "p", "j", "c"), "$ {node}");
}
