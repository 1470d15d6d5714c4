//! Dispatcher scenarios: source classification, path routing, and the error
//! answers of the HTTP surface.
use librarian::dispatch::{dispatch, Config, Dispatch, DiscardReason};
use librarian::identity::{Address, ProcessId};
use librarian::message::{Message, Payload, Request, Response};
use librarian::relay::RelayMode;

fn pid(name: &str, package: &str, publisher: &str) -> ProcessId {
    ProcessId {
        name: name.to_string(),
        package: package.to_string(),
        publisher: publisher.to_string(),
    }
}

fn our() -> Address {
    Address { node: "alice".to_string(), process: pid("librarian", "librarian", "uqbar") }
}

fn registrar() -> Address {
    Address { node: "alice".to_string(), process: pid("http_bindings", "http_bindings", "uqbar") }
}

fn config() -> Config {
    Config {
        page: "<html>${node} ${process}<s>${js}</s><c>${css}</c></html>".to_string(),
        js: "let x = 1;".to_string(),
        css: "body {}".to_string(),
        worker_js: "onmessage = () => {};".to_string(),
        mode: RelayMode::Direct {
            api_key: "test-api-key-0001".to_string(),
            uri: "https://backend.example/query".to_string(),
        },
    }
}

fn http_request(path: &str) -> Message {
    Message::Request(Request {
        inherit: false,
        expects_response: None,
        ipc: Some(format!("{{\"path\":\"{}\"}}", path)),
        metadata: None,
    })
}

#[test]
fn unregistered_path_gets_404_not_found() {
    let r = dispatch(&config(), &our(), &registrar(), &http_request("/nope"), None);
    match r {
        Dispatch::Respond(h) => {
            assert_eq!(h.status, 404);
            assert_eq!(h.body, b"Not Found".to_vec());
            assert_eq!(h.headers, vec![("Content-Type".to_string(), "text/html".to_string())]);
        }
        _ => panic!("expected an immediate response"),
    }
}

#[test]
fn root_path_renders_identities_and_no_token_remains() {
    let r = dispatch(&config(), &our(), &registrar(), &http_request("/librarian"), None);
    match r {
        Dispatch::Respond(h) => {
            assert_eq!(h.status, 200);
            assert_eq!(h.headers, vec![("Content-Type".to_string(), "text/html".to_string())]);
            let body = String::from_utf8(h.body).unwrap();
            assert!(body.contains("alice"));
            assert!(body.contains("http_bindings:http_bindings:uqbar"));
            assert!(body.contains("let x = 1;"));
            assert!(body.contains("body {}"));
            assert!(!body.contains("${"));
        }
        _ => panic!("expected an immediate response"),
    }
}

#[test]
fn worker_path_serves_script() {
    let r = dispatch(&config(), &our(), &registrar(), &http_request("/librarian/worker.js"), None);
    match r {
        Dispatch::Respond(h) => {
            assert_eq!(h.status, 200);
            assert_eq!(
                h.headers,
                vec![("Content-Type".to_string(), "application/javascript".to_string())]
            );
            assert_eq!(h.body, b"onmessage = () => {};".to_vec());
        }
        _ => panic!("expected an immediate response"),
    }
}

#[test]
fn vector_path_without_payload_is_client_error() {
    let r = dispatch(&config(), &our(), &registrar(), &http_request("/librarian/vector"), None);
    match r {
        Dispatch::Respond(h) => {
            assert_eq!(h.status, 400);
            assert_eq!(h.body, b"Bad Request".to_vec());
        }
        _ => panic!("expected an immediate response"),
    }
}

#[test]
fn vector_path_direct_mode_issues_backend_call() {
    let payload = Payload { mime: None, bytes: vec![1, 2, 3, 4] };
    let r = dispatch(
        &config(),
        &our(),
        &registrar(),
        &http_request("/librarian/vector"),
        Some(payload),
    );
    match r {
        Dispatch::Relay(c) => {
            assert_eq!(c.to.node, "alice");
            assert_eq!(c.to.process.to_text(), "http_client:sys:uqbar");
            assert_eq!(c.request.expects_response, Some(5));
            let ipc = c.request.ipc.unwrap();
            assert!(ipc.contains("test-api-key-0001"));
            assert!(ipc.contains("https://backend.example/query"));
            assert_eq!(c.payload.bytes, vec![1, 2, 3, 4]);
        }
        _ => panic!("expected an outbound call"),
    }
}

#[test]
fn vector_path_delegated_mode_forwards_bytes() {
    let mut cfg = config();
    cfg.mode = RelayMode::Delegated {
        delegate: Address { node: "drew.uq".to_string(), process: pid("librarian", "librarian", "drew.uq") },
    };
    let payload = Payload { mime: None, bytes: b"query-vector".to_vec() };
    let r = dispatch(&cfg, &our(), &registrar(), &http_request("/librarian/vector"), Some(payload));
    match r {
        Dispatch::Relay(c) => {
            assert_eq!(c.to.node, "drew.uq");
            assert_eq!(c.to.process.to_text(), "librarian:librarian:drew.uq");
            assert_eq!(c.request.expects_response, Some(15));
            let ipc = c.request.ipc.unwrap();
            assert_eq!(ipc, "{}");
            assert_eq!(c.payload.bytes, b"query-vector".to_vec());
        }
        _ => panic!("expected an outbound call"),
    }
}

#[test]
fn unknown_source_is_discarded_without_answer() {
    let source = Address { node: "nodeX".to_string(), process: pid("unknown", "proc", "nodeX") };
    let r = dispatch(&config(), &our(), &source, &http_request("/librarian"), None);
    assert!(matches!(r, Dispatch::Discard(DiscardReason::UnknownSource)));
}

#[test]
fn own_identity_is_noted_and_discarded() {
    let source = Address { node: "alice".to_string(), process: pid("librarian", "librarian", "uqbar") };
    let r = dispatch(&config(), &our(), &source, &http_request("/librarian"), None);
    assert!(matches!(r, Dispatch::Discard(DiscardReason::InternalMessage)));
}

#[test]
fn unexpected_response_is_discarded() {
    let message = Message::Response(Response { inherit: false, ipc: None, metadata: None });
    let r = dispatch(&config(), &our(), &registrar(), &message, None);
    assert!(matches!(r, Dispatch::Discard(DiscardReason::UnexpectedResponse)));
}

#[test]
fn missing_command_body_is_discarded() {
    let message = Message::Request(Request {
        inherit: false,
        expects_response: None,
        ipc: None,
        metadata: None,
    });
    let r = dispatch(&config(), &our(), &registrar(), &message, None);
    assert!(matches!(r, Dispatch::Discard(DiscardReason::MissingIpc)));
}

#[test]
fn malformed_command_body_is_discarded() {
    let message = Message::Request(Request {
        inherit: false,
        expects_response: None,
        ipc: Some("{not json".to_string()),
        metadata: None,
    });
    let r = dispatch(&config(), &our(), &registrar(), &message, None);
    assert!(matches!(r, Dispatch::Discard(DiscardReason::MalformedIpc)));
}

#[test]
fn extra_members_do_not_hide_the_path() {
    let message = Message::Request(Request {
        inherit: false,
        expects_response: None,
        ipc: Some("{\"verb\":\"GET\",\"path\":\"/librarian/worker.js\",\"n\":7}".to_string()),
        metadata: None,
    });
    let r = dispatch(&config(), &our(), &registrar(), &message, None);
    match r {
        Dispatch::Respond(h) => assert_eq!(h.status, 200),
        _ => panic!("expected the worker script"),
    }
}

#[test]
fn document_without_path_member_is_404() {
    let message = Message::Request(Request {
        inherit: false,
        expects_response: None,
        ipc: Some("{\"other\":true}".to_string()),
        metadata: None,
    });
    let r = dispatch(&config(), &our(), &registrar(), &message, None);
    match r {
        Dispatch::Respond(h) => assert_eq!(h.status, 404),
        _ => panic!("expected an immediate response"),
    }
}
