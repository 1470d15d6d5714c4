//! The JSON texts of the protocol: binding declarations, response
//! announcements, and the external call body.
use librarian::identity::ProcessId;
use librarian::message::http_response_message;
use librarian::registrar::{bind_body_text, binding_request, startup_bindings};
use librarian::relay::vector_ipc_text;

#[test]
fn bind_app_body_is_exact() {
    let req = binding_request("/app", "app", false);
    assert!(!req.inherit);
    assert!(req.expects_response.is_none());
    assert!(req.metadata.is_none());
    assert_eq!(
        req.ipc.unwrap(),
        "{\"action\":\"bind-app\",\"path\":\"/app\",\"app\":\"app\",\"authenticated\":false}"
    );
}

#[test]
fn bind_app_body_authenticated_true() {
    let body = bind_body_text("/p", "a", true);
    assert_eq!(body, "{\"action\":\"bind-app\",\"path\":\"/p\",\"app\":\"a\",\"authenticated\":true}");
}

#[test]
fn bind_app_body_escapes_strings() {
    let body = bind_body_text("/a\"b\\c\nd", "app", false);
    let v: serde_json::Value = serde_json::from_str(&body).expect("body must stay valid JSON");
    assert_eq!(v["path"].as_str().unwrap(), "/a\"b\\c\nd");
    assert_eq!(v["app"].as_str().unwrap(), "app");
    assert_eq!(v["authenticated"].as_bool().unwrap(), false);
}

#[test]
fn startup_declares_three_unique_paths_unauthenticated() {
    let node = String::from("alice");
    let batch = startup_bindings(&node);
    assert_eq!(batch.len(), 3);
    let mut paths: Vec<String> = Vec::new();
    for (addr, req) in &batch {
        assert_eq!(addr.node, "alice");
        assert_eq!(addr.process.to_text(), "http_bindings:http_bindings:uqbar");
        assert!(req.expects_response.is_none());
        let v: serde_json::Value = serde_json::from_str(req.ipc.as_ref().unwrap()).unwrap();
        assert_eq!(v["action"].as_str().unwrap(), "bind-app");
        assert_eq!(v["app"].as_str().unwrap(), "librarian");
        assert_eq!(v["authenticated"].as_bool().unwrap(), false);
        paths.push(v["path"].as_str().unwrap().to_string());
    }
    assert_eq!(paths.len(), 3);
    assert!(paths.contains(&"/librarian".to_string()));
    assert!(paths.contains(&"/librarian/vector".to_string()));
    assert!(paths.contains(&"/librarian/worker.js".to_string()));
    assert_ne!(paths[0], paths[1]);
    assert_ne!(paths[0], paths[2]);
    assert_ne!(paths[1], paths[2]);
}

#[test]
fn response_meta_is_exact() {
    let headers = vec![("Content-Type".to_string(), "text/html".to_string())];
    let (resp, payload) = http_response_message(404, &headers, b"Not Found".to_vec());
    assert!(!resp.inherit);
    assert!(resp.metadata.is_none());
    assert_eq!(
        resp.ipc.unwrap(),
        "{\"status\":404,\"headers\":{\"Content-Type\":\"text/html\"}}"
    );
    assert_eq!(payload.mime.unwrap(), "application/octet-stream");
    assert_eq!(payload.bytes, b"Not Found".to_vec());
}

#[test]
fn response_meta_many_headers_keeps_order() {
    let headers = vec![
        ("a".to_string(), "1".to_string()),
        ("b".to_string(), "2".to_string()),
    ];
    let (resp, _) = http_response_message(200, &headers, Vec::new());
    assert_eq!(resp.ipc.unwrap(), "{\"status\":200,\"headers\":{\"a\":\"1\",\"b\":\"2\"}}");
}

#[test]
fn vector_call_body_carries_credential_and_endpoint() {
    let body = vector_ipc_text("test-api-key-0001", "https://backend.example/query");
    let v: serde_json::Value = serde_json::from_str(&body).unwrap();
    assert_eq!(v["method"].as_str().unwrap(), "POST");
    assert_eq!(v["headers"]["Api-Key"].as_str().unwrap(), "test-api-key-0001");
    assert_eq!(v["headers"]["accept"].as_str().unwrap(), "application/json");
    assert_eq!(v["headers"]["content-type"].as_str().unwrap(), "application/json");
    assert_eq!(v["uri"].as_str().unwrap(), "https://backend.example/query");
}

#[test]
fn process_id_text_round_trip() {
    let id = ProcessId {
        name: "librarian".to_string(),
        package: "librarian".to_string(),
        publisher: "uqbar".to_string(),
    };
    let text = id.to_text();
    assert_eq!(text, "librarian:librarian:uqbar");
    let back = librarian::identity::from_text(&text).expect("three parts must parse");
    assert!(back.same_id(&id));
    assert!(librarian::identity::from_text("only:two").is_none());
    assert!(librarian::identity::from_text("a:b:c:d").is_none());
}
