//! The binding registrar client: before entering its loop the process
//! declares, fire and forget, each URL path it serves to the well-known
//! registrar.
use vstd::prelude::*;
use vstd::string::*;
use crate::identity::{registrar_id, registrar_text, Address};
use crate::json::{append_json_quoted, json_quoted};
use crate::message::Request;

verus! {

/// The root page path this process serves.
pub open spec fn root_path() -> Seq<char> {
    "/librarian"@
}

/// The vector-query path this process serves.
pub open spec fn vector_path() -> Seq<char> {
    "/librarian/vector"@
}

/// The worker-script path this process serves.
pub open spec fn worker_path() -> Seq<char> {
    "/librarian/worker.js"@
}

/// The name under which paths are bound.
pub open spec fn app_name() -> Seq<char> {
    "librarian"@
}

/// The JSON body that declares one served path to the registrar.
pub open spec fn bind_body(path: Seq<char>, app: Seq<char>, authenticated: bool) -> Seq<char> {
    "{\"action\":\"bind-app\",\"path\":"@ + json_quoted(path) + ",\"app\":"@ + json_quoted(app)
        + ",\"authenticated\":"@ + (if authenticated {
        "true"@
    } else {
        "false"@
    }) + "}"@
}

/// Renders one binding declaration body.
pub fn bind_body_text(path: &str, app: &str, authenticated: bool) -> (r: String)
    ensures
        r@ == bind_body(path@, app@, authenticated),
{
    let mut out = String::from_str("{\"action\":\"bind-app\",\"path\":");
    append_json_quoted(&mut out, path);
    out.append(",\"app\":");
    append_json_quoted(&mut out, app);
    out.append(",\"authenticated\":");
    if authenticated {
        out.append("true");
    } else {
        out.append("false");
    }
    out.append("}");
    proof {
        assert(out@ =~= bind_body(path@, app@, authenticated));
    }
    out
}

/// One fire-and-forget binding declaration: no response is awaited and the
/// body names the path, the owning app, and the auth requirement.
pub fn binding_request(path: &str, app: &str, authenticated: bool) -> (r: Request)
    ensures
        r.inherit == false,
        r.expects_response is None,
        r.metadata is None,
        r.ipc matches Some(m) && m@ == bind_body(path@, app@, authenticated),
{
    Request {
        inherit: false,
        expects_response: None,
        ipc: Some(bind_body_text(path, app, authenticated)),
        metadata: None,
    }
}

/// The batch of declarations sent at startup: the three served paths, each
/// declared exactly once, none demanding authentication, all addressed to
/// the registrar on this node.
pub fn startup_bindings(our_node: &String) -> (r: Vec<(Address, Request)>)
    ensures
        r@.len() == 3,
        forall|k: int|
            0 <= k < 3 ==> (#[trigger] r@[k]).0.node@ == our_node@ && r@[k].0.process.text()
                == registrar_text() && r@[k].1.inherit == false && r@[k].1.expects_response
                is None && r@[k].1.metadata is None,
        r@[0].1.ipc matches Some(m) && m@ == bind_body(root_path(), app_name(), false),
        r@[1].1.ipc matches Some(m) && m@ == bind_body(vector_path(), app_name(), false),
        r@[2].1.ipc matches Some(m) && m@ == bind_body(worker_path(), app_name(), false),
{
    let mut r: Vec<(Address, Request)> = Vec::new();
    r.push(
        (
            Address { node: our_node.clone(), process: registrar_id() },
            binding_request("/librarian", "librarian", false),
        ),
    );
    r.push(
        (
            Address { node: our_node.clone(), process: registrar_id() },
            binding_request("/librarian/vector", "librarian", false),
        ),
    );
    r.push(
        (
            Address { node: our_node.clone(), process: registrar_id() },
            binding_request("/librarian/worker.js", "librarian", false),
        ),
    );
    r
}

/// The three declared paths are pairwise distinct: each path is declared
/// exactly once in the startup batch.
pub proof fn lemma_binding_paths_distinct()
    ensures
        root_path() != vector_path(),
        root_path() != worker_path(),
        vector_path() != worker_path(),
{
    reveal_strlit("/librarian");
    reveal_strlit("/librarian/vector");
    reveal_strlit("/librarian/worker.js");
    assert(root_path().len() != vector_path().len());
    assert(root_path().len() != worker_path().len());
    assert(vector_path().len() != worker_path().len());
}

} // verus!
