//! The delegate-side handler that runs on the fixed peer node: it accepts
//! forwarded query bytes from the one allowed relay client, makes the direct
//! external call on the client's behalf, and returns the raw answer bytes.
use vstd::prelude::*;
use vstd::string::*;
use crate::dispatch::DiscardReason;
use crate::identity::{Address, ProcessId};
use crate::message::{Message, Payload, Response};
use crate::relay::{build_direct_call, direct_call_shape, OutboundCall, DELEGATE_CALL_TIMEOUT_SECS};

verus! {

/// What one delegate step decides: ignore the envelope, or make the direct
/// external call and answer through `delegate_reply`.
pub enum DelegateStep {
    Ignore(DiscardReason),
    Call(OutboundCall),
}

/// One delegate step over an inbound envelope.
///
/// Only requests from the one allowed relay-client identity are served —
/// the access check is string equality on the claimed process identity, not
/// a cryptographic guarantee. A request without forwarded bytes is dropped;
/// the client will time out on its own deadline.
pub fn delegate_step(
    our_node: &String,
    api_key: &String,
    uri: &String,
    allowed_client: &ProcessId,
    source: &Address,
    message: &Message,
    payload: Option<Payload>,
) -> (r: DelegateStep)
    ensures
        message is Response ==> r == DelegateStep::Ignore(DiscardReason::UnexpectedResponse),
        message is Request && source.process.text() != allowed_client.text() ==> r
            == DelegateStep::Ignore(DiscardReason::UnknownSource),
        message is Request && source.process.text() == allowed_client.text() && payload is None
            ==> r == DelegateStep::Ignore(DiscardReason::MissingPayload),
        payload matches Some(p) ==> ((message is Request && source.process.text()
            == allowed_client.text()) ==> (r matches DelegateStep::Call(c) && direct_call_shape(
            our_node@,
            api_key@,
            uri@,
            DELEGATE_CALL_TIMEOUT_SECS,
            p.bytes@,
            c,
        ))),
{
    match message {
        Message::Response(_) => {
            return DelegateStep::Ignore(DiscardReason::UnexpectedResponse);
        },
        Message::Request(_) => {},
    }
    if !crate::identity::same_text(&source.process, allowed_client) {
        return DelegateStep::Ignore(DiscardReason::UnknownSource);
    }
    match payload {
        Some(p) => DelegateStep::Call(
            build_direct_call(our_node, api_key, uri, DELEGATE_CALL_TIMEOUT_SECS, p.bytes),
        ),
        None => DelegateStep::Ignore(DiscardReason::MissingPayload),
    }
}

/// What the delegate sends back once its external call settles: an empty
/// command body and the backend's bytes verbatim on success, nothing when
/// the call failed — the client's own deadline surfaces the failure.
pub open spec fn delegate_reply_post(outcome: Option<Payload>, r: Option<(Response, Payload)>) -> bool {
    match outcome {
        Some(p) => {
            &&& r matches Some(rp)
            &&& rp.0.inherit == false
            &&& rp.0.metadata is None
            &&& rp.0.ipc matches Some(m) && m@ == "{}"@
            &&& rp.1.mime matches Some(mm) && mm@ == "application/octet-stream"@
            &&& rp.1.bytes@ == p.bytes@
        },
        None => r is None,
    }
}

/// Answers the relay client from the external call's outcome.
pub fn delegate_reply(outcome: Option<Payload>) -> (r: Option<(Response, Payload)>)
    ensures
        delegate_reply_post(outcome, r),
{
    match outcome {
        Some(p) => Some(
            (
                Response { inherit: false, ipc: Some(String::from_str("{}")), metadata: None },
                Payload {
                    mime: Some(String::from_str("application/octet-stream")),
                    bytes: p.bytes,
                },
            ),
        ),
        None => None,
    }
}

} // verus!
