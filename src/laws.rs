//! Properties that relate the client's operations to one another.
use vstd::prelude::*;

use crate::client::{initial_client, request_of, ClientModel};
use crate::codec::json_reencoded_of;
use crate::payload::{payload_json, PayloadModel};
use crate::response::{
    reply_verdict, status_verdict, success_message, DispatchError, ResponseModel,
};

verus! {

/// A reply with status 200 and a JSON body is a success, whatever payload was
/// sent: the fixed message, and the body printed back as compact JSON.
pub proof fn lemma_ok_reply_succeeds(body: Seq<char>)
    requires
        json_reencoded_of(body) is Some,
    ensures
        reply_verdict(200, body) == Ok::<ResponseModel, DispatchError>(
            ResponseModel { message: success_message(), content: json_reencoded_of(body)->Some_0 },
        ),
{
}

/// A reply with status 401 is an authentication failure whatever its body,
/// and its status alone decides so: the body is never read.
pub proof fn lemma_unauthorized_reply_fails(body: Seq<char>)
    ensures
        status_verdict(401) == Err::<(), DispatchError>(DispatchError::AuthenticationFailed),
        reply_verdict(401, body) == Err::<ResponseModel, DispatchError>(DispatchError::AuthenticationFailed),
{
}

/// A reply with any status but 200 and 401 is a generic failure that carries
/// the status, whatever its body.
pub proof fn lemma_other_reply_fails(status: u16, body: Seq<char>)
    requires
        status != 200,
        status != 401,
    ensures
        status_verdict(status) == Err::<(), DispatchError>(DispatchError::DispatchFailed(status)),
        reply_verdict(status, body) == Err::<ResponseModel, DispatchError>(DispatchError::DispatchFailed(status)),
{
}

/// Attaching two payloads in turn leaves the client as attaching the second
/// alone would: the second is the one sent, nothing of the first is merged.
pub proof fn lemma_last_payload_wins(c: ClientModel, first: PayloadModel, second: PayloadModel)
    ensures
        c.with_body(first).with_body(second) == c.with_body(second),
        request_of(c.with_body(first).with_body(second)).body == payload_json(second),
{
}

/// A client to which no payload was attached sends the payload with four
/// empty fields.
pub proof fn lemma_fresh_client_sends_empty_payload(uri: Seq<char>, header: Seq<char>, auth: Seq<char>)
    ensures
        request_of(initial_client(uri, header, auth)).body == payload_json(PayloadModel::empty()),
{
}

} // verus!
