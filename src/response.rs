//! What a dispatch yields: the provider's reply classified by its status.
use vstd::prelude::*;
use vstd::string::StringExecFns;

use crate::codec::{debug_quote, debug_quoted_of, json_reencode, json_reencoded_of};

verus! {

/// The status of a successful send.
pub const STATUS_OK: u16 = 200;

/// The status with which the provider refuses the credential.
pub const STATUS_UNAUTHORIZED: u16 = 401;

/// The three ways a dispatch can fail.
#[derive(Debug, Clone, Copy, PartialEq, Eq, Structural)]
pub enum DispatchError {
    /// The HTTP exchange did not complete, or its reply could not be read
    /// as JSON.
    TransportUnreachable,
    /// The provider answered with status 401.
    AuthenticationFailed,
    /// The provider answered with any other status than 200 or 401, kept here.
    DispatchFailed(u16),
}

/// What a [`ResendSDKResponse`] holds, as character sequences.
pub ghost struct ResponseModel {
    pub message: Seq<char>,
    pub content: Seq<char>,
}

/// The fixed message of a successful dispatch.
pub open spec fn success_message() -> Seq<char> {
    "Success: Email sent."@
}

/// The success value: a fixed message and the provider's JSON reply.
#[derive(Debug, Clone)]
pub struct ResendSDKResponse {
    message: String,
    content: String,
}

impl View for ResendSDKResponse {
    type V = ResponseModel;

    closed spec fn view(&self) -> ResponseModel {
        ResponseModel { message: self.message@, content: self.content@ }
    }
}

/// The result of a dispatch, seen through the success value's view.
pub open spec fn outcome_view(r: Result<ResendSDKResponse, DispatchError>) -> Result<ResponseModel, DispatchError> {
    match r {
        Ok(v) => Ok(v@),
        Err(e) => Err(e),
    }
}

/// The verdict on a status alone: `Ok` where the body is to be read.
pub open spec fn status_verdict(status: u16) -> Result<(), DispatchError> {
    if status == STATUS_OK {
        Ok(())
    } else if status == STATUS_UNAUTHORIZED {
        Err(DispatchError::AuthenticationFailed)
    } else {
        Err(DispatchError::DispatchFailed(status))
    }
}

/// The verdict on the body of a reply with status 200.
pub open spec fn body_verdict(body: Seq<char>) -> Result<ResponseModel, DispatchError> {
    match json_reencoded_of(body) {
        Some(content) => Ok(ResponseModel { message: success_message(), content }),
        None => Err(DispatchError::TransportUnreachable),
    }
}

/// The verdict on a whole reply. The body counts only under status 200.
pub open spec fn reply_verdict(status: u16, body: Seq<char>) -> Result<ResponseModel, DispatchError> {
    match status_verdict(status) {
        Ok(()) => body_verdict(body),
        Err(e) => Err(e),
    }
}

/// The text that reports a success value, in the shape of its `Debug` form.
pub open spec fn report_text(m: ResponseModel) -> Seq<char> {
    "ResendSDKResponse { message: "@ + debug_quoted_of(m.message) + ", content: "@
        + debug_quoted_of(m.content) + " }"@
}

impl ResendSDKResponse {
    pub fn message(&self) -> (r: &str)
        ensures
            r@ == self@.message,
    {
        self.message.as_str()
    }

    pub fn content(&self) -> (r: &str)
        ensures
            r@ == self@.content,
    {
        self.content.as_str()
    }

    /// The message and the content, written as the value's `Debug` form.
    pub fn report(&self) -> (r: String)
        ensures
            r@ == report_text(self@),
    {
        let mut out = "ResendSDKResponse { message: ".to_owned();
        out.append(debug_quote(self.message.as_str()).as_str());
        out.append(", content: ");
        out.append(debug_quote(self.content.as_str()).as_str());
        out.append(" }");
        out
    }
}

/// Classifies a reply by its status: `Ok(())` for 200, where the body is to
/// be read next, and the error for every other status. The body is not
/// needed for this step.
pub fn classify_status(status: u16) -> (r: Result<(), DispatchError>)
    ensures
        r == status_verdict(status),
{
    if status == STATUS_OK {
        Ok(())
    } else if status == STATUS_UNAUTHORIZED {
        Err(DispatchError::AuthenticationFailed)
    } else {
        Err(DispatchError::DispatchFailed(status))
    }
}

/// Turns the body of a reply with status 200 into the success value: the
/// fixed message, and the body parsed as JSON and printed back compactly.
/// A body that is not JSON is a failed exchange.
pub fn accept_body(body: &str) -> (r: Result<ResendSDKResponse, DispatchError>)
    ensures
        outcome_view(r) == body_verdict(body@),
{
    match json_reencode(body) {
        Some(content) => Ok(ResendSDKResponse { message: "Success: Email sent.".to_owned(), content }),
        None => Err(DispatchError::TransportUnreachable),
    }
}

/// Classifies a complete reply: its status, then, under 200 only, its body.
pub fn classify_response(status: u16, body: &str) -> (r: Result<ResendSDKResponse, DispatchError>)
    ensures
        outcome_view(r) == reply_verdict(status, body@),
{
    match classify_status(status) {
        Ok(()) => accept_body(body),
        Err(e) => Err(e),
    }
}

} // verus!
