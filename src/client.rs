//! The dispatch client: transport settings, the attached payload, and the
//! one request that a dispatch sends.
use vstd::prelude::*;
use vstd::string::StringExecFns;

use crate::payload::{payload_json, EmailPayload, PayloadModel};

verus! {

/// What a [`ResendSDK`] holds, as character sequences.
pub ghost struct ClientModel {
    pub uri: Seq<char>,
    pub auth: Seq<char>,
    pub header: Seq<char>,
    pub body: PayloadModel,
}

impl ClientModel {
    /// The settings with `body` attached in place of the held payload.
    pub open spec fn with_body(self, body: PayloadModel) -> ClientModel {
        ClientModel { body, ..self }
    }
}

/// A freshly made client: the given settings and the empty payload.
pub open spec fn initial_client(uri: Seq<char>, header: Seq<char>, auth: Seq<char>) -> ClientModel {
    ClientModel { uri, auth, header, body: PayloadModel::empty() }
}

/// What an [`OutboundRequest`] holds, as character sequences.
pub ghost struct RequestModel {
    pub uri: Seq<char>,
    pub authorization: Seq<char>,
    pub content_type: Seq<char>,
    pub body: Seq<char>,
}

/// The POST that a client sends: to its endpoint, with the token as a bearer
/// credential, its content type, and the held payload as JSON.
pub open spec fn request_of(c: ClientModel) -> RequestModel {
    RequestModel {
        uri: c.uri,
        authorization: "Bearer "@ + c.auth,
        content_type: c.header,
        body: payload_json(c.body),
    }
}

/// One HTTP POST, ready to be sent: target, the values of the
/// `Authorization` and `Content-Type` headers, and the body.
#[derive(Debug, Clone)]
pub struct OutboundRequest {
    pub uri: String,
    pub authorization: String,
    pub content_type: String,
    pub body: String,
}

impl View for OutboundRequest {
    type V = RequestModel;

    open spec fn view(&self) -> RequestModel {
        RequestModel {
            uri: self.uri@,
            authorization: self.authorization@,
            content_type: self.content_type@,
            body: self.body@,
        }
    }
}

/// The configuration of one email dispatch: endpoint, bearer token, content
/// type, and the payload to send.
#[derive(Debug, Clone)]
pub struct ResendSDK {
    pub uri: String,
    pub auth: String,
    pub header: String,
    pub body: EmailPayload,
}

impl View for ResendSDK {
    type V = ClientModel;

    open spec fn view(&self) -> ClientModel {
        ClientModel { uri: self.uri@, auth: self.auth@, header: self.header@, body: self.body@ }
    }
}

impl ResendSDK {
    /// A client for endpoint `uri`, sending content type `header` and the
    /// token `auth`. The payload is the empty one until one is attached.
    pub fn init(uri: String, header: String, auth: String) -> (r: ResendSDK)
        ensures
            r@ == initial_client(uri@, header@, auth@),
    {
        ResendSDK { uri, auth, header, body: EmailPayload::default() }
    }

    /// Replaces the held payload and returns a copy of the client as it now
    /// stands, so that settings can be chained.
    pub fn with_email_payload(&mut self, email_payload: EmailPayload) -> (r: ResendSDK)
        ensures
            final(self)@ == old(self)@.with_body(email_payload@),
            r@ == final(self)@,
    {
        self.body = email_payload;
        ResendSDK {
            uri: self.uri.clone(),
            auth: self.auth.clone(),
            header: self.header.clone(),
            body: self.body.duplicate(),
        }
    }

    /// The request that a dispatch of this client sends.
    pub fn request(&self) -> (r: OutboundRequest)
        ensures
            r@ == request_of(self@),
    {
        let mut authorization = "Bearer ".to_owned();
        authorization.append(self.auth.as_str());
        OutboundRequest {
            uri: self.uri.clone(),
            authorization,
            content_type: self.header.clone(),
            body: self.body.to_json(),
        }
    }
}

/// The operations that a dispatch client offers.
pub trait ResendSDKInterface: Sized {
    /// The client's settings and payload.
    spec fn settings(&self) -> ClientModel;

    fn init(uri: String, header: String, auth: String) -> (r: Self)
        ensures
            r.settings() == initial_client(uri@, header@, auth@);

    fn with_email_payload(&mut self, email_payload: EmailPayload) -> (r: Self)
        ensures
            final(self).settings() == old(self).settings().with_body(email_payload@),
            r.settings() == final(self).settings();

    fn request(&self) -> (r: OutboundRequest)
        ensures
            r@ == request_of(self.settings());
}

impl ResendSDKInterface for ResendSDK {
    open spec fn settings(&self) -> ClientModel {
        self@
    }

    fn init(uri: String, header: String, auth: String) -> (r: ResendSDK) {
        ResendSDK::init(uri, header, auth)
    }

    fn with_email_payload(&mut self, email_payload: EmailPayload) -> (r: ResendSDK) {
        ResendSDK::with_email_payload(self, email_payload)
    }

    fn request(&self) -> (r: OutboundRequest) {
        ResendSDK::request(self)
    }
}

} // verus!
