//! The content of one email.
use vstd::prelude::*;
use vstd::string::StringExecFns;

use crate::codec::{json_quote, json_quoted_of};

verus! {

/// What an [`EmailPayload`] holds, as character sequences.
pub ghost struct PayloadModel {
    pub from: Seq<char>,
    pub to: Seq<char>,
    pub subject: Seq<char>,
    pub html: Seq<char>,
}

impl PayloadModel {
    /// The payload whose four fields are all empty.
    pub open spec fn empty() -> PayloadModel {
        PayloadModel { from: Seq::empty(), to: Seq::empty(), subject: Seq::empty(), html: Seq::empty() }
    }
}

/// The JSON object that carries a payload: its four fields as strings, under
/// the keys `from`, `to`, `subject` and `html`, in that order, with no
/// whitespace.
pub open spec fn payload_json(m: PayloadModel) -> Seq<char> {
    "{\"from\":"@ + json_quoted_of(m.from) + ",\"to\":"@ + json_quoted_of(m.to)
        + ",\"subject\":"@ + json_quoted_of(m.subject) + ",\"html\":"@
        + json_quoted_of(m.html) + "}"@
}

/// One email: sender, recipient, subject and HTML body. Any strings are
/// accepted, the empty one included, and kept verbatim.
#[derive(Debug, Clone)]
pub struct EmailPayload {
    from: String,
    to: String,
    subject: String,
    html: String,
}

impl View for EmailPayload {
    type V = PayloadModel;

    closed spec fn view(&self) -> PayloadModel {
        PayloadModel { from: self.from@, to: self.to@, subject: self.subject@, html: self.html@ }
    }
}

impl Default for EmailPayload {
    /// The payload with four empty strings.
    fn default() -> (r: EmailPayload)
        ensures
            r@ == PayloadModel::empty(),
    {
        EmailPayload { from: String::new(), to: String::new(), subject: String::new(), html: String::new() }
    }
}

impl EmailPayload {
    /// Takes the four fields in the order sender, recipient, subject, body.
    pub fn new(from: String, to: String, subject: String, html: String) -> (r: EmailPayload)
        ensures
            r@ == (PayloadModel { from: from@, to: to@, subject: subject@, html: html@ }),
    {
        EmailPayload { from, to, subject, html }
    }

    pub fn from(&self) -> (r: &str)
        ensures
            r@ == self@.from,
    {
        self.from.as_str()
    }

    pub fn to(&self) -> (r: &str)
        ensures
            r@ == self@.to,
    {
        self.to.as_str()
    }

    pub fn subject(&self) -> (r: &str)
        ensures
            r@ == self@.subject,
    {
        self.subject.as_str()
    }

    pub fn html(&self) -> (r: &str)
        ensures
            r@ == self@.html,
    {
        self.html.as_str()
    }

    /// A copy with the same four fields.
    pub fn duplicate(&self) -> (r: EmailPayload)
        ensures
            r@ == self@,
    {
        EmailPayload {
            from: self.from.clone(),
            to: self.to.clone(),
            subject: self.subject.clone(),
            html: self.html.clone(),
        }
    }

    /// The JSON object that is sent as the request body.
    pub fn to_json(&self) -> (r: String)
        ensures
            r@ == payload_json(self@),
    {
        let mut out = "{\"from\":".to_owned();
        out.append(quoted(self.from.as_str()).as_str());
        out.append(",\"to\":");
        out.append(quoted(self.to.as_str()).as_str());
        out.append(",\"subject\":");
        out.append(quoted(self.subject.as_str()).as_str());
        out.append(",\"html\":");
        out.append(quoted(self.html.as_str()).as_str());
        out.append("}");
        out
    }
}

fn quoted(s: &str) -> (r: String)
    ensures
        r@ == json_quoted_of(s@),
{
    match json_quote(s) {
        Some(t) => t,
        None => vstd::pervasive::unreached(),
    }
}

} // verus!
