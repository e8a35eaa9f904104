//! Text encodings that the client borrows from `serde_json` and from std's
//! `Debug` formatting. Their results are named, not restated.
use vstd::prelude::*;

verus! {

/// The JSON string literal that encodes `s`, quotes and escapes included.
pub uninterp spec fn json_quoted_of(s: Seq<char>) -> Seq<char>;

/// `s` parsed as one JSON document and printed back in compact form, or
/// `None` where `serde_json` does not accept `s` as one JSON document.
pub uninterp spec fn json_reencoded_of(s: Seq<char>) -> Option<Seq<char>>;

/// The text that std's `Debug` writes for the string `s`: quoted and escaped.
pub uninterp spec fn debug_quoted_of(s: Seq<char>) -> Seq<char>;

/// Relies on `serde_json::to_string` on a `str`: it writes the string as one
/// JSON string literal into a `Vec<u8>`, a writer that never fails, so the
/// result is always `Ok`.
#[verifier::external_body]
pub(crate) fn json_quote(s: &str) -> (r: Option<String>)
    ensures
        r is Some,
        r->Some_0@ == json_quoted_of(s@),
{
    serde_json::to_string(s).ok()
}

/// Relies on `serde_json::from_str` into a `serde_json::Value`, which fails
/// on text that is not one JSON document, and on that value's `Display`,
/// which prints it as compact JSON into a `String`.
#[verifier::external_body]
pub(crate) fn json_reencode(s: &str) -> (r: Option<String>)
    ensures
        r is Some <==> json_reencoded_of(s@) is Some,
        r is Some ==> r->Some_0@ == json_reencoded_of(s@)->Some_0,
{
    match serde_json::from_str::<serde_json::Value>(s) {
        Ok(v) => Some(v.to_string()),
        Err(_) => None,
    }
}

/// Relies on std's `Debug` for `str`, written through `format!`.
#[verifier::external_body]
pub(crate) fn debug_quote(s: &str) -> (r: String)
    ensures
        r@ == debug_quoted_of(s@),
{
    format!("{:?}", s)
}

} // verus!
