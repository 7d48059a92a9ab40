//! Wire formats: how a response body is written, which error a failed
//! decode reports, and the headers that announce the format in a request.

use vstd::prelude::*;

use crate::request::RequestPlan;

verus! {

#[verifier::external_type_specification]
#[verifier::external_body]
pub struct ExJsonError(serde_json::Error);

#[verifier::external_type_specification]
#[verifier::external_body]
pub struct ExXmlError(serde_xml_rs::Error);

#[verifier::external_type_specification]
#[verifier::external_body]
pub struct ExJsonValue(serde_json::Value);

/// Whether `serde_json` accepts the text as a JSON document.
pub uninterp spec fn is_json_text(s: Seq<char>) -> bool;

/// Relies on `serde_json::from_str` into `serde_json::Value`: the text decodes
/// exactly when it is a JSON document, which depends on the text alone.
#[verifier::external_body]
pub(crate) fn json_value_from_str(s: &str) -> (r: Result<serde_json::Value, serde_json::Error>)
    ensures
        r is Ok <==> is_json_text(s@),
{
    serde_json::from_str(s)
}

/// A format that response bodies are written in. `Error` is what a failed
/// decode of a body reports.
pub trait SerialFormat {
    type Error;
}

/// A format that can be announced in request headers.
pub trait ApiFormat: SerialFormat {
    /// The media type of the format.
    spec fn media_type_spec() -> Seq<char>;

    /// The media type of the format, as sent in `Accept` and `Content-Type`.
    fn media_type() -> (r: &'static str)
        ensures
            r@ == Self::media_type_spec(),
    ;

    /// Asks for responses in this format: adds `Accept` with the media type.
    fn with_accept_header(plan: RequestPlan) -> (r: RequestPlan)
        ensures
            r@ == plan@.with_header("Accept"@, Self::media_type_spec()),
    {
        plan.with_header("Accept", Self::media_type())
    }

    /// Declares that the request body is in this format: adds `Content-Type`
    /// with the media type.
    fn with_content_type_header(plan: RequestPlan) -> (r: RequestPlan)
        ensures
            r@ == plan@.with_header("Content-Type"@, Self::media_type_spec()),
    {
        plan.with_header("Content-Type", Self::media_type())
    }
}

/// JSON bodies, decoded with `serde_json`.
#[derive(Debug)]
pub struct JsonFormat;

/// XML bodies, decoded with `serde_xml_rs`.
#[derive(Debug)]
pub struct XmlFormat;

impl SerialFormat for JsonFormat {
    type Error = serde_json::Error;
}

impl SerialFormat for XmlFormat {
    type Error = serde_xml_rs::Error;
}

impl ApiFormat for JsonFormat {
    open spec fn media_type_spec() -> Seq<char> {
        "application/json"@
    }

    fn media_type() -> (r: &'static str) {
        let r = "application/json";
        assert(<JsonFormat as ApiFormat>::media_type_spec() == "application/json"@);
        r
    }
}

impl ApiFormat for XmlFormat {
    open spec fn media_type_spec() -> Seq<char> {
        "application/xml"@
    }

    fn media_type() -> (r: &'static str) {
        let r = "application/xml";
        assert(<XmlFormat as ApiFormat>::media_type_spec() == "application/xml"@);
        r
    }
}

} // verus!
