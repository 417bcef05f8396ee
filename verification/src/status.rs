//! The response-builder collaborator's status-code vocabulary.
//!
//! A status tag on an error variant names one of the status-code
//! constructors that the response-building collaborator offers.  A tag
//! outside this vocabulary is a schema-validation failure, reported at
//! build time.

use vstd::prelude::*;

verus! {

/// The status used for every variant that carries no status tag:
/// the server-fault class default.
pub const DEFAULT_STATUS: u16 = 500;

/// Looks a status-tag identifier up in the collaborator's vocabulary.
///
/// Returns the numeric status code for a known identifier and `None`
/// exactly on identifiers outside the vocabulary, which callers must
/// treat as a validation failure.
pub fn status_code_of_ident(ident: &str) -> (r: Option<u16>)
    ensures
        r == spec_status_code_of_ident(ident@),
{
    let t: String = ident.to_owned();
    if t == "Continue".to_owned() {
        Some(100)
    } else if t == "SwitchingProtocols".to_owned() {
        Some(101)
    } else if t == "Processing".to_owned() {
        Some(102)
    } else if t == "Ok".to_owned() {
        Some(200)
    } else if t == "Created".to_owned() {
        Some(201)
    } else if t == "Accepted".to_owned() {
        Some(202)
    } else if t == "NonAuthoritativeInformation".to_owned() {
        Some(203)
    } else if t == "NoContent".to_owned() {
        Some(204)
    } else if t == "ResetContent".to_owned() {
        Some(205)
    } else if t == "PartialContent".to_owned() {
        Some(206)
    } else if t == "MultiStatus".to_owned() {
        Some(207)
    } else if t == "AlreadyReported".to_owned() {
        Some(208)
    } else if t == "ImUsed".to_owned() {
        Some(226)
    } else if t == "MultipleChoices".to_owned() {
        Some(300)
    } else if t == "MovedPermanently".to_owned() {
        Some(301)
    } else if t == "Found".to_owned() {
        Some(302)
    } else if t == "SeeOther".to_owned() {
        Some(303)
    } else if t == "NotModified".to_owned() {
        Some(304)
    } else if t == "UseProxy".to_owned() {
        Some(305)
    } else if t == "TemporaryRedirect".to_owned() {
        Some(307)
    } else if t == "PermanentRedirect".to_owned() {
        Some(308)
    } else if t == "BadRequest".to_owned() {
        Some(400)
    } else if t == "Unauthorized".to_owned() {
        Some(401)
    } else if t == "PaymentRequired".to_owned() {
        Some(402)
    } else if t == "Forbidden".to_owned() {
        Some(403)
    } else if t == "NotFound".to_owned() {
        Some(404)
    } else if t == "MethodNotAllowed".to_owned() {
        Some(405)
    } else if t == "NotAcceptable".to_owned() {
        Some(406)
    } else if t == "ProxyAuthenticationRequired".to_owned() {
        Some(407)
    } else if t == "RequestTimeout".to_owned() {
        Some(408)
    } else if t == "Conflict".to_owned() {
        Some(409)
    } else if t == "Gone".to_owned() {
        Some(410)
    } else if t == "LengthRequired".to_owned() {
        Some(411)
    } else if t == "PreconditionFailed".to_owned() {
        Some(412)
    } else if t == "PayloadTooLarge".to_owned() {
        Some(413)
    } else if t == "UriTooLong".to_owned() {
        Some(414)
    } else if t == "UnsupportedMediaType".to_owned() {
        Some(415)
    } else if t == "RangeNotSatisfiable".to_owned() {
        Some(416)
    } else if t == "ExpectationFailed".to_owned() {
        Some(417)
    } else if t == "ImATeapot".to_owned() {
        Some(418)
    } else if t == "MisdirectedRequest".to_owned() {
        Some(421)
    } else if t == "UnprocessableEntity".to_owned() {
        Some(422)
    } else if t == "Locked".to_owned() {
        Some(423)
    } else if t == "FailedDependency".to_owned() {
        Some(424)
    } else if t == "UpgradeRequired".to_owned() {
        Some(426)
    } else if t == "PreconditionRequired".to_owned() {
        Some(428)
    } else if t == "TooManyRequests".to_owned() {
        Some(429)
    } else if t == "RequestHeaderFieldsTooLarge".to_owned() {
        Some(431)
    } else if t == "UnavailableForLegalReasons".to_owned() {
        Some(451)
    } else if t == "InternalServerError".to_owned() {
        Some(500)
    } else if t == "NotImplemented".to_owned() {
        Some(501)
    } else if t == "BadGateway".to_owned() {
        Some(502)
    } else if t == "ServiceUnavailable".to_owned() {
        Some(503)
    } else if t == "GatewayTimeout".to_owned() {
        Some(504)
    } else if t == "VersionNotSupported".to_owned() {
        Some(505)
    } else if t == "VariantAlsoNegotiates".to_owned() {
        Some(506)
    } else if t == "InsufficientStorage".to_owned() {
        Some(507)
    } else if t == "LoopDetected".to_owned() {
        Some(508)
    } else if t == "NotExtended".to_owned() {
        Some(510)
    } else if t == "NetworkAuthenticationRequired".to_owned() {
        Some(511)
    } else {
        None
    }
}

/// The status-code vocabulary, as a function of the identifier's characters.
pub open spec fn spec_status_code_of_ident(ident: Seq<char>) -> Option<u16> {
    if ident == "Continue"@ {
        Some(100)
    } else if ident == "SwitchingProtocols"@ {
        Some(101)
    } else if ident == "Processing"@ {
        Some(102)
    } else if ident == "Ok"@ {
        Some(200)
    } else if ident == "Created"@ {
        Some(201)
    } else if ident == "Accepted"@ {
        Some(202)
    } else if ident == "NonAuthoritativeInformation"@ {
        Some(203)
    } else if ident == "NoContent"@ {
        Some(204)
    } else if ident == "ResetContent"@ {
        Some(205)
    } else if ident == "PartialContent"@ {
        Some(206)
    } else if ident == "MultiStatus"@ {
        Some(207)
    } else if ident == "AlreadyReported"@ {
        Some(208)
    } else if ident == "ImUsed"@ {
        Some(226)
    } else if ident == "MultipleChoices"@ {
        Some(300)
    } else if ident == "MovedPermanently"@ {
        Some(301)
    } else if ident == "Found"@ {
        Some(302)
    } else if ident == "SeeOther"@ {
        Some(303)
    } else if ident == "NotModified"@ {
        Some(304)
    } else if ident == "UseProxy"@ {
        Some(305)
    } else if ident == "TemporaryRedirect"@ {
        Some(307)
    } else if ident == "PermanentRedirect"@ {
        Some(308)
    } else if ident == "BadRequest"@ {
        Some(400)
    } else if ident == "Unauthorized"@ {
        Some(401)
    } else if ident == "PaymentRequired"@ {
        Some(402)
    } else if ident == "Forbidden"@ {
        Some(403)
    } else if ident == "NotFound"@ {
        Some(404)
    } else if ident == "MethodNotAllowed"@ {
        Some(405)
    } else if ident == "NotAcceptable"@ {
        Some(406)
    } else if ident == "ProxyAuthenticationRequired"@ {
        Some(407)
    } else if ident == "RequestTimeout"@ {
        Some(408)
    } else if ident == "Conflict"@ {
        Some(409)
    } else if ident == "Gone"@ {
        Some(410)
    } else if ident == "LengthRequired"@ {
        Some(411)
    } else if ident == "PreconditionFailed"@ {
        Some(412)
    } else if ident == "PayloadTooLarge"@ {
        Some(413)
    } else if ident == "UriTooLong"@ {
        Some(414)
    } else if ident == "UnsupportedMediaType"@ {
        Some(415)
    } else if ident == "RangeNotSatisfiable"@ {
        Some(416)
    } else if ident == "ExpectationFailed"@ {
        Some(417)
    } else if ident == "ImATeapot"@ {
        Some(418)
    } else if ident == "MisdirectedRequest"@ {
        Some(421)
    } else if ident == "UnprocessableEntity"@ {
        Some(422)
    } else if ident == "Locked"@ {
        Some(423)
    } else if ident == "FailedDependency"@ {
        Some(424)
    } else if ident == "UpgradeRequired"@ {
        Some(426)
    } else if ident == "PreconditionRequired"@ {
        Some(428)
    } else if ident == "TooManyRequests"@ {
        Some(429)
    } else if ident == "RequestHeaderFieldsTooLarge"@ {
        Some(431)
    } else if ident == "UnavailableForLegalReasons"@ {
        Some(451)
    } else if ident == "InternalServerError"@ {
        Some(500)
    } else if ident == "NotImplemented"@ {
        Some(501)
    } else if ident == "BadGateway"@ {
        Some(502)
    } else if ident == "ServiceUnavailable"@ {
        Some(503)
    } else if ident == "GatewayTimeout"@ {
        Some(504)
    } else if ident == "VersionNotSupported"@ {
        Some(505)
    } else if ident == "VariantAlsoNegotiates"@ {
        Some(506)
    } else if ident == "InsufficientStorage"@ {
        Some(507)
    } else if ident == "LoopDetected"@ {
        Some(508)
    } else if ident == "NotExtended"@ {
        Some(510)
    } else if ident == "NetworkAuthenticationRequired"@ {
        Some(511)
    } else {
        None
    }
}

} // verus!
