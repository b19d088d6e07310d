use vstd::prelude::*;
use crate::ApiError;
use crate::json::{JsonValue, parse_json, parsed_json};
use crate::session::TokenDecision;

verus! {

/// What one transport attempt came back with: a status line with its body
/// text, or a failure below HTTP (DNS, timeout, connection reset).
#[derive(Debug, Clone, PartialEq)]
pub enum HttpEvent {
    Response { status: u16, body: String },
    TransportFailure,
}

/// How a response with the given status and parsed body is classified.
pub open spec fn spec_classify_parsed(status: u16, parsed: Option<JsonValue>) -> Result<
    JsonValue,
    ApiError,
> {
    if 200 <= status && status < 300 {
        match parsed {
            Some(v) => Ok(v),
            None => Err(ApiError::BadResponse),
        }
    } else if status == 400 {
        Err(ApiError::BadRequest)
    } else if status == 401 || status == 403 {
        Err(ApiError::Forbidden)
    } else if status == 404 {
        Err(ApiError::NotFound)
    } else {
        Err(ApiError::BadResponse)
    }
}

/// Classifies a response whose body has already been parsed: a success
/// status yields the parsed document, or `BadResponse` where the body did
/// not parse; 400 is `BadRequest`, 401 and 403 are `Forbidden`, 404 is
/// `NotFound`, and every other status is `BadResponse`.
pub fn classify_parsed(status: u16, parsed: Option<JsonValue>) -> (r: Result<JsonValue, ApiError>)
    ensures
        r == spec_classify_parsed(status, parsed),
{
    if 200 <= status && status < 300 {
        match parsed {
            Some(v) => Ok(v),
            None => Err(ApiError::BadResponse),
        }
    } else if status == 400 {
        Err(ApiError::BadRequest)
    } else if status == 401 || status == 403 {
        Err(ApiError::Forbidden)
    } else if status == 404 {
        Err(ApiError::NotFound)
    } else {
        Err(ApiError::BadResponse)
    }
}

/// The typed outcome of a request whose transport attempt ended in `e`.
pub open spec fn spec_run_request(e: HttpEvent) -> Result<JsonValue, ApiError> {
    match e {
        HttpEvent::Response { status, body } => spec_classify_parsed(status, parsed_json(body@)),
        HttpEvent::TransportFailure => Err(ApiError::Transient),
    }
}

/// The outcome of one request on an endpoint that needs no identity: the
/// body of a success response is parsed and returned, every other status is
/// mapped to its error kind, and a transport failure is surfaced as
/// `Transient`.
pub fn run_request(e: &HttpEvent) -> (r: Result<JsonValue, ApiError>)
    ensures
        r == spec_run_request(*e),
{
    match e {
        HttpEvent::Response { status, body } => {
            let parsed = parse_json(body.as_str());
            classify_parsed(*status, parsed)
        },
        HttpEvent::TransportFailure => Err(ApiError::Transient),
    }
}

/// The typed outcome of an authenticated request, given the session's token
/// decision and the transport attempt.
pub open spec fn spec_run_auth_request(d: TokenDecision, e: HttpEvent) -> Result<
    JsonValue,
    ApiError,
> {
    match d {
        TokenDecision::Ready(token) => spec_run_request(e),
        TokenDecision::NeedReauth => Err(ApiError::Forbidden),
        TokenDecision::Denied(err) => Err(err),
    }
}

/// The outcome of one authenticated request. `d` is what
/// `Session::token_for_request` decided: where it denied a token the
/// request is not sent and the session's error is returned as it stands; a
/// re-authentication that was never completed counts as missing identity
/// and is refused as `Forbidden`; with a ready token the response is
/// classified exactly as on the unauthenticated path.
pub fn run_auth_request(d: &TokenDecision, e: &HttpEvent) -> (r: Result<JsonValue, ApiError>)
    ensures
        r == spec_run_auth_request(*d, *e),
{
    match d {
        TokenDecision::Ready(token) => run_request(e),
        TokenDecision::NeedReauth => Err(ApiError::Forbidden),
        TokenDecision::Denied(err) => Err(*err),
    }
}

/// Both call paths classify a status alike: with a live token, the
/// authenticated outcome of a response equals the unauthenticated one.
pub proof fn lemma_status_mapping_shared(token: String, e: HttpEvent)
    ensures
        spec_run_auth_request(TokenDecision::Ready(token), e) == spec_run_request(e),
{
}

} // verus!
