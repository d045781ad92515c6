//! One forwarding round trip, as two decisions around the network call.
//!
//! [`prepare_request`] turns a raw directive into the request that has to be
//! sent to the controller, or fails. The caller sends it once, and hands the
//! status and the body text that came back to [`complete`], which yields the
//! response for the calling platform.

use vstd::prelude::*;
use vstd::string::StringExecFns;
use serde_json::Value;
use crate::credential::{credential_of, resolve_credential, text_result_is};
use crate::envelope::{envelope_of, parse_envelope, text_view, Envelope, EnvelopeView};
use crate::error::BridgeError;
use crate::header::{
    header_text_ok, is_header_text, lemma_ascii_header_text, plain_char, plain_text,
};
use crate::json::{
    json_is_object, json_member, json_parsed, json_string, json_text, new_object,
    object_value, parse, put, string_value, to_text,
};
use crate::status::{classification, classify_status, ErrorType};

verus! {

/// The request that the caller has to send to the controller: one HTTP POST.
#[derive(Debug, Clone, PartialEq, Eq)]
pub struct ForwardRequest {
    /// Where to post: the controller's local address and the fixed path.
    pub url: String,
    /// The value of the `Authorization` header.
    pub authorization: String,
    /// The value of the `Content-Type` header.
    pub content_type: String,
    /// The request body: the whole directive as it came in.
    pub body: String,
}

/// Mathematical model of a [`ForwardRequest`].
pub ghost struct ForwardRequestView {
    pub url: Seq<char>,
    pub authorization: Seq<char>,
    pub content_type: Seq<char>,
    pub body: Seq<char>,
}

impl View for ForwardRequest {
    type V = ForwardRequestView;

    open spec fn view(&self) -> ForwardRequestView {
        ForwardRequestView {
            url: self.url@,
            authorization: self.authorization@,
            content_type: self.content_type@,
            body: self.body@,
        }
    }
}

/// What a successful invocation answers.
#[derive(Debug, PartialEq)]
pub enum BridgeResponse {
    /// The controller's JSON answer, unchanged.
    Passthrough(Value),
    /// The controller answered with an unsuccessful status: the error type
    /// it stands for, and the raw text of its answer.
    Classified { error_type: ErrorType, message: String },
}

/// Mathematical model of a [`BridgeResponse`].
pub ghost enum BridgeResponseView {
    Passthrough(Value),
    Classified { error_type: ErrorType, message: Seq<char> },
}

impl View for BridgeResponse {
    type V = BridgeResponseView;

    open spec fn view(&self) -> BridgeResponseView {
        match self {
            BridgeResponse::Passthrough(v) => BridgeResponseView::Passthrough(*v),
            BridgeResponse::Classified { error_type, message } => BridgeResponseView::Classified {
                error_type: *error_type,
                message: message@,
            },
        }
    }
}

/// The only payload version that the bridge speaks.
pub open spec fn supported_version() -> Seq<char> {
    "3"@
}

/// The path of the controller's smart-home endpoint.
pub open spec fn forward_path() -> Seq<char> {
    "/api/alexa/smart_home"@
}

/// The credential under which the envelope is forwarded: an envelope of
/// another payload version is refused before its scopes are looked at.
pub open spec fn authorized(e: EnvelopeView, fallback: Option<Seq<char>>) -> Result<
    Seq<char>,
    BridgeError,
> {
    if e.payload_version != supported_version() {
        Err(BridgeError::UnsupportedVersion)
    } else {
        credential_of(e, fallback)
    }
}

/// The value of the `Authorization` header for the credential `token`.
pub open spec fn bearer(token: Seq<char>) -> Seq<char> {
    "Bearer "@ + token
}

/// The request that carries `body` under the credential `token`.
pub open spec fn request_for(token: Seq<char>, body: Seq<char>, base_url: Seq<char>) -> ForwardRequestView {
    ForwardRequestView {
        url: base_url + forward_path(),
        authorization: bearer(token),
        content_type: "application/json"@,
        body: body,
    }
}

/// The outcome of preparing a request, given what the raw directive decodes
/// to (`envelope`) and what it is written out as (`body`).
pub open spec fn prepared(
    envelope: Option<EnvelopeView>,
    body: Option<Seq<char>>,
    fallback: Option<Seq<char>>,
    base_url: Seq<char>,
) -> Result<ForwardRequestView, BridgeError> {
    match envelope {
        None => Err(BridgeError::MalformedEnvelope),
        Some(e) => match authorized(e, fallback) {
            Err(err) => Err(err),
            Ok(token) => if !header_text_ok(bearer(token)) {
                Err(BridgeError::InvalidCredential)
            } else {
                match body {
                    None => Err(BridgeError::RequestEncodeError),
                    Some(b) => Ok(request_for(token, b, base_url)),
                }
            },
        },
    }
}

/// The outcome of a round trip, given the controller's status, the raw text
/// of its answer and what that text parses to.
pub open spec fn response_of(status: u16, body: Seq<char>, parsed: Option<Value>) -> Result<
    BridgeResponseView,
    BridgeError,
> {
    match parsed {
        None => Err(BridgeError::ResponseDecodeError),
        Some(v) => match classification(status) {
            None => Ok(BridgeResponseView::Passthrough(v)),
            Some(t) => Ok(BridgeResponseView::Classified { error_type: t, message: body }),
        },
    }
}

/// The string member of `v` under `key`.
pub open spec fn member_text(v: Value, key: Seq<char>) -> Option<Seq<char>> {
    match json_member(v, key) {
        Some(m) => json_string(m),
        None => None,
    }
}

/// Whether `v` is an object that has no members but those named in `keys`.
pub open spec fn only_members(v: Value, keys: Set<Seq<char>>) -> bool {
    json_is_object(v) && forall|k: Seq<char>| (#[trigger] json_member(v, k)) is Some ==> keys.contains(k)
}

/// Whether `v` is the error envelope of the protocol for the given error
/// type and message: an object whose only member `event` is an object whose
/// only member `payload` is an object with the two string members `type` and
/// `message`, and no others.
pub open spec fn is_error_envelope(v: Value, error_type: ErrorType, message: Seq<char>) -> bool {
    &&& only_members(v, set!["event"@])
    &&& match json_member(v, "event"@) {
        Some(event) => only_members(event, set!["payload"@]) && match json_member(
            event,
            "payload"@,
        ) {
            Some(payload) => {
                &&& only_members(payload, set!["type"@, "message"@])
                &&& member_text(payload, "type"@) == Some(error_type.spec_name())
                &&& member_text(payload, "message"@) == Some(message)
            },
            None => false,
        },
        None => false,
    }
}

/// Whether the request or failure `res` is the one that the model gives as
/// `expected`.
pub open spec fn request_result_is(
    res: Result<ForwardRequest, BridgeError>,
    expected: Result<ForwardRequestView, BridgeError>,
) -> bool {
    match expected {
        Ok(r) => res matches Ok(q) && q@ == r,
        Err(e) => res == Err::<ForwardRequest, BridgeError>(e),
    }
}

/// Whether the response or failure `res` is the one that the model gives as
/// `expected`.
pub open spec fn response_result_is(
    res: Result<BridgeResponse, BridgeError>,
    expected: Result<BridgeResponseView, BridgeError>,
) -> bool {
    match expected {
        Ok(r) => res matches Ok(q) && q@ == r,
        Err(e) => res == Err::<BridgeResponse, BridgeError>(e),
    }
}

/// Checks the payload version and resolves the credential.
pub fn authorize(e: &Envelope, fallback: &Option<String>) -> (res: Result<String, BridgeError>)
    ensures
        text_result_is(res, authorized(e@, text_view(*fallback))),
{
    let supported = String::from_str("3");
    if !(e.payload_version == supported) {
        return Err(BridgeError::UnsupportedVersion);
    }
    resolve_credential(e, fallback)
}

/// Builds the request that carries `body` under the credential `token`.
pub fn build_request(token: &str, body: String, base_url: &str) -> (res: ForwardRequest)
    ensures
        res@ == request_for(token@, body@, base_url@),
{
    ForwardRequest {
        url: String::from_str(base_url).concat("/api/alexa/smart_home"),
        authorization: String::from_str("Bearer ").concat(token),
        content_type: String::from_str("application/json"),
        body: body,
    }
}

/// Decides the request from a decoded envelope and from the text that the
/// raw directive was written out as (`None` where it could not be written).
///
/// The payload version is checked first, then the credential is resolved
/// and checked to fit into a header, and only then a missing body counts:
/// the first failure is the one reported.
pub fn plan_request(
    envelope: &Envelope,
    body: Option<String>,
    fallback: &Option<String>,
    base_url: &str,
) -> (res: Result<ForwardRequest, BridgeError>)
    ensures
        request_result_is(
            res,
            prepared(Some(envelope@), text_view(body), text_view(*fallback), base_url@),
        ),
{
    let token = match authorize(envelope, fallback) {
        Ok(t) => t,
        Err(err) => { return Err(err); },
    };
    let authorization = String::from_str("Bearer ").concat(token.as_str());
    if !is_header_text(authorization.as_str()) {
        return Err(BridgeError::InvalidCredential);
    }
    match body {
        Some(b) => Ok(build_request(token.as_str(), b, base_url)),
        None => Err(BridgeError::RequestEncodeError),
    }
}

/// Turns a raw directive into the request to send to the controller.
///
/// The directive is decoded, its payload version checked, its credential
/// resolved and checked to fit into a header, in this order; the first
/// failure ends the invocation. The body
/// of the request is the whole directive as it came in, not only what was
/// decoded of it.
pub fn prepare_request(event: &Value, fallback: &Option<String>, base_url: &str) -> (res: Result<
    ForwardRequest,
    BridgeError,
>)
    ensures
        request_result_is(
            res,
            prepared(envelope_of(*event), json_text(*event), text_view(*fallback), base_url@),
        ),
        envelope_of(*event) is None ==> res == Err::<ForwardRequest, BridgeError>(
            BridgeError::MalformedEnvelope,
        ),
        envelope_of(*event) matches Some(e) && e.payload_version != supported_version() ==> res
            == Err::<ForwardRequest, BridgeError>(BridgeError::UnsupportedVersion),
{
    let envelope = match parse_envelope(event) {
        Ok(e) => e,
        Err(err) => { return Err(err); },
    };
    let body = match to_text(event) {
        Ok(b) => Some(b),
        Err(_) => None,
    };
    plan_request(&envelope, body, fallback, base_url)
}

/// Decides the response from the controller's status, the raw text of its
/// answer, and what that text parsed to (`None` where it is no JSON).
///
/// Text that is no JSON is fatal at every status. Otherwise a status that
/// passes through yields the parsed answer, and any other status yields its
/// error type with the raw text, the parsed answer being dropped.
pub fn respond(status: u16, body: String, parsed: Option<Value>) -> (res: Result<
    BridgeResponse,
    BridgeError,
>)
    ensures
        response_result_is(res, response_of(status, body@, parsed)),
{
    match parsed {
        None => Err(BridgeError::ResponseDecodeError),
        Some(v) => match classify_status(status) {
            None => Ok(BridgeResponse::Passthrough(v)),
            Some(t) => Ok(BridgeResponse::Classified { error_type: t, message: body }),
        },
    }
}

/// Decides the response from the controller's status and the raw text of its
/// answer.
pub fn complete(status: u16, body: String) -> (res: Result<BridgeResponse, BridgeError>)
    ensures
        response_result_is(res, response_of(status, body@, json_parsed(body@))),
{
    let parsed = match parse(body.as_str()) {
        Ok(v) => Some(v),
        Err(_) => None,
    };
    respond(status, body, parsed)
}

/// Builds the error envelope of the protocol:
/// `{"event":{"payload":{"type":..,"message":..}}}`.
pub fn error_envelope(error_type: ErrorType, message: String) -> (res: Value)
    ensures
        is_error_envelope(res, error_type, message@),
{
    proof {
        reveal_strlit("type");
        reveal_strlit("message");
        assert("type"@.len() != "message"@.len());
    }
    let mut payload = new_object();
    put(&mut payload, String::from_str("type"), string_value(String::from_str(error_type.name())));
    put(&mut payload, String::from_str("message"), string_value(message));
    let mut event = new_object();
    put(&mut event, String::from_str("payload"), object_value(payload));
    let mut root = new_object();
    put(&mut root, String::from_str("event"), object_value(event));
    object_value(root)
}

impl BridgeResponse {
    /// The response as the JSON value that goes back to the calling
    /// platform: the controller's answer itself, or the error envelope.
    pub fn into_json(self) -> (res: Value)
        ensures
            match self@ {
                BridgeResponseView::Passthrough(v) => res == v,
                BridgeResponseView::Classified { error_type, message } => is_error_envelope(
                    res,
                    error_type,
                    message,
                ),
            },
    {
        match self {
            BridgeResponse::Passthrough(v) => v,
            BridgeResponse::Classified { error_type, message } => error_envelope(error_type, message),
        }
    }
}

/// A credential made of tabs and printable ASCII characters alone always
/// fits into the `Authorization` header.
pub proof fn lemma_plain_credential_fits(token: Seq<char>)
    requires
        plain_text(token),
    ensures
        header_text_ok(bearer(token)),
{
    reveal_strlit("Bearer ");
    let text = bearer(token);
    assert forall|i: int| 0 <= i < text.len() implies plain_char(#[trigger] text[i]) by {
        if i >= 7 {
            assert(text[i] == token[i - 7]);
        }
    }
    lemma_ascii_header_text(text);
}

/// An envelope of another payload version than the supported one is refused
/// as `UnsupportedVersion`, whatever else it holds and whatever the fallback
/// credential is.
pub proof fn lemma_unsupported_version(
    e: EnvelopeView,
    body: Option<Seq<char>>,
    fallback: Option<Seq<char>>,
    base_url: Seq<char>,
)
    requires
        e.payload_version != supported_version(),
    ensures
        authorized(e, fallback) == Err::<Seq<char>, BridgeError>(BridgeError::UnsupportedVersion),
        prepared(Some(e), body, fallback, base_url) == Err::<ForwardRequestView, BridgeError>(
            BridgeError::UnsupportedVersion,
        ),
{
}

/// An unsuccessful status is no failure of the bridge: whatever the status,
/// an answer that is JSON yields a response, and one that is not yields
/// `ResponseDecodeError`.
pub proof fn lemma_only_the_answer_text_is_fatal(status: u16, body: Seq<char>, parsed: Option<Value>)
    ensures
        parsed is Some <==> response_of(status, body, parsed) is Ok,
        parsed is None <==> response_of(status, body, parsed) == Err::<
            BridgeResponseView,
            BridgeError,
        >(BridgeError::ResponseDecodeError),
{
}

/// A JSON answer at status 401 or 403 yields the error type
/// `INVALID_AUTHORIZATION_CREDENTIAL` with the raw text of the answer.
pub proof fn lemma_refused_credential(status: u16, body: Seq<char>, parsed: Value)
    requires
        status == 401 || status == 403,
    ensures
        response_of(status, body, Some(parsed)) == Ok::<BridgeResponseView, BridgeError>(
            BridgeResponseView::Classified {
                error_type: ErrorType::InvalidAuthorizationCredential,
                message: body,
            },
        ),
{
}

/// A JSON answer at a status from 200 to 208 is handed on unchanged.
pub proof fn lemma_success_passes_through(status: u16, body: Seq<char>, parsed: Value)
    requires
        200 <= status <= 208,
    ensures
        response_of(status, body, Some(parsed)) == Ok::<BridgeResponseView, BridgeError>(
            BridgeResponseView::Passthrough(parsed),
        ),
{
}

/// A JSON answer at any other status, 503 among them, yields the error type
/// `INTERNAL_ERROR` with the raw text of the answer.
pub proof fn lemma_other_status_is_internal_error(status: u16, body: Seq<char>, parsed: Value)
    requires
        !(200 <= status <= 208),
        status != 401,
        status != 403,
    ensures
        response_of(status, body, Some(parsed)) == Ok::<BridgeResponseView, BridgeError>(
            BridgeResponseView::Classified { error_type: ErrorType::InternalError, message: body },
        ),
{
}

/// Preparing a request keeps no state: any two results that
/// [`prepare_request`] may give for the same directive, fallback credential
/// and address are the same request, or the same failure.
pub proof fn lemma_prepare_repeatable(
    event: Value,
    fallback: Option<Seq<char>>,
    base_url: Seq<char>,
    first: Result<ForwardRequest, BridgeError>,
    second: Result<ForwardRequest, BridgeError>,
)
    requires
        request_result_is(first, prepared(envelope_of(event), json_text(event), fallback, base_url)),
        request_result_is(second, prepared(envelope_of(event), json_text(event), fallback, base_url)),
    ensures
        first matches Ok(a) ==> second matches Ok(b) && a@ == b@,
        first matches Err(e) ==> second == Err::<ForwardRequest, BridgeError>(e),
{
}

/// Completing a round trip keeps no state: any two results that [`complete`]
/// may give for the same status and the same answer are the same response,
/// or the same failure.
pub proof fn lemma_complete_repeatable(
    status: u16,
    body: Seq<char>,
    first: Result<BridgeResponse, BridgeError>,
    second: Result<BridgeResponse, BridgeError>,
)
    requires
        response_result_is(first, response_of(status, body, json_parsed(body))),
        response_result_is(second, response_of(status, body, json_parsed(body))),
    ensures
        first matches Ok(a) ==> second matches Ok(b) && a@ == b@,
        first matches Err(e) ==> second == Err::<BridgeResponse, BridgeError>(e),
{
}

} // verus!
