//! The directive envelope and its structural decoding.
//!
//! Decoding only looks at the shape of the input. Whether the payload version
//! and the scope type are supported is decided later, by the bridge.

use vstd::prelude::*;
use vstd::string::StringExecFns;
use serde_json::Value;
use crate::error::BridgeError;
use crate::json::{as_text, is_null, is_object, json_is_null, json_is_object, json_member, json_string, member};

verus! {

/// An authorization scope: the kind of credential and, optionally, its value.
#[derive(Debug, Clone, PartialEq, Eq)]
pub struct Scope {
    pub ty: String,
    pub token: Option<String>,
}

/// The endpoint a directive is addressed to, with its scope.
#[derive(Debug, Clone, PartialEq, Eq)]
pub struct Endpoint {
    pub scope: Scope,
}

/// The payload of a directive, with its two optional places for a scope.
#[derive(Debug, Clone, PartialEq, Eq)]
pub struct Payload {
    pub grantee: Option<Scope>,
    pub scope: Option<Scope>,
}

/// A decoded directive envelope.
#[derive(Debug, Clone, PartialEq, Eq)]
pub struct Envelope {
    pub payload_version: String,
    pub endpoint: Option<Endpoint>,
    pub payload: Option<Payload>,
}

/// Mathematical model of a [`Scope`].
pub ghost struct ScopeView {
    pub ty: Seq<char>,
    pub token: Option<Seq<char>>,
}

/// Mathematical model of a [`Payload`].
pub ghost struct PayloadView {
    pub grantee: Option<ScopeView>,
    pub scope: Option<ScopeView>,
}

/// Mathematical model of an [`Envelope`].
pub ghost struct EnvelopeView {
    pub payload_version: Seq<char>,
    pub endpoint: Option<ScopeView>,
    pub payload: Option<PayloadView>,
}

/// The model of an optional string.
pub open spec fn text_view(s: Option<String>) -> Option<Seq<char>> {
    match s {
        Some(t) => Some(t@),
        None => None,
    }
}

/// The model of an optional scope.
pub open spec fn scope_view(s: Option<Scope>) -> Option<ScopeView> {
    match s {
        Some(t) => Some(t@),
        None => None,
    }
}

impl View for Scope {
    type V = ScopeView;

    open spec fn view(&self) -> ScopeView {
        ScopeView { ty: self.ty@, token: text_view(self.token) }
    }
}

impl View for Payload {
    type V = PayloadView;

    open spec fn view(&self) -> PayloadView {
        PayloadView { grantee: scope_view(self.grantee), scope: scope_view(self.scope) }
    }
}

impl View for Envelope {
    type V = EnvelopeView;

    open spec fn view(&self) -> EnvelopeView {
        EnvelopeView {
            payload_version: self.payload_version@,
            endpoint: match self.endpoint {
                Some(e) => Some(e.scope@),
                None => None,
            },
            payload: match self.payload {
                Some(p) => Some(p@),
                None => None,
            },
        }
    }
}

/// The member of `v` under `key`, where a missing member and a `null` one
/// both count as absent.
pub open spec fn present_member(v: Value, key: Seq<char>) -> Option<Value> {
    match json_member(v, key) {
        Some(m) => if json_is_null(m) { None } else { Some(m) },
        None => None,
    }
}

/// The scope that `v` encodes: an object with a string `type` and an
/// optional string `token`. `None` where `v` has another shape.
pub open spec fn scope_of(v: Value) -> Option<ScopeView> {
    match json_member(v, "type"@) {
        Some(t) => match json_string(t) {
            Some(ty) => match present_member(v, "token"@) {
                Some(tok) => match json_string(tok) {
                    Some(s) => Some(ScopeView { ty: ty, token: Some(s) }),
                    None => None,
                },
                None => Some(ScopeView { ty: ty, token: None }),
            },
            None => None,
        },
        None => None,
    }
}

/// The optional scope under `key` in `v`. The outer `None` stands for a
/// member that is present and is no scope.
pub open spec fn optional_scope_of(v: Value, key: Seq<char>) -> Option<Option<ScopeView>> {
    match present_member(v, key) {
        Some(m) => match scope_of(m) {
            Some(s) => Some(Some(s)),
            None => None,
        },
        None => Some(None),
    }
}

/// The endpoint that `v` encodes: an object with a `scope`.
pub open spec fn endpoint_of(v: Value) -> Option<ScopeView> {
    match json_member(v, "scope"@) {
        Some(s) => scope_of(s),
        None => None,
    }
}

/// The payload that `v` encodes: an object whose `grantee` and `scope`, where
/// present, are scopes.
pub open spec fn payload_of(v: Value) -> Option<PayloadView> {
    if !json_is_object(v) {
        None
    } else {
        match (optional_scope_of(v, "grantee"@), optional_scope_of(v, "scope"@)) {
            (Some(g), Some(s)) => Some(PayloadView { grantee: g, scope: s }),
            _ => None,
        }
    }
}

/// The optional endpoint of the directive `d`.
pub open spec fn optional_endpoint_of(d: Value) -> Option<Option<ScopeView>> {
    match present_member(d, "endpoint"@) {
        Some(e) => match endpoint_of(e) {
            Some(s) => Some(Some(s)),
            None => None,
        },
        None => Some(None),
    }
}

/// The optional payload of the directive `d`.
pub open spec fn optional_payload_of(d: Value) -> Option<Option<PayloadView>> {
    match present_member(d, "payload"@) {
        Some(p) => match payload_of(p) {
            Some(s) => Some(Some(s)),
            None => None,
        },
        None => Some(None),
    }
}

/// The payload version of the directive `d`: the string under
/// `header.payloadVersion`.
pub open spec fn version_of(d: Value) -> Option<Seq<char>> {
    match json_member(d, "header"@) {
        Some(h) => match json_member(h, "payloadVersion"@) {
            Some(pv) => json_string(pv),
            None => None,
        },
        None => None,
    }
}

/// The envelope that `v` encodes, or `None` where `v` does not have the
/// shape of one.
pub open spec fn envelope_of(v: Value) -> Option<EnvelopeView> {
    match json_member(v, "directive"@) {
        Some(d) => match (version_of(d), optional_endpoint_of(d), optional_payload_of(d)) {
            (Some(pv), Some(e), Some(p)) => Some(
                EnvelopeView { payload_version: pv, endpoint: e, payload: p },
            ),
            _ => None,
        },
        None => None,
    }
}

/// Looks up a member, treating `null` as absent.
fn lookup_present<'a>(v: &'a Value, key: &str) -> (res: Option<&'a Value>)
    ensures
        res matches Some(m) ==> present_member(*v, key@) == Some(*m),
        res is None ==> present_member(*v, key@) is None,
{
    match member(v, key) {
        Some(m) => if is_null(m) { None } else { Some(m) },
        None => None,
    }
}

/// Decodes a scope.
pub fn parse_scope(v: &Value) -> (res: Option<Scope>)
    ensures
        scope_view(res) == scope_of(*v),
{
    let ty = match member(v, "type") {
        Some(t) => match as_text(t) {
            Some(s) => String::from_str(s),
            None => { return None; },
        },
        None => { return None; },
    };
    match lookup_present(v, "token") {
        Some(tok) => match as_text(tok) {
            Some(s) => Some(Scope { ty: ty, token: Some(String::from_str(s)) }),
            None => None,
        },
        None => Some(Scope { ty: ty, token: None }),
    }
}

/// Decodes the optional scope under `key`. `Err` stands for a member that is
/// present and is no scope.
fn parse_optional_scope(v: &Value, key: &str) -> (res: Result<Option<Scope>, BridgeError>)
    ensures
        res matches Ok(s) ==> optional_scope_of(*v, key@) == Some(scope_view(s)),
        res matches Err(e) ==> optional_scope_of(*v, key@) is None && e
            == BridgeError::MalformedEnvelope,
{
    match lookup_present(v, key) {
        Some(m) => match parse_scope(m) {
            Some(s) => Ok(Some(s)),
            None => Err(BridgeError::MalformedEnvelope),
        },
        None => Ok(None),
    }
}

/// Decodes a payload.
pub fn parse_payload(v: &Value) -> (res: Option<Payload>)
    ensures
        res matches Some(p) ==> payload_of(*v) == Some(p@),
        res is None ==> payload_of(*v) is None,
{
    if !is_object(v) {
        return None;
    }
    let grantee = match parse_optional_scope(v, "grantee") {
        Ok(g) => g,
        Err(_) => { return None; },
    };
    let scope = match parse_optional_scope(v, "scope") {
        Ok(s) => s,
        Err(_) => { return None; },
    };
    Some(Payload { grantee: grantee, scope: scope })
}

/// Decodes an endpoint.
pub fn parse_endpoint(v: &Value) -> (res: Option<Endpoint>)
    ensures
        res matches Some(e) ==> endpoint_of(*v) == Some(e.scope@),
        res is None ==> endpoint_of(*v) is None,
{
    match member(v, "scope") {
        Some(s) => match parse_scope(s) {
            Some(scope) => Some(Endpoint { scope: scope }),
            None => None,
        },
        None => None,
    }
}

/// Decodes a directive envelope from a JSON value.
///
/// Succeeds exactly on the values that have the shape of an envelope, and
/// then returns the envelope they encode. Every other value is rejected as
/// `MalformedEnvelope`. Members that the envelope does not name are ignored.
pub fn parse_envelope(v: &Value) -> (res: Result<Envelope, BridgeError>)
    ensures
        res matches Ok(e) ==> envelope_of(*v) == Some(e@),
        res matches Err(err) ==> envelope_of(*v) is None && err == BridgeError::MalformedEnvelope,
{
    let d = match member(v, "directive") {
        Some(d) => d,
        None => { return Err(BridgeError::MalformedEnvelope); },
    };
    let h = match member(d, "header") {
        Some(h) => h,
        None => { return Err(BridgeError::MalformedEnvelope); },
    };
    let pv = match member(h, "payloadVersion") {
        Some(pv) => pv,
        None => { return Err(BridgeError::MalformedEnvelope); },
    };
    let version = match as_text(pv) {
        Some(s) => String::from_str(s),
        None => { return Err(BridgeError::MalformedEnvelope); },
    };
    let endpoint = match lookup_present(d, "endpoint") {
        Some(e) => match parse_endpoint(e) {
            Some(ep) => Some(ep),
            None => { return Err(BridgeError::MalformedEnvelope); },
        },
        None => None,
    };
    let payload = match lookup_present(d, "payload") {
        Some(p) => match parse_payload(p) {
            Some(pl) => Some(pl),
            None => { return Err(BridgeError::MalformedEnvelope); },
        },
        None => None,
    };
    Ok(Envelope { payload_version: version, endpoint: endpoint, payload: payload })
}

} // verus!
