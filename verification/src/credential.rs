//! Resolution of the bearer credential of a directive.

use vstd::prelude::*;
use vstd::string::StringExecFns;
use crate::envelope::{text_view, Envelope, EnvelopeView, Scope, ScopeView};
use crate::error::BridgeError;

verus! {

/// The scope that authorizes the envelope: the first that is present among
/// the endpoint's scope, the payload's grantee and the payload's scope.
pub open spec fn chosen_scope(e: EnvelopeView) -> Option<ScopeView> {
    match e.endpoint {
        Some(s) => Some(s),
        None => match e.payload {
            Some(p) => match p.grantee {
                Some(g) => Some(g),
                None => p.scope,
            },
            None => None,
        },
    }
}

/// The credential of the envelope, given the fallback credential: the chosen
/// scope's own token, else the fallback.
pub open spec fn credential_of(e: EnvelopeView, fallback: Option<Seq<char>>) -> Result<
    Seq<char>,
    BridgeError,
> {
    match chosen_scope(e) {
        None => Err(BridgeError::MissingScope),
        Some(s) => if s.ty != "BearerToken"@ {
            Err(BridgeError::UnsupportedScopeType)
        } else {
            match s.token {
                Some(t) => Ok(t),
                None => match fallback {
                    Some(f) => Ok(f),
                    None => Err(BridgeError::MissingCredential),
                },
            }
        },
    }
}

/// Whether the text or failure `res` is the one that the model gives as
/// `expected`.
pub open spec fn text_result_is(
    res: Result<String, BridgeError>,
    expected: Result<Seq<char>, BridgeError>,
) -> bool {
    match expected {
        Ok(t) => res matches Ok(r) && r@ == t,
        Err(e) => res == Err::<String, BridgeError>(e),
    }
}

/// Picks the scope that authorizes the envelope.
pub fn select_scope(e: &Envelope) -> (res: Option<&Scope>)
    ensures
        res matches Some(s) ==> chosen_scope(e@) == Some(s@),
        res is None ==> chosen_scope(e@) is None,
{
    match &e.endpoint {
        Some(ep) => Some(&ep.scope),
        None => match &e.payload {
            Some(p) => match &p.grantee {
                Some(g) => Some(g),
                None => match &p.scope {
                    Some(s) => Some(s),
                    None => None,
                },
            },
            None => None,
        },
    }
}

/// Resolves the bearer credential of an envelope.
///
/// Only the chosen scope is looked at: a scope of another type is an error
/// even where a later place holds a bearer token scope.
pub fn resolve_credential(e: &Envelope, fallback: &Option<String>) -> (res: Result<
    String,
    BridgeError,
>)
    ensures
        text_result_is(res, credential_of(e@, text_view(*fallback))),
{
    let scope = match select_scope(e) {
        Some(s) => s,
        None => { return Err(BridgeError::MissingScope); },
    };
    let bearer = String::from_str("BearerToken");
    if !(scope.ty == bearer) {
        return Err(BridgeError::UnsupportedScopeType);
    }
    match &scope.token {
        Some(t) => Ok(t.clone()),
        None => match fallback {
            Some(f) => Ok(f.clone()),
            None => Err(BridgeError::MissingCredential),
        },
    }
}

/// Where several places hold a scope, only the first in the order endpoint,
/// grantee, payload scope decides: two envelopes that agree on the first
/// place that is filled resolve alike, whatever the later places hold, and
/// also where that first scope is of an unsupported type.
pub proof fn lemma_first_scope_decides(a: EnvelopeView, b: EnvelopeView, fallback: Option<Seq<char>>)
    requires
        (a.endpoint is Some && a.endpoint == b.endpoint) || (a.endpoint is None && b.endpoint
            is None && a.payload is Some && b.payload is Some && a.payload->0.grantee is Some
            && a.payload->0.grantee == b.payload->0.grantee),
    ensures
        chosen_scope(a) == chosen_scope(b),
        credential_of(a, fallback) == credential_of(b, fallback),
        a.endpoint is Some ==> chosen_scope(a) == a.endpoint,
        a.endpoint is None ==> chosen_scope(a) == a.payload->0.grantee,
{
}

/// A bearer token scope without a token of its own resolves to the fallback
/// credential.
pub proof fn lemma_fallback_used(e: EnvelopeView, fallback: Seq<char>)
    requires
        chosen_scope(e) matches Some(s) && s.ty == "BearerToken"@ && s.token is None,
    ensures
        credential_of(e, Some(fallback)) == Ok::<Seq<char>, BridgeError>(fallback),
{
}

/// A bearer token scope with a token of its own resolves to that token,
/// whether or not a fallback credential is configured.
pub proof fn lemma_explicit_token_wins(e: EnvelopeView, token: Seq<char>, fallback: Option<Seq<char>>)
    requires
        chosen_scope(e) matches Some(s) && s.ty == "BearerToken"@ && s.token == Some(token),
    ensures
        credential_of(e, fallback) == Ok::<Seq<char>, BridgeError>(token),
{
}

} // verus!
