//! The ways in which one invocation of the bridge can fail.

use vstd::prelude::*;

verus! {

/// A failure that ends an invocation. None of these is retried, and none is
/// turned into a response envelope: an unsuccessful answer of the controller
/// is a successful result of the bridge and is no `BridgeError`.
#[derive(Debug, Clone, Copy, PartialEq, Eq, Structural)]
pub enum BridgeError {
    /// The input does not have the shape of a directive envelope.
    MalformedEnvelope,
    /// The envelope's payload version is not the supported one.
    UnsupportedVersion,
    /// None of the three places for an authorization scope is filled.
    MissingScope,
    /// The chosen scope is not a bearer token scope.
    UnsupportedScopeType,
    /// The chosen scope carries no token and no fallback is configured.
    MissingCredential,
    /// The credential cannot be sent in an HTTP header.
    InvalidCredential,
    /// The envelope could not be written out as the request body.
    RequestEncodeError,
    /// The controller's answer is not a JSON document.
    ResponseDecodeError,
}

impl BridgeError {
    /// A short description of the failure.
    pub fn message(&self) -> (res: &'static str)
        ensures
            res@ == self.spec_message(),
    {
        match self {
            BridgeError::MalformedEnvelope => "failed to parse event payload",
            BridgeError::UnsupportedVersion => "only payload version 3 is supported",
            BridgeError::MissingScope => "missing authorization scope",
            BridgeError::UnsupportedScopeType => "only BearerToken is supported",
            BridgeError::MissingCredential => "access token missing",
            BridgeError::InvalidCredential => "failed to create auth header",
            BridgeError::RequestEncodeError => "failed to serialize event payload",
            BridgeError::ResponseDecodeError => "failed to parse response message",
        }
    }

    /// The text that [`BridgeError::message`] returns.
    pub open spec fn spec_message(&self) -> Seq<char> {
        match self {
            BridgeError::MalformedEnvelope => "failed to parse event payload"@,
            BridgeError::UnsupportedVersion => "only payload version 3 is supported"@,
            BridgeError::MissingScope => "missing authorization scope"@,
            BridgeError::UnsupportedScopeType => "only BearerToken is supported"@,
            BridgeError::MissingCredential => "access token missing"@,
            BridgeError::InvalidCredential => "failed to create auth header"@,
            BridgeError::RequestEncodeError => "failed to serialize event payload"@,
            BridgeError::ResponseDecodeError => "failed to parse response message"@,
        }
    }
}

} // verus!
