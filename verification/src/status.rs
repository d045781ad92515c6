//! Classification of the controller's HTTP status codes.

use vstd::prelude::*;

verus! {

/// The error vocabulary of the directive protocol, as far as the bridge
/// produces it.
#[derive(Debug, Clone, Copy, PartialEq, Eq, Structural)]
pub enum ErrorType {
    /// The controller refused the credential.
    InvalidAuthorizationCredential,
    /// Any other unsuccessful answer.
    InternalError,
}

impl ErrorType {
    /// The name of the error type as the protocol spells it.
    pub open spec fn spec_name(&self) -> Seq<char> {
        match self {
            ErrorType::InvalidAuthorizationCredential => "INVALID_AUTHORIZATION_CREDENTIAL"@,
            ErrorType::InternalError => "INTERNAL_ERROR"@,
        }
    }

    /// The name of the error type as the protocol spells it.
    pub fn name(&self) -> (res: &'static str)
        ensures
            res@ == self.spec_name(),
    {
        match self {
            ErrorType::InvalidAuthorizationCredential => "INVALID_AUTHORIZATION_CREDENTIAL",
            ErrorType::InternalError => "INTERNAL_ERROR",
        }
    }
}

/// Whether `status` is one of the success codes whose body is passed
/// through: 200 OK up to 208 Already Reported.
pub open spec fn passes_through(status: u16) -> bool {
    200 <= status <= 208
}

/// The error type that `status` stands for, or `None` for a status whose
/// body is passed through. Defined on every status code.
pub open spec fn classification(status: u16) -> Option<ErrorType> {
    if passes_through(status) {
        None
    } else if status == 401 || status == 403 {
        Some(ErrorType::InvalidAuthorizationCredential)
    } else {
        Some(ErrorType::InternalError)
    }
}

/// Maps an HTTP status code to "pass through" (`None`) or to an error type.
pub fn classify_status(status: u16) -> (res: Option<ErrorType>)
    ensures
        res == classification(status),
{
    match status {
        200 | 201 | 202 | 203 | 204 | 205 | 206 | 207 | 208 => None,
        401 | 403 => Some(ErrorType::InvalidAuthorizationCredential),
        _ => Some(ErrorType::InternalError),
    }
}

/// Every status code is classified, and in exactly one way: it passes
/// through, or it carries one of the two error types.
pub proof fn lemma_classification_total(status: u16)
    ensures
        classification(status) is None <==> passes_through(status),
        classification(status) == Some(ErrorType::InvalidAuthorizationCredential) <==> (status
            == 401 || status == 403),
        classification(status) == Some(ErrorType::InternalError) <==> (!passes_through(status)
            && status != 401 && status != 403),
{
}

} // verus!
