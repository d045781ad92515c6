//! The entry point's state: a handler and the default credential.

use vstd::prelude::*;
use crate::envelope::text_view;

verus! {

/// A handler together with the default credential that every invocation is
/// given. The credential is set at most once, at start, and only read
/// afterwards.
pub struct LambdaService<T> {
    pub f: T,
    pub access_token: Option<String>,
}

impl<T> LambdaService<T> {
    /// A service around `f` with no default credential.
    pub fn new(f: T) -> (res: Self)
        ensures
            res.f == f,
            res.access_token is None,
    {
        Self { f: f, access_token: None }
    }

    /// Configures the default credential. The handler is left as it is.
    pub fn set_access_token(&mut self, token: String)
        ensures
            final(self).access_token == Some(token),
            final(self).f == old(self).f,
    {
        self.access_token = Some(token);
    }

    /// A copy of the default credential, to hand to one invocation.
    pub fn access_token(&self) -> (res: Option<String>)
        ensures
            text_view(res) == text_view(self.access_token),
    {
        match &self.access_token {
            Some(t) => Some(t.clone()),
            None => None,
        }
    }

    /// Whether the service accepts a new invocation: always.
    pub fn is_ready(&self) -> (res: bool)
        ensures
            res,
    {
        true
    }
}

} // verus!
