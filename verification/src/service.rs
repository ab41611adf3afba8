//! The authentication manager that wraps a service, and the first decision
//! it makes on a request.
use vstd::prelude::*;

verus! {

/// The HTTP status "500 Internal Server Error".
pub const INTERNAL_SERVER_ERROR: u16 = 500;

/// A service wrapped with an authentication back end, and the key under
/// which the session stores the authenticated user.
#[derive(Debug, Clone)]
pub struct AuthManager<S, Backend> {
    inner: S,
    backend: Backend,
    data_key: &'static str,
}

impl<S, Backend> AuthManager<S, Backend> {
    /// The wrapped service.
    pub closed spec fn service(&self) -> S {
        self.inner
    }

    /// The authentication back end.
    pub closed spec fn auth_backend(&self) -> Backend {
        self.backend
    }

    /// The key of the session data that holds the user.
    pub closed spec fn session_key(&self) -> &'static str {
        self.data_key
    }

    /// Wraps `inner` with `backend`, keeping the user under `data_key`.
    pub fn new(inner: S, backend: Backend, data_key: &'static str) -> (m: Self)
        ensures
            m.service() == inner,
            m.auth_backend() == backend,
            m.session_key() == data_key,
    {
        AuthManager { inner, backend, data_key }
    }

    /// The wrapped service, to be polled or called.
    pub fn get_mut(&mut self) -> (r: &mut S)
        ensures
            *r == old(self).service(),
            final(self).service() == *final(r),
            final(self).auth_backend() == old(self).auth_backend(),
            final(self).session_key() == old(self).session_key(),
    {
        &mut self.inner
    }

    /// The authentication back end.
    pub fn backend(&self) -> (b: &Backend)
        ensures
            *b == self.auth_backend(),
    {
        &self.backend
    }

    /// The key of the session data that holds the user.
    pub fn data_key(&self) -> (k: &'static str)
        ensures
            k == self.session_key(),
    {
        self.data_key
    }
}

/// What the manager does with a request: go on with it, or answer at once
/// with an empty response of the given HTTP status.
#[derive(Debug, Clone, Copy, PartialEq, Eq, Structural)]
pub enum RequestGate {
    Proceed,
    Respond(u16),
}

/// The manager needs the request's session: a request without one is
/// answered with "500 Internal Server Error"; any other goes on.
pub fn gate_request(has_session: bool) -> (g: RequestGate)
    ensures
        !has_session ==> g == RequestGate::Respond(INTERNAL_SERVER_ERROR),
        has_session ==> g == RequestGate::Proceed,
{
    if has_session {
        RequestGate::Proceed
    } else {
        RequestGate::Respond(INTERNAL_SERVER_ERROR)
    }
}

} // verus!
