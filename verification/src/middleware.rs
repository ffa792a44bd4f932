//! The authentication middleware's data shells. The HTTP framework traits
//! that drive them live outside the library; the decision they delegate to
//! is [`crate::auth::AuthConfig::authenticate`].

use vstd::prelude::*;

use std::rc::Rc;

verus! {

/// Wraps an inner service; requests pass only after authentication.
pub struct AuthenticateMiddleware<S> {
    pub service: Rc<S>,
}

/// Builds an [`AuthenticateMiddleware`] around each service it is asked to
/// transform.
pub struct AuthenticateMiddlewareFactory {}

impl AuthenticateMiddlewareFactory {
    pub fn new() -> (r: AuthenticateMiddlewareFactory)
        ensures
            r == (AuthenticateMiddlewareFactory {  }),
    {
        AuthenticateMiddlewareFactory {}
    }
}

} // verus!
