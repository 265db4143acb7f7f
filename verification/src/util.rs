//! Stand-ins for backend services, for trying the proxy out.

use crate::config::ServiceConfig;
use vstd::prelude::*;

verus! {

/// How a stand-in service answers. `F` is a function from the path of a
/// request to the body of the response, or to an HTTP status code.
pub enum Handler<F> {
    Simple(F),
}

impl<F: Copy> Handler<F> {
    /// The function that answers.
    pub fn inner(&self) -> (handler: F)
        ensures
            *self == Handler::Simple(handler),
    {
        match self {
            Handler::Simple(handler) => *handler,
        }
    }
}

/// A stand-in service: how it answers, the configuration it would have, and
/// the server that runs it (`()` while it is stopped).
pub struct Service<F, T> {
    pub handler: Handler<F>,
    /// The config the service would have
    pub config: ServiceConfig,
    pub server: T,
}

} // verus!
