//! The client configuration and the executor's pre-transport step: checking
//! the verb and building the full target address.

use vstd::prelude::*;
use vstd::string::StringExecFns;
use crate::error::RequestError;
use crate::request::ApiRequest;
use crate::request::Method;
use crate::request::PlannedCall;

verus! {

/// What the executor needs to know about the endpoint: the base address that
/// every request path is appended to. The transport handle that performs the
/// calls lives with the surrounding application; the executor never mutates
/// the configuration.
#[derive(Debug, Clone, PartialEq, Eq)]
pub struct Configuration {
    pub base_path: String,
}

/// A client bound to one configuration. It performs the executor's decision
/// steps: accepting a request and building the exact call for the transport
/// to make. The configuration is never mutated; one client serves any number
/// of independent requests.
pub struct APIClient {
    configuration: Configuration,
}

impl APIClient {
    /// The configuration this client was built with.
    pub closed spec fn spec_config(&self) -> Configuration {
        self.configuration
    }

    pub fn new(configuration: Configuration) -> (r: Self)
        ensures
            r.spec_config() == configuration,
    {
        APIClient { configuration }
    }

    /// Accept or reject a request before any transport work: a supported
    /// verb yields a planned call whose address is the base address with the
    /// request's path appended verbatim and whose body is the request's body
    /// unchanged; any other verb fails locally with an unsupported-method
    /// error carrying that verb's name.
    pub fn plan_request(&self, request: ApiRequest) -> (r: Result<PlannedCall, RequestError>)
        ensures
            r is Ok <==> request.method.is_supported(),
            r matches Ok(call) ==> {
                &&& call.wf()
                &&& call.method == request.method
                &&& call.address@ == self.spec_config().base_path@ + request.path@
                &&& call.body@ == request.body@
            },
            r matches Err(e) ==> (e matches RequestError::UnsupportedMethod(name)
                && name@ == request.method.name_spec()),
    {
        let ApiRequest { method, path, body } = request;
        if !method.supported() {
            return Err(RequestError::UnsupportedMethod(method.name()));
        }
        let address = self.configuration.base_path.clone().concat(path.as_str());
        Ok(PlannedCall { method, address, body })
    }
}

} // verus!
