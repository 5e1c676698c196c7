//! The errors the request executor can surface. Every failure is returned to
//! the immediate caller; nothing is retried and nothing is recovered.

use vstd::prelude::*;
use vstd::string::StringExecFns;

verus! {

/// Why a request did not produce a decoded value.
///
/// `UnsupportedMethod` is raised locally, before any transport call, and
/// carries the offending verb's name. `Transport` carries the transport
/// failure's text. `Decode` carries the text of a response body that did not
/// match the expected schema. `UnexpectedStatus` carries the serialized form
/// of a response that decoded, but under a status outside the accepted
/// success codes.
#[derive(Debug, Clone, PartialEq, Eq)]
pub enum RequestError {
    UnsupportedMethod(String),
    Transport(String),
    Decode(String),
    UnexpectedStatus(String),
}

impl RequestError {
    /// The human-readable message that describes this error.
    pub open spec fn message_spec(&self) -> Seq<char> {
        match self {
            RequestError::UnsupportedMethod(name) => "Invalid method: "@ + name@,
            RequestError::Transport(text) => text@,
            RequestError::Decode(text) => text@,
            RequestError::UnexpectedStatus(text) => text@,
        }
    }

    pub fn message(&self) -> (r: String)
        ensures
            r@ == self.message_spec(),
    {
        match self {
            RequestError::UnsupportedMethod(name) => {
                "Invalid method: ".to_owned().concat(name.as_str())
            },
            RequestError::Transport(text) => text.clone(),
            RequestError::Decode(text) => text.clone(),
            RequestError::UnexpectedStatus(text) => text.clone(),
        }
    }
}

} // verus!
