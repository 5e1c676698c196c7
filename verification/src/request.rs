//! The request description handed to the executor, and the planned call that
//! the executor derives from it before any transport work happens.

use vstd::prelude::*;

verus! {

/// An HTTP verb. The executor supports `Get`, `Post`, `Put` and `Delete`;
/// every other verb is carried as `Other` with its name and is rejected
/// before any transport call is made.
#[derive(Debug, Clone, PartialEq, Eq)]
pub enum Method {
    Get,
    Post,
    Put,
    Delete,
    Other(String),
}

impl Method {
    /// The verbs the executor dispatches on.
    pub open spec fn is_supported(&self) -> bool {
        !(self is Other)
    }

    /// The verb's name, as it appears on the wire and in error messages.
    pub open spec fn name_spec(&self) -> Seq<char> {
        match self {
            Method::Get => "GET"@,
            Method::Post => "POST"@,
            Method::Put => "PUT"@,
            Method::Delete => "DELETE"@,
            Method::Other(name) => name@,
        }
    }

    pub fn supported(&self) -> (b: bool)
        ensures
            b == self.is_supported(),
    {
        match self {
            Method::Other(_) => false,
            _ => true,
        }
    }

    pub fn name(&self) -> (r: String)
        ensures
            r@ == self.name_spec(),
    {
        match self {
            Method::Get => "GET".to_owned(),
            Method::Post => "POST".to_owned(),
            Method::Put => "PUT".to_owned(),
            Method::Delete => "DELETE".to_owned(),
            Method::Other(name) => name.clone(),
        }
    }
}

/// One request to execute: a verb, a path to append to the configured base
/// address, and the raw body bytes to attach.
#[derive(Debug, Clone, PartialEq, Eq)]
pub struct ApiRequest {
    pub method: Method,
    pub path: String,
    pub body: Vec<u8>,
}

/// A request the executor has accepted: the verb is supported and the full
/// target address has been built. The surrounding application performs the
/// transport call it describes.
#[derive(Debug, Clone, PartialEq, Eq)]
pub struct PlannedCall {
    pub method: Method,
    pub address: String,
    pub body: Vec<u8>,
}

impl PlannedCall {
    /// A planned call only ever carries a supported verb.
    pub open spec fn wf(&self) -> bool {
        self.method.is_supported()
    }
}

} // verus!
