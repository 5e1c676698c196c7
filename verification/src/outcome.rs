//! The four-way outcome of a decoded response, and its reduction to a plain
//! result. The classifier that parses the response body produces exactly one
//! of these four cases; downstream callers depend on the split between the
//! three success codes and everything else.

use vstd::prelude::*;
use crate::error::RequestError;

verus! {

#[verifier::external_type_specification]
#[verifier::external_body]
pub struct ExValue(serde_json::Value);

/// The text that serializing a JSON value (or `null` for its absence)
/// produces. Serialization of such a value is a pure function of the value,
/// so the text can be named without being written out.
pub uninterp spec fn json_text_of(v: Option<serde_json::Value>) -> Seq<char>;

/// Relies on serde_json::to_string: serializing an `Option<Value>` depends on
/// the value alone, and cannot fail (a `Value`'s own serialization never
/// errors, and its maps have string keys), so the unwrap never panics.
#[verifier::external_body]
fn json_to_string(v: &Option<serde_json::Value>) -> (r: String)
    ensures
        r@ == json_text_of(*v),
{
    serde_json::to_string(v).unwrap()
}

/// What the response classifier decoded: a value under one of the three
/// accepted success statuses, or, for every other status, either the decoded
/// body (absent when the body was empty) or the text of the decode failure.
#[derive(Debug)]
pub enum Outcome<T> {
    Okay(T),
    Created(T),
    Accepted(T),
    Other(Result<Option<serde_json::Value>, String>),
}

impl<T> Outcome<T> {
    /// Whether this outcome counts as success for the executor.
    pub open spec fn is_success(&self) -> bool {
        !(self is Other)
    }

    /// Reduce the outcome to a plain result: the three success cases hand
    /// the decoded value back unchanged; an unexpected-but-decodable body
    /// becomes an error carrying its serialized text; a decode failure is
    /// propagated as the error.
    pub fn into_result(self) -> (r: Result<T, RequestError>)
        ensures
            r is Ok <==> self.is_success(),
            match self {
                Outcome::Okay(v) => r == Result::<T, RequestError>::Ok(v),
                Outcome::Created(v) => r == Result::<T, RequestError>::Ok(v),
                Outcome::Accepted(v) => r == Result::<T, RequestError>::Ok(v),
                Outcome::Other(decoded) => match decoded {
                    Ok(value) => (r matches Err(RequestError::UnexpectedStatus(text))
                        && text@ == json_text_of(value)),
                    Err(text) => r == Result::<T, RequestError>::Err(
                        RequestError::Decode(text),
                    ),
                },
            },
    {
        match self {
            Outcome::Okay(value) => Ok(value),
            Outcome::Created(value) => Ok(value),
            Outcome::Accepted(value) => Ok(value),
            Outcome::Other(decoded) => match decoded {
                Ok(value) => Err(RequestError::UnexpectedStatus(json_to_string(&value))),
                Err(text) => Err(RequestError::Decode(text)),
            },
        }
    }
}

} // verus!
