//! A minimal, verified core for a Kubernetes-style HTTP API client.
//!
//! The library contains the decision logic of a request executor: validating
//! the HTTP verb, building the full target address from a configured base
//! address and a request path, and reducing a four-way response outcome to a
//! plain result. The transport itself (sending the request and buffering the
//! response body) is left to the surrounding application.

pub mod client;
pub mod error;
pub mod outcome;
pub mod request;

pub use client::APIClient;
pub use client::Configuration;
pub use error::RequestError;
pub use outcome::Outcome;
pub use request::ApiRequest;
pub use request::Method;
pub use request::PlannedCall;
