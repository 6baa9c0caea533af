use vstd::prelude::*;

pub mod client;
pub mod contact;
pub mod driver;
pub mod endpoints;
pub mod entity;
pub mod helpers;
pub mod json;
pub mod order;
pub mod organization;
pub mod place;
pub mod purchase_rate;
pub mod resource;
pub mod service_area;
pub mod service_quote;
pub mod tracking_number;
pub mod tracking_status;
pub mod trusted;
pub mod vendor;
pub mod zone;

pub use driver::Driver;
pub use organization::Organization;
pub use resource::Resource;

verus! {

/// The error taxonomy of the client library.
///
/// `MissingIdentifier` and `MissingCredential` arise while building a request
/// or a resource; the remaining variants classify a finished HTTP exchange.
#[derive(Debug, Clone, PartialEq, Eq)]
pub enum FleetbaseError {
    /// A resource payload carried no `"id"` string field.
    MissingIdentifier,
    /// A login was attempted with neither a phone-shaped identity nor a password.
    MissingCredential,
    /// The request never produced a response (DNS, connect or TLS failure).
    TransportError,
    /// The request exceeded the fixed per-request ceiling.
    Timeout,
    /// The response carried a non-success status code.
    HttpStatusError(u16),
    /// The response body was not valid JSON.
    DecodeError,
}

impl FleetbaseError {
    /// A short diagnostic label for the error, usable by callers that print.
    pub fn label(&self) -> (r: &'static str)
        ensures
            r@ == self.label_spec(),
    {
        match self {
            FleetbaseError::MissingIdentifier => "missing identifier",
            FleetbaseError::MissingCredential => "missing credential",
            FleetbaseError::TransportError => "transport error",
            FleetbaseError::Timeout => "timeout",
            FleetbaseError::HttpStatusError(_) => "http status error",
            FleetbaseError::DecodeError => "decode error",
        }
    }

    pub open spec fn label_spec(self) -> Seq<char> {
        match self {
            FleetbaseError::MissingIdentifier => "missing identifier"@,
            FleetbaseError::MissingCredential => "missing credential"@,
            FleetbaseError::TransportError => "transport error"@,
            FleetbaseError::Timeout => "timeout"@,
            FleetbaseError::HttpStatusError(_) => "http status error"@,
            FleetbaseError::DecodeError => "decode error"@,
        }
    }
}

} // verus!
