//! Query parameters for requesting service quotes.

use vstd::prelude::*;

verus! {

#[derive(Debug, PartialEq, Eq)]
pub struct ServiceQuoteQueryParams {
    pub payload: Option<String>,
    pub service_type_: Option<String>,
    pub pickup: Option<String>,
    pub dropoff: Option<String>,
}

} // verus!
