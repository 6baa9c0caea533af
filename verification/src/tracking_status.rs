//! The tracking-status payload shape; the location rides as raw JSON
//! values for flexibility.

use vstd::prelude::*;

use crate::json::JsonValue;

verus! {

#[derive(Debug, PartialEq, Eq)]
pub struct TrackingStatus {
    pub city: String,
    pub code: String,
    pub country: String,
    pub created_at: String,
    pub details: String,
    pub id: String,
    pub location: Vec<JsonValue>,
    pub postal_code: String,
    pub province: String,
    pub status: String,
    pub tracking_number: String,
    pub updated_at: String,
}

} // verus!
