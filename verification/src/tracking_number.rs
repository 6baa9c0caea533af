//! Tracking-number payload shapes.

use vstd::prelude::*;

verus! {

#[derive(Debug, PartialEq, Eq)]
pub struct TrackingNumber {
    pub created_at: String,
    pub id: String,
    pub latitude: Option<String>,
    pub longitude: Option<String>,
    pub name: String,
    pub status: String,
    pub type_: String,
    pub updated_at: String,
}

#[derive(Debug, PartialEq, Eq)]
pub struct TrackingNumberRequest {
    pub owner: String,
    pub region: String,
}

} // verus!
