//! Purchase rates: turning a service quote into a purchase. The request is
//! prepared here; a transport sends it, and the decoded body comes back
//! through the typed reader below.

use vstd::prelude::*;

use crate::client::{FleetbaseClient, HttpMethod, PreparedRequest};
use crate::endpoints::{Endpoint, PurchaseRates};
use crate::json::JsonValue;

verus! {

#[derive(Debug, PartialEq, Eq)]
pub struct PurchaseRateRequest {
    pub service_quote: String,
}

#[derive(Debug, PartialEq, Eq)]
pub struct PurchaseRateResponse {
    pub created_at: String,
    pub customer: String,
    pub id: String,
    pub order: String,
    pub service_quote: String,
    pub status: String,
    pub updated_at: String,
}

/// Prepares the purchase of a service quote: one POST against the
/// purchase-rates collection whose body carries the quote id under
/// `service_quote`.
pub fn create_purchase_rate(client: &FleetbaseClient, service_quote_id: String) -> (r:
    PreparedRequest)
    ensures
        r.method == HttpMethod::Post,
        r.url@ == client.base_url@ + "purchase-rates"@,
        r.authorization@ == client.auth_header_spec(),
        r.query@.len() == 0,
        r.body matches Some(b) && {
            &&& b.entry_spec("service_quote"@) matches Some(JsonValue::Str(s)) && s@
                == service_quote_id@
            &&& forall|k: Seq<char>| k != "service_quote"@ ==> #[trigger] b.entry_spec(k) is None
        },
{
    let mut body = JsonValue::empty_object();
    body.set_entry("service_quote", JsonValue::Str(service_quote_id));
    client.post(&Endpoint::PurchaseRates(PurchaseRates::PurchaseRates), body)
}

/// Reads a decoded purchase-rate body into its typed shape: every field
/// must be present as a string, else nothing is returned.
pub fn purchase_rate_from_json(v: &JsonValue) -> (r: Option<PurchaseRateResponse>)
    ensures
        r is Some <==> {
            &&& v.entry_spec("created_at"@) matches Some(JsonValue::Str(_))
            &&& v.entry_spec("customer"@) matches Some(JsonValue::Str(_))
            &&& v.entry_spec("id"@) matches Some(JsonValue::Str(_))
            &&& v.entry_spec("order"@) matches Some(JsonValue::Str(_))
            &&& v.entry_spec("service_quote"@) matches Some(JsonValue::Str(_))
            &&& v.entry_spec("status"@) matches Some(JsonValue::Str(_))
            &&& v.entry_spec("updated_at"@) matches Some(JsonValue::Str(_))
        },
        r matches Some(p) ==> {
            &&& v.entry_spec("created_at"@) matches Some(JsonValue::Str(s)) && s@
                == p.created_at@
            &&& v.entry_spec("customer"@) matches Some(JsonValue::Str(s)) && s@ == p.customer@
            &&& v.entry_spec("id"@) matches Some(JsonValue::Str(s)) && s@ == p.id@
            &&& v.entry_spec("order"@) matches Some(JsonValue::Str(s)) && s@ == p.order@
            &&& v.entry_spec("service_quote"@) matches Some(JsonValue::Str(s)) && s@
                == p.service_quote@
            &&& v.entry_spec("status"@) matches Some(JsonValue::Str(s)) && s@ == p.status@
            &&& v.entry_spec("updated_at"@) matches Some(JsonValue::Str(s)) && s@
                == p.updated_at@
        },
{
    let created_at = match v.get_str_entry("created_at") {
        Some(s) => s,
        None => {
            return None;
        },
    };
    let customer = match v.get_str_entry("customer") {
        Some(s) => s,
        None => {
            return None;
        },
    };
    let id = match v.get_str_entry("id") {
        Some(s) => s,
        None => {
            return None;
        },
    };
    let order = match v.get_str_entry("order") {
        Some(s) => s,
        None => {
            return None;
        },
    };
    let service_quote = match v.get_str_entry("service_quote") {
        Some(s) => s,
        None => {
            return None;
        },
    };
    let status = match v.get_str_entry("status") {
        Some(s) => s,
        None => {
            return None;
        },
    };
    let updated_at = match v.get_str_entry("updated_at") {
        Some(s) => s,
        None => {
            return None;
        },
    };
    Some(
        PurchaseRateResponse {
            created_at,
            customer,
            id,
            order,
            service_quote,
            status,
            updated_at,
        },
    )
}

} // verus!
