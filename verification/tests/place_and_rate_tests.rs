use fleetbase_rs::client::{FleetbaseClient, HttpMethod};
use fleetbase_rs::json::{JsonEntry, JsonValue};
use fleetbase_rs::place::PlaceResource;
use fleetbase_rs::purchase_rate::{create_purchase_rate, purchase_rate_from_json};

fn client() -> FleetbaseClient {
    FleetbaseClient::new_with_base_url("test_token".to_string(), "https://api.example.test/".to_string())
}

fn entry(key: &str, value: JsonValue) -> JsonEntry {
    JsonEntry { key: key.to_string(), value }
}

fn place() -> PlaceResource {
    let attributes = JsonValue::Obj(vec![entry("id", JsonValue::Str("p1".to_string()))]);
    PlaceResource::new(attributes, client(), None).unwrap()
}

#[test]
fn bare_owner_ids_are_stored_verbatim() {
    let mut place = place();
    place.set_owner("contact_1");
    assert_eq!(
        place.resource.get_string_attribute("owner"),
        Some("contact_1".to_string())
    );
}

#[test]
fn resource_shaped_owners_are_reduced_to_their_id() {
    let mut place = place();
    place.set_owner("{\"id\":\"contact_2\",\"name\":\"Ann\"}");
    assert_eq!(
        place.resource.get_string_attribute("owner"),
        Some("contact_2".to_string())
    );
}

#[test]
fn unparseable_resource_shaped_owners_change_nothing() {
    let mut place = place();
    place.set_owner("{broken");
    assert_eq!(
        place.resource.get_string_attribute("owner"),
        Some("{broken".to_string())
    );
    let mut second = place;
    second.set_owner("{really broken}");
    assert_eq!(
        second.resource.get_string_attribute("owner"),
        Some("{broken".to_string())
    );
}

#[test]
fn purchase_rate_requests_post_the_quote_id() {
    let request = create_purchase_rate(&client(), "quote_7".to_string());
    assert_eq!(request.method, HttpMethod::Post);
    assert_eq!(request.url, "https://api.example.test/purchase-rates".to_string());
    assert_eq!(request.authorization, "Bearer test_token".to_string());
    let body = request.body.unwrap();
    assert_eq!(body.get_str_entry("service_quote"), Some("quote_7".to_string()));
}

#[test]
fn purchase_rate_bodies_decode_when_complete() {
    let body = JsonValue::Obj(vec![
        entry("created_at", JsonValue::Str("2024-01-01T00:00:00Z".to_string())),
        entry("customer", JsonValue::Str("c1".to_string())),
        entry("id", JsonValue::Str("pr1".to_string())),
        entry("order", JsonValue::Str("o1".to_string())),
        entry("service_quote", JsonValue::Str("q1".to_string())),
        entry("status", JsonValue::Str("created".to_string())),
        entry("updated_at", JsonValue::Str("2024-01-01T00:00:00Z".to_string())),
    ]);
    let decoded = purchase_rate_from_json(&body).unwrap();
    assert_eq!(decoded.id, "pr1".to_string());
    assert_eq!(decoded.order, "o1".to_string());
    assert_eq!(decoded.service_quote, "q1".to_string());
    assert_eq!(decoded.status, "created".to_string());
}

#[test]
fn incomplete_purchase_rate_bodies_do_not_decode() {
    let body = JsonValue::Obj(vec![entry("id", JsonValue::Str("pr1".to_string()))]);
    assert!(purchase_rate_from_json(&body).is_none());
}
