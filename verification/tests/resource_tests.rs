use fleetbase_rs::client::FleetbaseClient;
use fleetbase_rs::json::{JsonEntry, JsonValue};
use fleetbase_rs::resource::Resource;
use fleetbase_rs::FleetbaseError;

fn client() -> FleetbaseClient {
    FleetbaseClient::new_with_base_url("test_token".to_string(), "https://api.example.test/".to_string())
}

fn entry(key: &str, value: JsonValue) -> JsonEntry {
    JsonEntry { key: key.to_string(), value }
}

#[test]
fn resource_from_payload_with_id_round_trips() {
    let attributes = JsonValue::Obj(vec![
        entry("id", JsonValue::Str("X".to_string())),
        entry("name", JsonValue::Str("parcel".to_string())),
    ]);
    let resource = Resource::new(attributes, client(), "order").unwrap();
    assert_eq!(resource.id, "X".to_string());
    assert_eq!(resource.get_string_attribute("id"), Some("X".to_string()));
    assert_eq!(resource.get_string_attribute("name"), Some("parcel".to_string()));
}

#[test]
fn resource_without_id_fails_construction() {
    let attributes = JsonValue::Obj(vec![entry("name", JsonValue::Str("parcel".to_string()))]);
    let result = Resource::new(attributes, client(), "order");
    assert!(matches!(result, Err(FleetbaseError::MissingIdentifier)));
}

#[test]
fn resource_with_non_string_id_fails_construction() {
    let attributes = JsonValue::Obj(vec![entry("id", JsonValue::Int(7))]);
    let result = Resource::new(attributes, client(), "order");
    assert!(matches!(result, Err(FleetbaseError::MissingIdentifier)));
}

#[test]
fn set_then_get_returns_the_stored_value() {
    let attributes = JsonValue::Obj(vec![entry("id", JsonValue::Str("X".to_string()))]);
    let mut resource = Resource::new(attributes, client(), "order").unwrap();
    resource.set_attribute("k", JsonValue::Str("v".to_string()));
    assert_eq!(resource.get_string_attribute("k"), Some("v".to_string()));
    assert_eq!(resource.get_attribute("k"), Some(&JsonValue::Str("v".to_string())));
}

#[test]
fn get_with_mismatched_shape_returns_none_not_an_error() {
    let attributes = JsonValue::Obj(vec![entry("id", JsonValue::Str("X".to_string()))]);
    let mut resource = Resource::new(attributes, client(), "order").unwrap();
    resource.set_attribute("k", JsonValue::Str("v".to_string()));
    assert_eq!(resource.get_bool_attribute("k"), None);
    assert_eq!(resource.get_int_attribute("k"), None);
    resource.set_attribute("n", JsonValue::Int(5));
    assert_eq!(resource.get_int_attribute("n"), Some(5));
    assert_eq!(resource.get_string_attribute("n"), None);
}

#[test]
fn set_overwrites_a_prior_value() {
    let attributes = JsonValue::Obj(vec![entry("id", JsonValue::Str("X".to_string()))]);
    let mut resource = Resource::new(attributes, client(), "order").unwrap();
    resource.set_attribute("k", JsonValue::Str("first".to_string()));
    resource.set_attribute("k", JsonValue::Str("second".to_string()));
    assert_eq!(resource.get_string_attribute("k"), Some("second".to_string()));
}

#[test]
fn absent_key_reads_none() {
    let attributes = JsonValue::Obj(vec![entry("id", JsonValue::Str("X".to_string()))]);
    let resource = Resource::new(attributes, client(), "order").unwrap();
    assert_eq!(resource.get_attribute("missing"), None);
    assert_eq!(resource.get_string_attribute("missing"), None);
}

#[test]
fn identifier_is_immutable_through_set() {
    let attributes = JsonValue::Obj(vec![entry("id", JsonValue::Str("X".to_string()))]);
    let mut resource = Resource::new(attributes, client(), "order").unwrap();
    resource.set_attribute("id", JsonValue::Str("Y".to_string()));
    assert_eq!(resource.id, "X".to_string());
    assert_eq!(resource.get_string_attribute("id"), Some("X".to_string()));
}
