use fleetbase_rs::client::{FleetbaseClient, HttpMethod};
use fleetbase_rs::json::{JsonEntry, JsonValue};
use fleetbase_rs::order::Order;

fn client() -> FleetbaseClient {
    FleetbaseClient::new_with_base_url("test_token".to_string(), "https://api.example.test/".to_string())
}

fn entry(key: &str, value: JsonValue) -> JsonEntry {
    JsonEntry { key: key.to_string(), value }
}

fn order_with(attributes: Vec<JsonEntry>) -> Order {
    let mut all = vec![entry("id", JsonValue::Str("o1".to_string()))];
    all.extend(attributes);
    Order::new(JsonValue::Obj(all), client()).unwrap()
}

#[test]
fn completed_orders_are_never_in_progress() {
    let order = order_with(vec![
        entry("status", JsonValue::Str("completed".to_string())),
        entry("started_at", JsonValue::Str("2012-12-12T12:12:12Z".to_string())),
        entry("dispatched_at", JsonValue::Str("2012-12-12T10:00:00Z".to_string())),
    ]);
    assert!(order.is_completed());
    assert!(!order.is_in_progress());
}

#[test]
fn started_uncanceled_orders_are_in_progress() {
    let order = order_with(vec![
        entry("status", JsonValue::Str("driver_enroute".to_string())),
        entry("started_at", JsonValue::Str("2012-12-12T12:12:12Z".to_string())),
    ]);
    assert!(order.is_started());
    assert!(order.is_in_progress());
    assert!(order.is_enroute());
    assert!(!order.is_completed());
    assert!(!order.is_canceled());
}

#[test]
fn enroute_matches_both_status_spellings() {
    let legacy = order_with(vec![entry("status", JsonValue::Str("driver_enroute".to_string()))]);
    let current = order_with(vec![entry("status", JsonValue::Str("enroute".to_string()))]);
    let other = order_with(vec![entry("status", JsonValue::Str("created".to_string()))]);
    assert!(legacy.is_enroute());
    assert!(current.is_enroute());
    assert!(!other.is_enroute());
}

#[test]
fn dispatch_predicates_read_attribute_presence() {
    let dispatched = order_with(vec![entry(
        "dispatched_at",
        JsonValue::Str("2012-12-12T10:00:00Z".to_string()),
    )]);
    assert!(dispatched.is_dispatched());
    assert!(!dispatched.is_not_dispatched());
    assert!(dispatched.is_not_started());

    let fresh = order_with(Vec::new());
    assert!(fresh.is_not_dispatched());
    assert!(fresh.is_not_started());
    assert!(!fresh.is_in_progress());
}

#[test]
fn timestamps_parse_to_unix_seconds() {
    let order = order_with(vec![
        entry("scheduled_at", JsonValue::Str("2012-12-12T12:12:12Z".to_string())),
        entry("started_at", JsonValue::Str("not a date".to_string())),
    ]);
    assert_eq!(order.scheduled_at(), Some(1355314332));
    assert_eq!(order.started_at(), None);
    assert_eq!(order.dispatched_at(), None);
}

#[test]
fn status_reads_the_stored_string() {
    let order = order_with(vec![entry("status", JsonValue::Str("canceled".to_string()))]);
    assert_eq!(order.status(), Some("canceled".to_string()));
    assert!(order.is_canceled());

    let untagged = order_with(Vec::new());
    assert_eq!(untagged.status(), None);
}

#[test]
fn order_actions_build_sub_resource_paths() {
    let order = order_with(Vec::new());

    let dispatch = order.dispatch(Vec::new(), Vec::new());
    assert_eq!(dispatch.method, HttpMethod::Post);
    assert_eq!(dispatch.url, "https://api.example.test/orders/o1/dispatch".to_string());

    let cancel = order.cancel(Vec::new(), Vec::new());
    assert_eq!(cancel.method, HttpMethod::Delete);
    assert_eq!(cancel.url, "https://api.example.test/orders/o1/cancel".to_string());
    assert!(cancel.body.is_some());

    let distance = order.get_distance_and_time(Vec::new(), Vec::new());
    assert_eq!(distance.method, HttpMethod::Get);
    assert_eq!(
        distance.url,
        "https://api.example.test/orders/o1/distance-and-time".to_string()
    );

    let complete = order.complete(Vec::new(), Vec::new());
    assert_eq!(complete.url, "https://api.example.test/orders/o1/complete".to_string());
}

#[test]
fn set_destination_reduces_resource_shaped_subjects() {
    let order = order_with(Vec::new());

    let bare = order.set_destination("waypoint1", Vec::new(), Vec::new());
    assert_eq!(
        bare.url,
        "https://api.example.test/orders/o1/set-destination/waypoint1".to_string()
    );

    let nested = order.set_destination("{\"id\":\"place_9\"}", Vec::new(), Vec::new());
    assert_eq!(
        nested.url,
        "https://api.example.test/orders/o1/set-destination/place_9".to_string()
    );
}

#[test]
fn capture_paths_include_the_subject_only_when_given() {
    let order = order_with(Vec::new());

    let anonymous = order.capture_qr_code(None, Vec::new(), Vec::new());
    assert_eq!(
        anonymous.url,
        "https://api.example.test/orders/o1/capture-qr".to_string()
    );

    let with_subject = order.capture_signature(Some("e7"), Vec::new(), Vec::new());
    assert_eq!(
        with_subject.url,
        "https://api.example.test/orders/o1/capture-signature/e7".to_string()
    );
}

#[test]
fn order_body_params_ride_as_a_json_object() {
    let order = order_with(Vec::new());
    let params = vec![("note".to_string(), "fragile".to_string())];
    let start = order.start(params, Vec::new());
    let body = start.body.unwrap();
    assert_eq!(body.get_str_entry("note"), Some("fragile".to_string()));
}
