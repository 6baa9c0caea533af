use fleetbase_rs::client::{interpret_response, FleetbaseClient, HttpMethod};
use fleetbase_rs::endpoints::{Endpoint, Orders, ServiceQuotes};
use fleetbase_rs::json::{JsonEntry, JsonValue};
use fleetbase_rs::FleetbaseError;

fn client() -> FleetbaseClient {
    FleetbaseClient::new_with_base_url("test_token".to_string(), "https://api.example.test/".to_string())
}

fn message(text: &str) -> JsonValue {
    JsonValue::Obj(vec![JsonEntry {
        key: "message".to_string(),
        value: JsonValue::Str(text.to_string()),
    }])
}

#[test]
fn get_prepares_an_authenticated_request() {
    let request = client().get(&Endpoint::ServiceQuotes(ServiceQuotes::ServiceQuotes));
    assert_eq!(request.method, HttpMethod::Get);
    assert_eq!(request.url, "https://api.example.test/service-quotes".to_string());
    assert_eq!(request.authorization, "Bearer test_token".to_string());
    assert!(request.body.is_none());
}

#[test]
fn post_carries_the_body() {
    let body = message("Created");
    let request = client().post(&Endpoint::Orders(Orders::Orders), body);
    assert_eq!(request.method, HttpMethod::Post);
    assert_eq!(request.url, "https://api.example.test/orders".to_string());
    assert_eq!(request.authorization, "Bearer test_token".to_string());
    assert_eq!(request.body, Some(message("Created")));
}

#[test]
fn put_and_delete_address_the_member_path() {
    let put = client().put(
        &Endpoint::Orders(Orders::OrdersById("123".to_string())),
        message("Updated"),
    );
    assert_eq!(put.method, HttpMethod::Put);
    assert_eq!(put.url, "https://api.example.test/orders/123".to_string());

    let delete = client().delete(&Endpoint::Orders(Orders::OrdersById("123".to_string())));
    assert_eq!(delete.method, HttpMethod::Delete);
    assert_eq!(delete.url, "https://api.example.test/orders/123".to_string());
    assert!(delete.body.is_none());
}

#[test]
fn success_status_with_decoded_body_passes_through() {
    let outcome = interpret_response(200, Some(message("Success")));
    assert_eq!(outcome, Ok(message("Success")));
}

#[test]
fn error_status_is_a_hard_failure_even_with_a_body() {
    let error_body = JsonValue::Obj(vec![JsonEntry {
        key: "error".to_string(),
        value: JsonValue::Str("Not Found".to_string()),
    }]);
    let outcome = interpret_response(404, Some(error_body));
    assert_eq!(outcome, Err(FleetbaseError::HttpStatusError(404)));
}

#[test]
fn success_status_without_decodable_body_is_a_decode_error() {
    let outcome = interpret_response(200, None);
    assert_eq!(outcome, Err(FleetbaseError::DecodeError));
}

#[test]
fn created_status_counts_as_success() {
    let outcome = interpret_response(201, Some(message("Created")));
    assert_eq!(outcome, Ok(message("Created")));
}
