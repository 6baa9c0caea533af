use fleetbase_rs::client::{FleetbaseClient, HttpMethod};
use fleetbase_rs::driver::{serialize_organizations, Driver, DriverActions};
use fleetbase_rs::helpers::{contains_substring, extract_subject_id, is_phone};
use fleetbase_rs::json::{JsonEntry, JsonValue};
use fleetbase_rs::FleetbaseError;

fn client() -> FleetbaseClient {
    FleetbaseClient::new_with_base_url("test_token".to_string(), "https://api.example.test/".to_string())
}

fn actions() -> DriverActions {
    DriverActions { adapter: client() }
}

fn with_id(id: &str) -> JsonValue {
    JsonValue::Obj(vec![JsonEntry {
        key: "id".to_string(),
        value: JsonValue::Str(id.to_string()),
    }])
}

#[test]
fn phone_shaped_identities_are_recognized() {
    assert!(is_phone("+1 555-123"));
    assert!(is_phone("123 456 789"));
    assert!(is_phone("0044-20-7946-0958"));
    assert!(!is_phone("driver@example.test"));
    assert!(!is_phone("+"));
    assert!(!is_phone(""));
    assert!(!is_phone("555x123"));
}

#[test]
fn phone_pattern_admits_any_whitespace_and_digits() {
    assert!(is_phone("123\t456"));
    assert!(is_phone("123\n456"));
    assert!(is_phone("\u{0661}\u{0662}\u{0663}"));
    assert!(!is_phone("123$456"));
}

#[test]
fn phone_login_takes_the_sms_branch() {
    let request = actions().login("+1 555-0100", None, &Vec::new()).unwrap();
    assert_eq!(request.method, HttpMethod::Post);
    assert_eq!(
        request.url,
        "https://api.example.test/drivers/login-with-sms".to_string()
    );
    let body = request.body.unwrap();
    assert_eq!(
        body.get_str_entry("phone"),
        Some("+1 555-0100".to_string())
    );
}

#[test]
fn non_phone_login_without_password_is_missing_credential() {
    let result = actions().login("driver@example.test", None, &Vec::new());
    assert_eq!(result.unwrap_err(), FleetbaseError::MissingCredential);
}

#[test]
fn password_login_merges_identity_and_password() {
    let attributes = vec![("device".to_string(), "ios".to_string())];
    let request = actions()
        .login("driver@example.test", Some("SECRET-REDACTED"), &attributes)
        .unwrap();
    assert_eq!(request.url, "https://api.example.test/drivers/login".to_string());
    let body = request.body.unwrap();
    assert_eq!(
        body.get_str_entry("identity"),
        Some("driver@example.test".to_string())
    );
    assert_eq!(body.get_str_entry("password"), Some("SECRET-REDACTED".to_string()));
    assert_eq!(body.get_str_entry("device"), Some("ios".to_string()));
}

#[test]
fn verify_code_always_posts_the_merged_payload() {
    let attributes = vec![("device".to_string(), "ios".to_string())];
    let request = actions().verify_code("+1 555-0100", "42", &attributes);
    assert_eq!(request.method, HttpMethod::Post);
    assert_eq!(
        request.url,
        "https://api.example.test/drivers/verify-code".to_string()
    );
    let body = request.body.unwrap();
    assert_eq!(body.get_str_entry("identity"), Some("+1 555-0100".to_string()));
    assert_eq!(body.get_str_entry("code"), Some("42".to_string()));
    assert_eq!(body.get_str_entry("device"), Some("ios".to_string()));
}

#[test]
fn driver_actions_build_member_and_action_paths() {
    let retrieve = actions().retrieve("d1");
    assert_eq!(retrieve.method, HttpMethod::Get);
    assert_eq!(retrieve.url, "https://api.example.test/drivers/d1".to_string());

    let track = actions().track("d1", Vec::new(), Vec::new());
    assert_eq!(track.method, HttpMethod::Post);
    assert_eq!(track.url, "https://api.example.test/drivers/d1/track".to_string());

    let sync = actions().sync_device("d1", Vec::new(), Vec::new());
    assert_eq!(
        sync.url,
        "https://api.example.test/drivers/d1/register-device".to_string()
    );
}

#[test]
fn driver_entity_binds_its_own_id() {
    let driver = Driver::new(with_id("d9"), client()).unwrap();
    assert!(driver.token().is_none());
    assert!(!driver.is_online());

    let organizations = driver.list_organizations(Vec::new(), Vec::new());
    assert_eq!(
        organizations.url,
        "https://api.example.test/drivers/d9/organizations".to_string()
    );

    let switch = driver.switch_organization("org2", Vec::new());
    assert_eq!(
        switch.url,
        "https://api.example.test/drivers/d9/switch-organization".to_string()
    );
    let body = switch.body.unwrap();
    assert_eq!(body.get_str_entry("next"), Some("org2".to_string()));

    let current = driver.current_organization(Vec::new(), Vec::new());
    assert_eq!(
        current.url,
        "https://api.example.test/drivers/d9/current-organization".to_string()
    );
}

#[test]
fn organizations_decode_from_a_single_object() {
    let orgs = serialize_organizations(with_id("org1"), &client()).unwrap();
    assert_eq!(orgs.len(), 1);
    assert_eq!(orgs[0].resource.id, "org1".to_string());
}

#[test]
fn organizations_decode_from_an_array() {
    let response = JsonValue::Arr(vec![with_id("org1"), with_id("org2")]);
    let orgs = serialize_organizations(response, &client()).unwrap();
    assert_eq!(orgs.len(), 2);
    assert_eq!(orgs[0].resource.id, "org1".to_string());
    assert_eq!(orgs[1].resource.id, "org2".to_string());
}

#[test]
fn one_bad_element_fails_the_whole_batch() {
    let response = JsonValue::Arr(vec![with_id("org1"), JsonValue::Obj(Vec::new())]);
    let result = serialize_organizations(response, &client());
    assert_eq!(result.unwrap_err(), FleetbaseError::MissingIdentifier);
}

#[test]
fn subject_ids_are_extracted_from_serialized_resources() {
    assert_eq!(
        extract_subject_id("{\"id\":\"place_1\"}"),
        "place_1".to_string()
    );
    assert_eq!(extract_subject_id("place_1"), "place_1".to_string());
    assert_eq!(extract_subject_id("{not json}"), "{not json}".to_string());
    assert_eq!(
        extract_subject_id("{\"name\":\"no id here\"}"),
        "{\"name\":\"no id here\"}".to_string()
    );
}

#[test]
fn substring_search_matches_rust_contains() {
    assert!(contains_substring("north-west", "west"));
    assert!(contains_substring("north-west", ""));
    assert!(!contains_substring("north-west", "south"));
    assert!(!contains_substring("ab", "abc"));
}
