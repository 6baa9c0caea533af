use fleetbase_rs::service_area::{Location, ServiceAreaManager};
use fleetbase_rs::vendor::{slugify, VendorManager};
use fleetbase_rs::zone::{Border, GeoPoint, ZoneManager};

fn border() -> Border {
    Border {
        type_: "Polygon".to_string(),
        coordinates: vec![vec![
            GeoPoint { longitude_e6: 103_851_959, latitude_e6: 1_290_270 },
            GeoPoint { longitude_e6: 103_852_959, latitude_e6: 1_291_270 },
            GeoPoint { longitude_e6: 103_853_959, latitude_e6: 1_290_270 },
        ]],
        bbox: None,
    }
}

#[test]
fn slugs_are_lowercased_and_hyphenated() {
    assert_eq!(slugify("Acme Corp"), "acme-corp".to_string());
    assert_eq!(slugify("ACME"), "acme".to_string());
    assert_eq!(slugify("already-slugged"), "already-slugged".to_string());
}

#[test]
fn created_vendors_can_be_looked_up() {
    let mut manager = VendorManager::new();
    let id = manager
        .create_vendor(
            "sales@acme.test".to_string(),
            "Acme Corp".to_string(),
            "555-0100".to_string(),
            "supplier".to_string(),
            None,
        )
        .id
        .clone();
    assert_eq!(id.len(), 36);

    let vendor = manager.get_vendor(&id).unwrap();
    assert_eq!(vendor.email, "sales@acme.test".to_string());
    assert_eq!(vendor.slug, "acme-corp".to_string());
    assert_eq!(vendor.phone_country_code, "+1".to_string());
    assert!(manager.get_vendor("absent").is_none());
    assert_eq!(manager.list_vendors().len(), 1);
}

#[test]
fn vendor_updates_rewrite_the_slug() {
    let mut manager = VendorManager::new();
    let id = manager
        .create_vendor(
            "sales@acme.test".to_string(),
            "Acme Corp".to_string(),
            "555-0100".to_string(),
            "supplier".to_string(),
            None,
        )
        .id
        .clone();

    let updated = manager
        .update_vendor(
            &id,
            None,
            Some("New Acme Industries".to_string()),
            Some("555-0101".to_string()),
            None,
            None,
        )
        .unwrap();
    assert_eq!(updated.name, "New Acme Industries".to_string());
    assert_eq!(updated.slug, "new-acme-industries".to_string());
    assert_eq!(updated.phone_number, "555-0101".to_string());
    assert_eq!(updated.email, "sales@acme.test".to_string());

    assert!(manager.update_vendor("absent", None, None, None, None, None).is_none());
}

#[test]
fn deleted_vendors_disappear() {
    let mut manager = VendorManager::new();
    let id = manager
        .create_vendor(
            "sales@acme.test".to_string(),
            "Acme Corp".to_string(),
            "555-0100".to_string(),
            "supplier".to_string(),
            None,
        )
        .id
        .clone();
    let removed = manager.delete_vendor(&id).unwrap();
    assert_eq!(removed.id, id);
    assert!(manager.get_vendor(&id).is_none());
    assert!(manager.delete_vendor(&id).is_none());
    assert!(manager.list_vendors().is_empty());
}

#[test]
fn zones_start_active_and_update_in_place() {
    let mut manager = ZoneManager::new();
    let id = manager
        .create_zone(
            "North".to_string(),
            border(),
            "#ff0000".to_string(),
            "#00ff00".to_string(),
            None,
        )
        .id
        .clone();

    let zone = manager.get_zone(&id).unwrap();
    assert_eq!(zone.status, "active".to_string());
    assert_eq!(zone.coordinates[0].len(), 3);

    let updated = manager
        .update_zone(&id, Some("#0000ff".to_string()), None, Some("paused".to_string()))
        .unwrap();
    assert_eq!(updated.color, "#0000ff".to_string());
    assert_eq!(updated.status, "paused".to_string());
    assert_eq!(updated.name, "North".to_string());

    let missing = manager.update_zone("absent", None, None, None);
    assert_eq!(missing.unwrap_err(), "Zone not found".to_string());
}

#[test]
fn zone_listing_filters_by_name() {
    let mut manager = ZoneManager::new();
    manager.create_zone("North-East".to_string(), border(), "#1".to_string(), "#2".to_string(), None);
    manager.create_zone("North-West".to_string(), border(), "#1".to_string(), "#2".to_string(), None);
    manager.create_zone("South".to_string(), border(), "#1".to_string(), "#2".to_string(), None);

    assert_eq!(manager.list_zones(None).len(), 3);
    assert_eq!(manager.list_zones(Some("North")).len(), 2);
    let west = manager.list_zones(Some("West"));
    assert_eq!(west.len(), 1);
    assert_eq!(west[0].name, "North-West".to_string());
    assert!(manager.list_zones(Some("East-West")).is_empty());
}

#[test]
fn zone_deletion_reports_not_found() {
    let mut manager = ZoneManager::new();
    let id = manager
        .create_zone("North".to_string(), border(), "#1".to_string(), "#2".to_string(), None)
        .id
        .clone();
    assert_eq!(manager.delete_zone(&id), Ok(true));
    assert_eq!(manager.delete_zone(&id).unwrap_err(), "Zone not found".to_string());
}

#[test]
fn service_areas_unpack_their_coordinates() {
    let mut manager = ServiceAreaManager::new();
    let location = Location {
        type_: "Point".to_string(),
        coordinates: vec![103_851_959, 1_290_270],
    };
    let id = manager
        .create_service_area(
            "Singapore".to_string(),
            "SG".to_string(),
            location,
            25_000,
            "active".to_string(),
            "city".to_string(),
        )
        .unwrap()
        .id
        .clone();

    let area = manager.get_service_area(&id).unwrap();
    assert_eq!(area.longitude, 103_851_959);
    assert_eq!(area.latitude, 1_290_270);
    assert_eq!(area.radius, 25_000);
}

#[test]
fn service_area_status_updates_and_deletion() {
    let mut manager = ServiceAreaManager::new();
    let location = Location { type_: "Point".to_string(), coordinates: vec![0, 0] };
    let id = manager
        .create_service_area(
            "Test".to_string(),
            "US".to_string(),
            location,
            1,
            "active".to_string(),
            "city".to_string(),
        )
        .unwrap()
        .id
        .clone();

    let updated = manager.update_service_area(&id, "paused".to_string()).unwrap();
    assert_eq!(updated.status, "paused".to_string());

    assert_eq!(manager.delete_service_area(&id), Ok(()));
    assert_eq!(
        manager.delete_service_area(&id).unwrap_err(),
        "Service area not found".to_string()
    );
    assert!(manager.list_service_areas(None).is_empty());
}

#[test]
fn service_area_listing_filters_by_name() {
    let mut manager = ServiceAreaManager::new();
    let point = |lng: i64, lat: i64| Location {
        type_: "Point".to_string(),
        coordinates: vec![lng, lat],
    };
    manager
        .create_service_area(
            "Metro North".to_string(),
            "US".to_string(),
            point(1, 2),
            1,
            "active".to_string(),
            "city".to_string(),
        )
        .unwrap();
    manager
        .create_service_area(
            "Metro South".to_string(),
            "US".to_string(),
            point(3, 4),
            1,
            "active".to_string(),
            "city".to_string(),
        )
        .unwrap();

    assert_eq!(manager.list_service_areas(Some("Metro")).len(), 2);
    assert_eq!(manager.list_service_areas(Some("South")).len(), 1);
    assert!(manager.list_service_areas(Some("East")).is_empty());
}
