use fleetbase_rs::endpoints::{
    Endpoint, Orders, Places, PurchaseRates, ServiceAreas, ServiceQuotes, TrackingStatuses,
};

#[test]
fn test_endpoint_to_string() {
    let endpoints = vec![
        (Endpoint::Places(Places::Places), "places"),
        (
            Endpoint::Places(Places::PlacesById("123".to_string())),
            "places/123",
        ),
        (
            Endpoint::ServiceAreas(ServiceAreas::ServiceAreas),
            "service-areas",
        ),
        (
            Endpoint::ServiceAreas(ServiceAreas::ServiceAreasById("456".to_string())),
            "service-areas/456",
        ),
        (Endpoint::Orders(Orders::Orders), "orders"),
        (
            Endpoint::Orders(Orders::OrdersUpdateActivity("789".to_string())),
            "orders/update-activity/789",
        ),
        (
            Endpoint::Orders(Orders::OrdersSetDestination(
                "789".to_string(),
                "waypoint1".to_string(),
            )),
            "orders/set-destination/789/waypoint1",
        ),
    ];

    for (endpoint, expected) in endpoints {
        assert_eq!(endpoint.to_string(), expected, "Failed for {:?}", endpoint);
    }
}

#[test]
fn hyphenated_families_render() {
    assert_eq!(
        Endpoint::ServiceQuotes(ServiceQuotes::ServiceQuotes).to_string(),
        "service-quotes"
    );
    assert_eq!(
        Endpoint::PurchaseRates(PurchaseRates::PurchaseRates).to_string(),
        "purchase-rates"
    );
    assert_eq!(
        Endpoint::TrackingStatuses(TrackingStatuses::TrackingStatusesById("t1".to_string()))
            .to_string(),
        "tracking-statuses/t1"
    );
}

#[test]
fn order_action_variants_render() {
    assert_eq!(
        Endpoint::Orders(Orders::OrdersDispatch("o1".to_string())).to_string(),
        "orders/dispatch/o1"
    );
    assert_eq!(
        Endpoint::Orders(Orders::OrdersCaptureQr("o1".to_string(), "s1".to_string())).to_string(),
        "orders/capture-qr/o1/s1"
    );
    assert_eq!(
        Endpoint::Orders(Orders::OrdersNextActivity("o2".to_string())).to_string(),
        "orders/next-activity/o2"
    );
}
