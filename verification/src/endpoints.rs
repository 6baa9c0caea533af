//! The endpoint router: a closed, two-level descriptor type for every REST
//! path the API exposes, and its rendering into a URL path string.
//!
//! A descriptor renders to the hyphenated family name, then any action
//! segment, then its path parameters in declaration order, all slash-joined:
//! `orders/set-destination/789/waypoint1`, `places/123`, `service-areas`.

use vstd::prelude::*;

verus! {

/// Appends one path parameter to a base segment that already ends in `/`.
fn path1(base: &str, a: &str) -> (r: String)
    ensures
        r@ == base@ + a@,
{
    let mut s = base.to_owned();
    s.append(a);
    s
}

/// Appends two path parameters to a base segment that already ends in `/`.
fn path2(base: &str, a: &str, b: &str) -> (r: String)
    ensures
        r@ == base@ + a@ + "/"@ + b@,
{
    let mut s = base.to_owned();
    s.append(a);
    s.append("/");
    s.append(b);
    s
}

#[derive(Debug, Clone, PartialEq, Eq)]
pub enum Places {
    Places,
    PlacesById(String),
}

impl Places {
    pub open spec fn path_spec(self) -> Seq<char> {
        match self {
            Places::Places => "places"@,
            Places::PlacesById(id) => "places/"@ + id@,
        }
    }

    pub fn to_string(&self) -> (r: String)
        ensures
            r@ == self.path_spec(),
    {
        match self {
            Places::Places => "places".to_owned(),
            Places::PlacesById(id) => path1("places/", id.as_str()),
        }
    }
}

#[derive(Debug, Clone, PartialEq, Eq)]
pub enum ServiceAreas {
    ServiceAreas,
    ServiceAreasById(String),
}

impl ServiceAreas {
    pub open spec fn path_spec(self) -> Seq<char> {
        match self {
            ServiceAreas::ServiceAreas => "service-areas"@,
            ServiceAreas::ServiceAreasById(id) => "service-areas/"@ + id@,
        }
    }

    pub fn to_string(&self) -> (r: String)
        ensures
            r@ == self.path_spec(),
    {
        match self {
            ServiceAreas::ServiceAreas => "service-areas".to_owned(),
            ServiceAreas::ServiceAreasById(id) => path1("service-areas/", id.as_str()),
        }
    }
}

#[derive(Debug, Clone, PartialEq, Eq)]
pub enum Zones {
    Zones,
    ZonesById(String),
}

impl Zones {
    pub open spec fn path_spec(self) -> Seq<char> {
        match self {
            Zones::Zones => "zones"@,
            Zones::ZonesById(id) => "zones/"@ + id@,
        }
    }

    pub fn to_string(&self) -> (r: String)
        ensures
            r@ == self.path_spec(),
    {
        match self {
            Zones::Zones => "zones".to_owned(),
            Zones::ZonesById(id) => path1("zones/", id.as_str()),
        }
    }
}

#[derive(Debug, Clone, PartialEq, Eq)]
pub enum Contacts {
    Contacts,
    ContactsById(String),
}

impl Contacts {
    pub open spec fn path_spec(self) -> Seq<char> {
        match self {
            Contacts::Contacts => "contacts"@,
            Contacts::ContactsById(id) => "contacts/"@ + id@,
        }
    }

    pub fn to_string(&self) -> (r: String)
        ensures
            r@ == self.path_spec(),
    {
        match self {
            Contacts::Contacts => "contacts".to_owned(),
            Contacts::ContactsById(id) => path1("contacts/", id.as_str()),
        }
    }
}

#[derive(Debug, Clone, PartialEq, Eq)]
pub enum Vendors {
    Vendors,
    VendorsById(String),
}

impl Vendors {
    pub open spec fn path_spec(self) -> Seq<char> {
        match self {
            Vendors::Vendors => "vendors"@,
            Vendors::VendorsById(id) => "vendors/"@ + id@,
        }
    }

    pub fn to_string(&self) -> (r: String)
        ensures
            r@ == self.path_spec(),
    {
        match self {
            Vendors::Vendors => "vendors".to_owned(),
            Vendors::VendorsById(id) => path1("vendors/", id.as_str()),
        }
    }
}

#[derive(Debug, Clone, PartialEq, Eq)]
pub enum Vehicles {
    Vehicles,
    VehiclesById(String),
}

impl Vehicles {
    pub open spec fn path_spec(self) -> Seq<char> {
        match self {
            Vehicles::Vehicles => "vehicles"@,
            Vehicles::VehiclesById(id) => "vehicles/"@ + id@,
        }
    }

    pub fn to_string(&self) -> (r: String)
        ensures
            r@ == self.path_spec(),
    {
        match self {
            Vehicles::Vehicles => "vehicles".to_owned(),
            Vehicles::VehiclesById(id) => path1("vehicles/", id.as_str()),
        }
    }
}

#[derive(Debug, Clone, PartialEq, Eq)]
pub enum Drivers {
    Drivers,
    DriversById(String),
}

impl Drivers {
    pub open spec fn path_spec(self) -> Seq<char> {
        match self {
            Drivers::Drivers => "drivers"@,
            Drivers::DriversById(id) => "drivers/"@ + id@,
        }
    }

    pub fn to_string(&self) -> (r: String)
        ensures
            r@ == self.path_spec(),
    {
        match self {
            Drivers::Drivers => "drivers".to_owned(),
            Drivers::DriversById(id) => path1("drivers/", id.as_str()),
        }
    }
}

#[derive(Debug, Clone, PartialEq, Eq)]
pub enum Orders {
    Orders,
    OrdersById(String),
    OrdersSchedule(String),
    OrdersDispatch(String),
    OrdersStart(String),
    OrdersUpdateActivity(String),
    OrdersNextActivity(String),
    OrdersSetDestination(String, String),
    OrdersCaptureSignature(String, String),
    OrdersCaptureQr(String, String),
    OrdersOrderV(String),
}

impl Orders {
    pub open spec fn path_spec(self) -> Seq<char> {
        match self {
            Orders::Orders => "orders"@,
            Orders::OrdersById(id) => "orders/"@ + id@,
            Orders::OrdersSchedule(id) => "orders/schedule/"@ + id@,
            Orders::OrdersDispatch(id) => "orders/dispatch/"@ + id@,
            Orders::OrdersStart(id) => "orders/start/"@ + id@,
            Orders::OrdersUpdateActivity(id) => "orders/update-activity/"@ + id@,
            Orders::OrdersNextActivity(id) => "orders/next-activity/"@ + id@,
            Orders::OrdersSetDestination(id, dest) => "orders/set-destination/"@ + id@ + "/"@
                + dest@,
            Orders::OrdersCaptureSignature(id, subject) => "orders/capture-signature/"@ + id@
                + "/"@ + subject@,
            Orders::OrdersCaptureQr(id, subject) => "orders/capture-qr/"@ + id@ + "/"@ + subject@,
            Orders::OrdersOrderV(id) => "orders/order-v/"@ + id@,
        }
    }

    pub fn to_string(&self) -> (r: String)
        ensures
            r@ == self.path_spec(),
    {
        match self {
            Orders::Orders => "orders".to_owned(),
            Orders::OrdersById(id) => path1("orders/", id.as_str()),
            Orders::OrdersSchedule(id) => path1("orders/schedule/", id.as_str()),
            Orders::OrdersDispatch(id) => path1("orders/dispatch/", id.as_str()),
            Orders::OrdersStart(id) => path1("orders/start/", id.as_str()),
            Orders::OrdersUpdateActivity(id) => path1("orders/update-activity/", id.as_str()),
            Orders::OrdersNextActivity(id) => path1("orders/next-activity/", id.as_str()),
            Orders::OrdersSetDestination(id, dest) => path2(
                "orders/set-destination/",
                id.as_str(),
                dest.as_str(),
            ),
            Orders::OrdersCaptureSignature(id, subject) => path2(
                "orders/capture-signature/",
                id.as_str(),
                subject.as_str(),
            ),
            Orders::OrdersCaptureQr(id, subject) => path2(
                "orders/capture-qr/",
                id.as_str(),
                subject.as_str(),
            ),
            Orders::OrdersOrderV(id) => path1("orders/order-v/", id.as_str()),
        }
    }
}

#[derive(Debug, Clone, PartialEq, Eq)]
pub enum Fleets {
    Fleets,
    FleetsById(String),
}

impl Fleets {
    pub open spec fn path_spec(self) -> Seq<char> {
        match self {
            Fleets::Fleets => "fleets"@,
            Fleets::FleetsById(id) => "fleets/"@ + id@,
        }
    }

    pub fn to_string(&self) -> (r: String)
        ensures
            r@ == self.path_spec(),
    {
        match self {
            Fleets::Fleets => "fleets".to_owned(),
            Fleets::FleetsById(id) => path1("fleets/", id.as_str()),
        }
    }
}

#[derive(Debug, Clone, PartialEq, Eq)]
pub enum Payloads {
    Payloads,
    PayloadsById(String),
}

impl Payloads {
    pub open spec fn path_spec(self) -> Seq<char> {
        match self {
            Payloads::Payloads => "payloads"@,
            Payloads::PayloadsById(id) => "payloads/"@ + id@,
        }
    }

    pub fn to_string(&self) -> (r: String)
        ensures
            r@ == self.path_spec(),
    {
        match self {
            Payloads::Payloads => "payloads".to_owned(),
            Payloads::PayloadsById(id) => path1("payloads/", id.as_str()),
        }
    }
}

#[derive(Debug, Clone, PartialEq, Eq)]
pub enum Entities {
    Entities,
    EntitiesById(String),
}

impl Entities {
    pub open spec fn path_spec(self) -> Seq<char> {
        match self {
            Entities::Entities => "entities"@,
            Entities::EntitiesById(id) => "entities/"@ + id@,
        }
    }

    pub fn to_string(&self) -> (r: String)
        ensures
            r@ == self.path_spec(),
    {
        match self {
            Entities::Entities => "entities".to_owned(),
            Entities::EntitiesById(id) => path1("entities/", id.as_str()),
        }
    }
}

#[derive(Debug, Clone, PartialEq, Eq)]
pub enum ServiceRates {
    ServiceRates,
    ServiceRatesById(String),
}

impl ServiceRates {
    pub open spec fn path_spec(self) -> Seq<char> {
        match self {
            ServiceRates::ServiceRates => "service-rates"@,
            ServiceRates::ServiceRatesById(id) => "service-rates/"@ + id@,
        }
    }

    pub fn to_string(&self) -> (r: String)
        ensures
            r@ == self.path_spec(),
    {
        match self {
            ServiceRates::ServiceRates => "service-rates".to_owned(),
            ServiceRates::ServiceRatesById(id) => path1("service-rates/", id.as_str()),
        }
    }
}

#[derive(Debug, Clone, PartialEq, Eq)]
pub enum ServiceQuotes {
    ServiceQuotes,
}

impl ServiceQuotes {
    pub open spec fn path_spec(self) -> Seq<char> {
        match self {
            ServiceQuotes::ServiceQuotes => "service-quotes"@,
        }
    }

    pub fn to_string(&self) -> (r: String)
        ensures
            r@ == self.path_spec(),
    {
        match self {
            ServiceQuotes::ServiceQuotes => "service-quotes".to_owned(),
        }
    }
}

#[derive(Debug, Clone, PartialEq, Eq)]
pub enum PurchaseRates {
    PurchaseRates,
    PurchaseRatesById(String),
}

impl PurchaseRates {
    pub open spec fn path_spec(self) -> Seq<char> {
        match self {
            PurchaseRates::PurchaseRates => "purchase-rates"@,
            PurchaseRates::PurchaseRatesById(id) => "purchase-rates/"@ + id@,
        }
    }

    pub fn to_string(&self) -> (r: String)
        ensures
            r@ == self.path_spec(),
    {
        match self {
            PurchaseRates::PurchaseRates => "purchase-rates".to_owned(),
            PurchaseRates::PurchaseRatesById(id) => path1("purchase-rates/", id.as_str()),
        }
    }
}

#[derive(Debug, Clone, PartialEq, Eq)]
pub enum TrackingNumbers {
    TrackingNumbers,
    TrackingNumbersById(String),
}

impl TrackingNumbers {
    pub open spec fn path_spec(self) -> Seq<char> {
        match self {
            TrackingNumbers::TrackingNumbers => "tracking-numbers"@,
            TrackingNumbers::TrackingNumbersById(id) => "tracking-numbers/"@ + id@,
        }
    }

    pub fn to_string(&self) -> (r: String)
        ensures
            r@ == self.path_spec(),
    {
        match self {
            TrackingNumbers::TrackingNumbers => "tracking-numbers".to_owned(),
            TrackingNumbers::TrackingNumbersById(id) => path1("tracking-numbers/", id.as_str()),
        }
    }
}

#[derive(Debug, Clone, PartialEq, Eq)]
pub enum TrackingStatuses {
    TrackingStatuses,
    TrackingStatusesById(String),
}

impl TrackingStatuses {
    pub open spec fn path_spec(self) -> Seq<char> {
        match self {
            TrackingStatuses::TrackingStatuses => "tracking-statuses"@,
            TrackingStatuses::TrackingStatusesById(id) => "tracking-statuses/"@ + id@,
        }
    }

    pub fn to_string(&self) -> (r: String)
        ensures
            r@ == self.path_spec(),
    {
        match self {
            TrackingStatuses::TrackingStatuses => "tracking-statuses".to_owned(),
            TrackingStatuses::TrackingStatusesById(id) => path1(
                "tracking-statuses/",
                id.as_str(),
            ),
        }
    }
}

/// A typed route descriptor: one case per resource family.
#[derive(Debug, Clone, PartialEq, Eq)]
pub enum Endpoint {
    Places(Places),
    ServiceAreas(ServiceAreas),
    Zones(Zones),
    Contacts(Contacts),
    Vendors(Vendors),
    Vehicles(Vehicles),
    Drivers(Drivers),
    Orders(Orders),
    Fleets(Fleets),
    Payloads(Payloads),
    Entities(Entities),
    ServiceRates(ServiceRates),
    ServiceQuotes(ServiceQuotes),
    PurchaseRates(PurchaseRates),
    TrackingNumbers(TrackingNumbers),
    TrackingStatuses(TrackingStatuses),
}

impl Endpoint {
    /// The URL path this descriptor stands for.
    pub open spec fn path_spec(self) -> Seq<char> {
        match self {
            Endpoint::Places(e) => e.path_spec(),
            Endpoint::ServiceAreas(e) => e.path_spec(),
            Endpoint::Zones(e) => e.path_spec(),
            Endpoint::Contacts(e) => e.path_spec(),
            Endpoint::Vendors(e) => e.path_spec(),
            Endpoint::Vehicles(e) => e.path_spec(),
            Endpoint::Drivers(e) => e.path_spec(),
            Endpoint::Orders(e) => e.path_spec(),
            Endpoint::Fleets(e) => e.path_spec(),
            Endpoint::Payloads(e) => e.path_spec(),
            Endpoint::Entities(e) => e.path_spec(),
            Endpoint::ServiceRates(e) => e.path_spec(),
            Endpoint::ServiceQuotes(e) => e.path_spec(),
            Endpoint::PurchaseRates(e) => e.path_spec(),
            Endpoint::TrackingNumbers(e) => e.path_spec(),
            Endpoint::TrackingStatuses(e) => e.path_spec(),
        }
    }

    /// Renders the descriptor into its URL path. Pure and total: every
    /// variant has exactly one rendering rule.
    pub fn to_string(&self) -> (r: String)
        ensures
            r@ == self.path_spec(),
    {
        match self {
            Endpoint::Places(e) => e.to_string(),
            Endpoint::ServiceAreas(e) => e.to_string(),
            Endpoint::Zones(e) => e.to_string(),
            Endpoint::Contacts(e) => e.to_string(),
            Endpoint::Vendors(e) => e.to_string(),
            Endpoint::Vehicles(e) => e.to_string(),
            Endpoint::Drivers(e) => e.to_string(),
            Endpoint::Orders(e) => e.to_string(),
            Endpoint::Fleets(e) => e.to_string(),
            Endpoint::Payloads(e) => e.to_string(),
            Endpoint::Entities(e) => e.to_string(),
            Endpoint::ServiceRates(e) => e.to_string(),
            Endpoint::ServiceQuotes(e) => e.to_string(),
            Endpoint::PurchaseRates(e) => e.to_string(),
            Endpoint::TrackingNumbers(e) => e.to_string(),
            Endpoint::TrackingStatuses(e) => e.to_string(),
        }
    }
}

} // verus!
