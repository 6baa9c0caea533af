//! The order entity and its action set. Every action prepares exactly one
//! HTTP request below `<namespace>/<id>/...`; the entity's predicates are
//! computed from the attribute snapshot at call time — mutating actions do
//! not touch the cached attributes, the caller re-fetches to observe new
//! state.

use vstd::prelude::*;

use crate::client::{FleetbaseClient, HttpMethod, PreparedRequest};
use crate::helpers::{extract_subject_id, subject_id_spec};
use crate::json::{object_of_strings, object_of_strings_spec, JsonValue};
use crate::organization::has_string_id;
use crate::resource::Resource;
use crate::trusted::{parse_utc_timestamp, utc_instant_of};
use crate::FleetbaseError;

verus! {

/// The order action set: a client handle plus the namespace prefix the
/// paths are built under.
#[derive(Debug)]
pub struct OrderActions {
    pub adapter: FleetbaseClient,
    pub namespace: String,
}

impl OrderActions {
    /// Distance and time to the destination: GET
    /// `<namespace>/<id>/distance-and-time`.
    pub fn get_distance_and_time(
        &self,
        id: &str,
        params: Vec<(String, String)>,
        options: Vec<(String, String)>,
    ) -> (r: PreparedRequest)
        ensures
            r.method == HttpMethod::Get,
            r.url@ == self.adapter.base_url@ + self.namespace@ + "/"@ + id@
                + "/distance-and-time"@,
            r.authorization@ == self.adapter.auth_header_spec(),
            r.query == params,
            r.body is None,
    {
        self.adapter.request_join4(
            HttpMethod::Get,
            self.namespace.as_str(),
            "/",
            id,
            "/distance-and-time",
            params,
            None,
        )
    }

    /// The next planned activity: GET `<namespace>/<id>/next-activity`.
    pub fn get_next_activity(
        &self,
        id: &str,
        params: Vec<(String, String)>,
        options: Vec<(String, String)>,
    ) -> (r: PreparedRequest)
        ensures
            r.method == HttpMethod::Get,
            r.url@ == self.adapter.base_url@ + self.namespace@ + "/"@ + id@ + "/next-activity"@,
            r.authorization@ == self.adapter.auth_header_spec(),
            r.query == params,
            r.body is None,
    {
        self.adapter.request_join4(
            HttpMethod::Get,
            self.namespace.as_str(),
            "/",
            id,
            "/next-activity",
            params,
            None,
        )
    }

    /// Dispatches the order: POST `<namespace>/<id>/dispatch`.
    pub fn dispatch(
        &self,
        id: &str,
        params: Vec<(String, String)>,
        options: Vec<(String, String)>,
    ) -> (r: PreparedRequest)
        ensures
            r.method == HttpMethod::Post,
            r.url@ == self.adapter.base_url@ + self.namespace@ + "/"@ + id@ + "/dispatch"@,
            r.authorization@ == self.adapter.auth_header_spec(),
            r.query@.len() == 0,
            r.body matches Some(b) && forall|k: Seq<char>| #[trigger]
                b.entry_spec(k) == object_of_strings_spec(params@, k),
    {
        let body = object_of_strings(&params);
        self.adapter.request_join4(
            HttpMethod::Post,
            self.namespace.as_str(),
            "/",
            id,
            "/dispatch",
            Vec::new(),
            Some(body),
        )
    }

    /// Starts the order: POST `<namespace>/<id>/start`.
    pub fn start(
        &self,
        id: &str,
        params: Vec<(String, String)>,
        options: Vec<(String, String)>,
    ) -> (r: PreparedRequest)
        ensures
            r.method == HttpMethod::Post,
            r.url@ == self.adapter.base_url@ + self.namespace@ + "/"@ + id@ + "/start"@,
            r.authorization@ == self.adapter.auth_header_spec(),
            r.query@.len() == 0,
            r.body matches Some(b) && forall|k: Seq<char>| #[trigger]
                b.entry_spec(k) == object_of_strings_spec(params@, k),
    {
        let body = object_of_strings(&params);
        self.adapter.request_join4(
            HttpMethod::Post,
            self.namespace.as_str(),
            "/",
            id,
            "/start",
            Vec::new(),
            Some(body),
        )
    }

    /// Updates the running activity: POST `<namespace>/<id>/update-activity`.
    pub fn update_activity(
        &self,
        id: &str,
        params: Vec<(String, String)>,
        options: Vec<(String, String)>,
    ) -> (r: PreparedRequest)
        ensures
            r.method == HttpMethod::Post,
            r.url@ == self.adapter.base_url@ + self.namespace@ + "/"@ + id@ + "/update-activity"@,
            r.authorization@ == self.adapter.auth_header_spec(),
            r.query@.len() == 0,
            r.body matches Some(b) && forall|k: Seq<char>| #[trigger]
                b.entry_spec(k) == object_of_strings_spec(params@, k),
    {
        let body = object_of_strings(&params);
        self.adapter.request_join4(
            HttpMethod::Post,
            self.namespace.as_str(),
            "/",
            id,
            "/update-activity",
            Vec::new(),
            Some(body),
        )
    }

    /// Sets the destination: POST
    /// `<namespace>/<id>/set-destination/<destination>`. A destination that
    /// is itself a serialized resource is reduced to its nested id; on any
    /// parse failure the original string is used verbatim.
    pub fn set_destination(
        &self,
        id: &str,
        destination_id: &str,
        params: Vec<(String, String)>,
        options: Vec<(String, String)>,
    ) -> (r: PreparedRequest)
        ensures
            r.method == HttpMethod::Post,
            r.url@ == self.adapter.base_url@ + self.namespace@ + "/"@ + id@ + "/set-destination/"@
                + subject_id_spec(destination_id@),
            r.authorization@ == self.adapter.auth_header_spec(),
            r.query@.len() == 0,
            r.body matches Some(b) && forall|k: Seq<char>| #[trigger]
                b.entry_spec(k) == object_of_strings_spec(params@, k),
    {
        let destination = extract_subject_id(destination_id);
        let body = object_of_strings(&params);
        self.adapter.request_join5(
            HttpMethod::Post,
            self.namespace.as_str(),
            "/",
            id,
            "/set-destination/",
            destination.as_str(),
            Vec::new(),
            Some(body),
        )
    }

    /// Captures a QR code scan: POST `<namespace>/<id>/capture-qr`, with the
    /// resolved subject id as a final segment when one is given.
    pub fn capture_qr_code(
        &self,
        id: &str,
        subject_id: Option<&str>,
        params: Vec<(String, String)>,
        options: Vec<(String, String)>,
    ) -> (r: PreparedRequest)
        ensures
            r.method == HttpMethod::Post,
            subject_id matches Some(sid) ==> r.url@ == self.adapter.base_url@ + self.namespace@
                + "/"@ + id@ + "/capture-qr/"@ + subject_id_spec(sid@),
            subject_id is None ==> r.url@ == self.adapter.base_url@ + self.namespace@ + "/"@ + id@
                + "/capture-qr"@,
            r.authorization@ == self.adapter.auth_header_spec(),
            r.query@.len() == 0,
            r.body matches Some(b) && forall|k: Seq<char>| #[trigger]
                b.entry_spec(k) == object_of_strings_spec(params@, k),
    {
        let body = object_of_strings(&params);
        match subject_id {
            Some(sid) => {
                let subject = extract_subject_id(sid);
                self.adapter.request_join5(
                    HttpMethod::Post,
                    self.namespace.as_str(),
                    "/",
                    id,
                    "/capture-qr/",
                    subject.as_str(),
                    Vec::new(),
                    Some(body),
                )
            },
            None => self.adapter.request_join4(
                HttpMethod::Post,
                self.namespace.as_str(),
                "/",
                id,
                "/capture-qr",
                Vec::new(),
                Some(body),
            ),
        }
    }

    /// Captures a signature: POST `<namespace>/<id>/capture-signature`, with
    /// the resolved subject id as a final segment when one is given.
    pub fn capture_signature(
        &self,
        id: &str,
        subject_id: Option<&str>,
        params: Vec<(String, String)>,
        options: Vec<(String, String)>,
    ) -> (r: PreparedRequest)
        ensures
            r.method == HttpMethod::Post,
            subject_id matches Some(sid) ==> r.url@ == self.adapter.base_url@ + self.namespace@
                + "/"@ + id@ + "/capture-signature/"@ + subject_id_spec(sid@),
            subject_id is None ==> r.url@ == self.adapter.base_url@ + self.namespace@ + "/"@ + id@
                + "/capture-signature"@,
            r.authorization@ == self.adapter.auth_header_spec(),
            r.query@.len() == 0,
            r.body matches Some(b) && forall|k: Seq<char>| #[trigger]
                b.entry_spec(k) == object_of_strings_spec(params@, k),
    {
        let body = object_of_strings(&params);
        match subject_id {
            Some(sid) => {
                let subject = extract_subject_id(sid);
                self.adapter.request_join5(
                    HttpMethod::Post,
                    self.namespace.as_str(),
                    "/",
                    id,
                    "/capture-signature/",
                    subject.as_str(),
                    Vec::new(),
                    Some(body),
                )
            },
            None => self.adapter.request_join4(
                HttpMethod::Post,
                self.namespace.as_str(),
                "/",
                id,
                "/capture-signature",
                Vec::new(),
                Some(body),
            ),
        }
    }

    /// Completes the order: POST `<namespace>/<id>/complete`.
    pub fn complete(
        &self,
        id: &str,
        params: Vec<(String, String)>,
        options: Vec<(String, String)>,
    ) -> (r: PreparedRequest)
        ensures
            r.method == HttpMethod::Post,
            r.url@ == self.adapter.base_url@ + self.namespace@ + "/"@ + id@ + "/complete"@,
            r.authorization@ == self.adapter.auth_header_spec(),
            r.query@.len() == 0,
            r.body matches Some(b) && forall|k: Seq<char>| #[trigger]
                b.entry_spec(k) == object_of_strings_spec(params@, k),
    {
        let body = object_of_strings(&params);
        self.adapter.request_join4(
            HttpMethod::Post,
            self.namespace.as_str(),
            "/",
            id,
            "/complete",
            Vec::new(),
            Some(body),
        )
    }

    /// Cancels the order: DELETE `<namespace>/<id>/cancel`, with the params
    /// riding in the body.
    pub fn cancel(
        &self,
        id: &str,
        params: Vec<(String, String)>,
        options: Vec<(String, String)>,
    ) -> (r: PreparedRequest)
        ensures
            r.method == HttpMethod::Delete,
            r.url@ == self.adapter.base_url@ + self.namespace@ + "/"@ + id@ + "/cancel"@,
            r.authorization@ == self.adapter.auth_header_spec(),
            r.query@.len() == 0,
            r.body matches Some(b) && forall|k: Seq<char>| #[trigger]
                b.entry_spec(k) == object_of_strings_spec(params@, k),
    {
        let body = object_of_strings(&params);
        self.adapter.request_join4(
            HttpMethod::Delete,
            self.namespace.as_str(),
            "/",
            id,
            "/cancel",
            Vec::new(),
            Some(body),
        )
    }
}

/// The order entity: a resource snapshot with derived state predicates.
#[derive(Debug)]
pub struct Order {
    pub resource: Resource,
}

impl Order {
    pub open spec fn wf(self) -> bool {
        self.resource.wf()
    }

    /// The status string in the snapshot, when one is stored.
    pub open spec fn status_spec(self) -> Option<Seq<char>> {
        match self.resource.attr_spec("status"@) {
            Some(JsonValue::Str(s)) => Some(s@),
            _ => None,
        }
    }

    pub open spec fn is_dispatched_spec(self) -> bool {
        self.resource.attr_spec("dispatched_at"@) is Some
    }

    pub open spec fn is_started_spec(self) -> bool {
        self.resource.attr_spec("started_at"@) is Some
    }

    pub open spec fn is_completed_spec(self) -> bool {
        self.status_spec() == Some("completed"@)
    }

    pub open spec fn is_canceled_spec(self) -> bool {
        self.status_spec() == Some("canceled"@)
    }

    pub open spec fn is_enroute_spec(self) -> bool {
        self.status_spec() == Some("driver_enroute"@) || self.status_spec() == Some("enroute"@)
    }

    pub open spec fn is_in_progress_spec(self) -> bool {
        self.is_started_spec() && !self.is_canceled_spec() && !self.is_completed_spec()
    }

    /// What a stored timestamp attribute denotes: the parsed instant of its
    /// string form, nothing for any other shape.
    pub open spec fn timestamp_attr_spec(self, key: Seq<char>) -> Option<i64> {
        match self.resource.attr_spec(key) {
            Some(JsonValue::Str(s)) => utc_instant_of(s@),
            _ => None,
        }
    }

    /// Wraps a decoded payload; fails with `MissingIdentifier` exactly when
    /// the payload carries no string `"id"`.
    pub fn new(attributes: JsonValue, adapter: FleetbaseClient) -> (r: Result<
        Order,
        FleetbaseError,
    >)
        ensures
            r is Ok <==> has_string_id(attributes),
            r matches Ok(o) ==> o.wf() && o.resource.attributes == attributes,
            r is Err ==> r == Err::<Order, FleetbaseError>(FleetbaseError::MissingIdentifier),
    {
        match Resource::new(attributes, adapter, "order") {
            Ok(resource) => Ok(Order { resource }),
            Err(e) => Err(e),
        }
    }

    fn actions(&self) -> (r: OrderActions)
        ensures
            r.adapter.base_url@ == self.resource.adapter.base_url@,
            r.adapter.token@ == self.resource.adapter.token@,
            r.namespace@ == "orders"@,
    {
        OrderActions { adapter: self.resource.adapter.duplicate(), namespace: "orders".to_owned() }
    }

    /// Prepares the distance-and-time read for this order.
    pub fn get_distance_and_time(
        &self,
        params: Vec<(String, String)>,
        options: Vec<(String, String)>,
    ) -> (r: PreparedRequest)
        ensures
            r.method == HttpMethod::Get,
            r.url@ == self.resource.adapter.base_url@ + "orders"@ + "/"@ + self.resource.id@
                + "/distance-and-time"@,
            r.authorization@ == "Bearer "@ + self.resource.adapter.token@,
            r.query == params,
            r.body is None,
    {
        self.actions().get_distance_and_time(self.resource.id.as_str(), params, options)
    }

    /// Prepares the next-activity read for this order.
    pub fn get_next_activity(
        &self,
        params: Vec<(String, String)>,
        options: Vec<(String, String)>,
    ) -> (r: PreparedRequest)
        ensures
            r.method == HttpMethod::Get,
            r.url@ == self.resource.adapter.base_url@ + "orders"@ + "/"@ + self.resource.id@
                + "/next-activity"@,
            r.authorization@ == "Bearer "@ + self.resource.adapter.token@,
            r.query == params,
            r.body is None,
    {
        self.actions().get_next_activity(self.resource.id.as_str(), params, options)
    }

    /// Prepares this order's dispatch.
    pub fn dispatch(&self, params: Vec<(String, String)>, options: Vec<(String, String)>) -> (r:
        PreparedRequest)
        ensures
            r.method == HttpMethod::Post,
            r.url@ == self.resource.adapter.base_url@ + "orders"@ + "/"@ + self.resource.id@
                + "/dispatch"@,
            r.authorization@ == "Bearer "@ + self.resource.adapter.token@,
            r.query@.len() == 0,
            r.body matches Some(b) && forall|k: Seq<char>| #[trigger]
                b.entry_spec(k) == object_of_strings_spec(params@, k),
    {
        self.actions().dispatch(self.resource.id.as_str(), params, options)
    }

    /// Prepares this order's start.
    pub fn start(&self, params: Vec<(String, String)>, options: Vec<(String, String)>) -> (r:
        PreparedRequest)
        ensures
            r.method == HttpMethod::Post,
            r.url@ == self.resource.adapter.base_url@ + "orders"@ + "/"@ + self.resource.id@
                + "/start"@,
            r.authorization@ == "Bearer "@ + self.resource.adapter.token@,
            r.query@.len() == 0,
            r.body matches Some(b) && forall|k: Seq<char>| #[trigger]
                b.entry_spec(k) == object_of_strings_spec(params@, k),
    {
        self.actions().start(self.resource.id.as_str(), params, options)
    }

    /// Prepares this order's destination change.
    pub fn set_destination(
        &self,
        destination_id: &str,
        params: Vec<(String, String)>,
        options: Vec<(String, String)>,
    ) -> (r: PreparedRequest)
        ensures
            r.method == HttpMethod::Post,
            r.url@ == self.resource.adapter.base_url@ + "orders"@ + "/"@ + self.resource.id@
                + "/set-destination/"@ + subject_id_spec(destination_id@),
            r.authorization@ == "Bearer "@ + self.resource.adapter.token@,
            r.query@.len() == 0,
            r.body matches Some(b) && forall|k: Seq<char>| #[trigger]
                b.entry_spec(k) == object_of_strings_spec(params@, k),
    {
        self.actions().set_destination(self.resource.id.as_str(), destination_id, params, options)
    }

    /// Prepares this order's QR capture.
    pub fn capture_qr_code(
        &self,
        subject_id: Option<&str>,
        params: Vec<(String, String)>,
        options: Vec<(String, String)>,
    ) -> (r: PreparedRequest)
        ensures
            r.method == HttpMethod::Post,
            subject_id matches Some(sid) ==> r.url@ == self.resource.adapter.base_url@ + "orders"@
                + "/"@ + self.resource.id@ + "/capture-qr/"@ + subject_id_spec(sid@),
            subject_id is None ==> r.url@ == self.resource.adapter.base_url@ + "orders"@ + "/"@
                + self.resource.id@ + "/capture-qr"@,
            r.authorization@ == "Bearer "@ + self.resource.adapter.token@,
            r.query@.len() == 0,
            r.body matches Some(b) && forall|k: Seq<char>| #[trigger]
                b.entry_spec(k) == object_of_strings_spec(params@, k),
    {
        self.actions().capture_qr_code(self.resource.id.as_str(), subject_id, params, options)
    }

    /// Prepares this order's signature capture.
    pub fn capture_signature(
        &self,
        subject_id: Option<&str>,
        params: Vec<(String, String)>,
        options: Vec<(String, String)>,
    ) -> (r: PreparedRequest)
        ensures
            r.method == HttpMethod::Post,
            subject_id matches Some(sid) ==> r.url@ == self.resource.adapter.base_url@ + "orders"@
                + "/"@ + self.resource.id@ + "/capture-signature/"@ + subject_id_spec(sid@),
            subject_id is None ==> r.url@ == self.resource.adapter.base_url@ + "orders"@ + "/"@
                + self.resource.id@ + "/capture-signature"@,
            r.authorization@ == "Bearer "@ + self.resource.adapter.token@,
            r.query@.len() == 0,
            r.body matches Some(b) && forall|k: Seq<char>| #[trigger]
                b.entry_spec(k) == object_of_strings_spec(params@, k),
    {
        self.actions().capture_signature(self.resource.id.as_str(), subject_id, params, options)
    }

    /// Prepares this order's activity update.
    pub fn update_activity(&self, params: Vec<(String, String)>, options: Vec<(String, String)>)
        -> (r: PreparedRequest)
        ensures
            r.method == HttpMethod::Post,
            r.url@ == self.resource.adapter.base_url@ + "orders"@ + "/"@ + self.resource.id@
                + "/update-activity"@,
            r.authorization@ == "Bearer "@ + self.resource.adapter.token@,
            r.query@.len() == 0,
            r.body matches Some(b) && forall|k: Seq<char>| #[trigger]
                b.entry_spec(k) == object_of_strings_spec(params@, k),
    {
        self.actions().update_activity(self.resource.id.as_str(), params, options)
    }

    /// Prepares this order's cancellation.
    pub fn cancel(&self, params: Vec<(String, String)>, options: Vec<(String, String)>) -> (r:
        PreparedRequest)
        ensures
            r.method == HttpMethod::Delete,
            r.url@ == self.resource.adapter.base_url@ + "orders"@ + "/"@ + self.resource.id@
                + "/cancel"@,
            r.authorization@ == "Bearer "@ + self.resource.adapter.token@,
            r.query@.len() == 0,
            r.body matches Some(b) && forall|k: Seq<char>| #[trigger]
                b.entry_spec(k) == object_of_strings_spec(params@, k),
    {
        self.actions().cancel(self.resource.id.as_str(), params, options)
    }

    /// Prepares this order's completion.
    pub fn complete(&self, params: Vec<(String, String)>, options: Vec<(String, String)>) -> (r:
        PreparedRequest)
        ensures
            r.method == HttpMethod::Post,
            r.url@ == self.resource.adapter.base_url@ + "orders"@ + "/"@ + self.resource.id@
                + "/complete"@,
            r.authorization@ == "Bearer "@ + self.resource.adapter.token@,
            r.query@.len() == 0,
            r.body matches Some(b) && forall|k: Seq<char>| #[trigger]
                b.entry_spec(k) == object_of_strings_spec(params@, k),
    {
        self.actions().complete(self.resource.id.as_str(), params, options)
    }

    pub fn is_dispatched(&self) -> (r: bool)
        ensures
            r == self.is_dispatched_spec(),
    {
        match self.resource.get_attribute("dispatched_at") {
            Some(_) => true,
            None => false,
        }
    }

    pub fn is_not_dispatched(&self) -> (r: bool)
        ensures
            r == !self.is_dispatched_spec(),
    {
        !self.is_dispatched()
    }

    pub fn is_started(&self) -> (r: bool)
        ensures
            r == self.is_started_spec(),
    {
        match self.resource.get_attribute("started_at") {
            Some(_) => true,
            None => false,
        }
    }

    pub fn is_not_started(&self) -> (r: bool)
        ensures
            r == !self.is_started_spec(),
    {
        !self.is_started()
    }

    pub fn is_completed(&self) -> (r: bool)
        ensures
            r == self.is_completed_spec(),
    {
        match self.resource.get_string_attribute("status") {
            Some(s) => {
                let completed = "completed".to_owned();
                s == completed
            },
            None => false,
        }
    }

    pub fn is_canceled(&self) -> (r: bool)
        ensures
            r == self.is_canceled_spec(),
    {
        match self.resource.get_string_attribute("status") {
            Some(s) => {
                let canceled = "canceled".to_owned();
                s == canceled
            },
            None => false,
        }
    }

    pub fn is_enroute(&self) -> (r: bool)
        ensures
            r == self.is_enroute_spec(),
    {
        match self.resource.get_string_attribute("status") {
            Some(s) => {
                let legacy = "driver_enroute".to_owned();
                let current = "enroute".to_owned();
                s == legacy || s == current
            },
            None => false,
        }
    }

    pub fn is_in_progress(&self) -> (r: bool)
        ensures
            r == self.is_in_progress_spec(),
    {
        self.is_started() && !self.is_canceled() && !self.is_completed()
    }

    /// The scheduled instant, when the snapshot stores a parseable string.
    pub fn scheduled_at(&self) -> (r: Option<i64>)
        ensures
            r == self.timestamp_attr_spec("scheduled_at"@),
    {
        match self.resource.get_string_attribute("scheduled_at") {
            Some(s) => parse_utc_timestamp(s.as_str()),
            None => None,
        }
    }

    /// The start instant, when the snapshot stores a parseable string.
    pub fn started_at(&self) -> (r: Option<i64>)
        ensures
            r == self.timestamp_attr_spec("started_at"@),
    {
        match self.resource.get_string_attribute("started_at") {
            Some(s) => parse_utc_timestamp(s.as_str()),
            None => None,
        }
    }

    /// The dispatch instant, when the snapshot stores a parseable string.
    pub fn dispatched_at(&self) -> (r: Option<i64>)
        ensures
            r == self.timestamp_attr_spec("dispatched_at"@),
    {
        match self.resource.get_string_attribute("dispatched_at") {
            Some(s) => parse_utc_timestamp(s.as_str()),
            None => None,
        }
    }

    /// The stored status string, when there is one.
    pub fn status(&self) -> (r: Option<String>)
        ensures
            match r {
                Some(s) => self.status_spec() == Some(s@),
                None => self.status_spec() is None,
            },
    {
        self.resource.get_string_attribute("status")
    }
}

/// An order whose stored status is `completed` reports itself completed and
/// never in progress, whatever its `started_at` and `dispatched_at` hold.
pub proof fn lemma_completed_never_in_progress(o: Order)
    requires
        o.status_spec() == Some("completed"@),
    ensures
        o.is_completed_spec(),
        !o.is_in_progress_spec(),
{
}

} // verus!
